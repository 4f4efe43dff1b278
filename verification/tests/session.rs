use libde265_rs::context_alloc_outcome;
use libde265_rs::decode_outcome;
use libde265_rs::follow_up;
use libde265_rs::ContextHandles;
use libde265_rs::DeError;
use libde265_rs::DecodeResult;
use libde265_rs::FollowUp;
use libde265_rs::PictureTicket;
use libde265_rs::SessionModel;

#[test]
fn decode_outcome_mapping() {
    assert_eq!(decode_outcome(0, 1), Ok(DecodeResult::HasImagesInBuffer));
    assert_eq!(decode_outcome(0, 7), Ok(DecodeResult::HasImagesInBuffer));
    assert_eq!(decode_outcome(0, 0), Ok(DecodeResult::Done));
    assert_eq!(decode_outcome(0, -1), Ok(DecodeResult::Done));
    assert_eq!(decode_outcome(9, 0), Err(DeError::ErrorImageBufferFull));
    assert_eq!(decode_outcome(13, 1), Err(DeError::ErrorWaitingForInputData));
    assert_eq!(decode_outcome(7, 0), Err(DeError::ErrorOutOfMemory));
}

#[test]
fn follow_up_policy() {
    assert_eq!(follow_up(&Ok(DecodeResult::Done)), FollowUp::Finished);
    assert_eq!(follow_up(&Ok(DecodeResult::HasImagesInBuffer)), FollowUp::DrainPictures);
    assert_eq!(follow_up(&Err(DeError::ErrorImageBufferFull)), FollowUp::DrainPictures);
    assert_eq!(follow_up(&Err(DeError::ErrorWaitingForInputData)), FollowUp::ProvideInput);
    assert_eq!(
        follow_up(&Err(DeError::ErrorChecksumMismatch)),
        FollowUp::Fatal(DeError::ErrorChecksumMismatch)
    );
    assert_eq!(
        follow_up(&Err(DeError::Unknown(77))),
        FollowUp::Fatal(DeError::Unknown(77))
    );
}

#[test]
fn context_allocation_outcome() {
    assert_eq!(context_alloc_outcome(true), Ok(()));
    assert_eq!(context_alloc_outcome(false), Err(DeError::ErrorLibraryInitializationFailed));
}

#[test]
fn context_released_exactly_once() {
    let mut c = ContextHandles::new_pair();
    assert_eq!(c.holders, 2);
    assert!(!c.released);
    assert!(!c.drop_holder());
    assert!(!c.released);
    assert!(c.drop_holder());
    assert!(c.released);
    assert_eq!(c.holders, 0);
}

#[test]
fn empty_buffer_yields_nothing() {
    let s = SessionModel::new(4);
    assert_eq!(s.peek_next(), None);
}

#[test]
fn pending_bytes_query_idempotent() {
    let mut s = SessionModel::new(4);
    s.push_data(100, 0, 0);
    s.push_data(24, 0, 0);
    let first = s.number_of_input_bytes_pending();
    let second = s.number_of_input_bytes_pending();
    assert_eq!(first, 124);
    assert_eq!(first, second);
}

#[test]
fn user_data_round_trip() {
    let mut s = SessionModel::new(4);
    s.push_nal(1024, 40_000, 0xBEE);
    assert_eq!(s.decode(), Ok(DecodeResult::HasImagesInBuffer));
    let p = s.peek_next().unwrap();
    assert_eq!(p.tag, 0xBEE);
    assert_eq!(p.pts, 40_000);
}

#[test]
fn user_data_round_trip_through_byte_pushes() {
    let mut s = SessionModel::new(4);
    s.push_data(600, 1_000, 11);
    s.push_data(424, 2_000, 22);
    s.push_end_of_nal();
    assert_eq!(s.number_of_input_bytes_pending(), 0);
    assert_eq!(s.number_of_nal_units_pending(), 1);
    assert_eq!(s.decode(), Ok(DecodeResult::HasImagesInBuffer));
    let p = s.peek_next().unwrap();
    assert_eq!(p.tag, 11);
    assert_eq!(p.pts, 1_000);
}

#[test]
fn two_drops_free_two_slots() {
    let mut s = SessionModel::new(3);
    s.push_nal(10, 1, 1);
    s.push_nal(10, 2, 2);
    s.push_nal(10, 3, 3);
    assert_eq!(s.decode(), Ok(DecodeResult::HasImagesInBuffer));
    assert_eq!(s.decode(), Ok(DecodeResult::HasImagesInBuffer));
    assert_eq!(s.decode(), Ok(DecodeResult::HasImagesInBuffer));
    assert_eq!(s.pictures_ready(), 3);
    s.release_next();
    s.release_next();
    assert_eq!(s.pictures_ready(), 1);
    assert_eq!(s.peek_next().unwrap().tag, 3);
}

#[test]
fn buffer_full_retry_progresses() {
    let mut s = SessionModel::new(1);
    s.push_nal(10, 1, 1);
    s.push_nal(10, 2, 2);
    assert_eq!(s.decode(), Ok(DecodeResult::HasImagesInBuffer));
    assert_eq!(s.decode(), Err(DeError::ErrorImageBufferFull));
    while s.peek_next().is_some() {
        s.release_next();
    }
    assert_eq!(s.decode(), Ok(DecodeResult::HasImagesInBuffer));
    assert_eq!(s.peek_next().unwrap().tag, 2);
}

#[test]
fn starved_before_flush_done_after() {
    let mut s = SessionModel::new(2);
    assert_eq!(s.decode(), Err(DeError::ErrorWaitingForInputData));
    s.push_data(100, 5, 9);
    assert_eq!(s.decode(), Err(DeError::ErrorWaitingForInputData));
    s.flush_data();
    assert_eq!(s.number_of_input_bytes_pending(), 0);
    assert_eq!(s.decode(), Ok(DecodeResult::HasImagesInBuffer));
    s.release_next();
    assert_eq!(s.decode(), Ok(DecodeResult::Done));
    assert_eq!(s.decode(), Ok(DecodeResult::Done));
}

#[test]
fn full_run_yields_all_frames() {
    let mut s = SessionModel::new(8);
    for i in 0..75usize {
        s.push_nal(1024, i as i64 * 40_000, i);
    }
    s.flush_data();
    let got = s.decode_and_drain();
    assert_eq!(got.len(), 75);
    for (i, t) in got.iter().enumerate() {
        assert_eq!(t.tag, i);
        assert_eq!(t.pts, i as i64 * 40_000);
    }
    assert_eq!(s.decode(), Ok(DecodeResult::Done));
}

#[test]
fn independent_sessions_agree() {
    let mut runs: Vec<Vec<PictureTicket>> = Vec::new();
    for _ in 0..3 {
        let mut s = SessionModel::new(2);
        for i in 0..20usize {
            s.push_nal(512, i as i64, 1000 + i);
        }
        s.flush_data();
        runs.push(s.decode_and_drain());
    }
    assert_eq!(runs[0].len(), 20);
    assert_eq!(runs[0], runs[1]);
    assert_eq!(runs[1], runs[2]);
}

#[test]
fn reset_discards_session_state() {
    let mut s = SessionModel::new(2);
    s.push_data(100, 0, 0);
    s.push_nal(50, 1, 1);
    assert_eq!(s.decode(), Ok(DecodeResult::HasImagesInBuffer));
    s.reset();
    assert_eq!(s.number_of_input_bytes_pending(), 0);
    assert_eq!(s.number_of_nal_units_pending(), 0);
    assert_eq!(s.pictures_ready(), 0);
    assert_eq!(s.peek_next(), None);
    assert_eq!(s.decode(), Err(DeError::ErrorWaitingForInputData));
}

#[test]
fn end_of_frame_queues_buffered_picture() {
    let mut s = SessionModel::new(2);
    s.push_end_of_frame();
    assert_eq!(s.number_of_nal_units_pending(), 0);
    assert_eq!(s.pictures_ready(), 0);
    s.push_data(256, 7, 70);
    s.push_end_of_frame();
    assert_eq!(s.number_of_input_bytes_pending(), 0);
    assert_eq!(s.number_of_nal_units_pending(), 0);
    assert_eq!(s.pictures_ready(), 1);
    let p = s.peek_next().unwrap();
    assert_eq!(p.pts, 7);
    assert_eq!(p.tag, 70);
}

#[test]
fn end_of_frame_at_capacity_waits_at_input() {
    let mut s = SessionModel::new(1);
    s.push_nal(64, 1, 1);
    assert_eq!(s.decode(), Ok(DecodeResult::HasImagesInBuffer));
    assert_eq!(s.pictures_ready(), 1);
    s.push_data(256, 2, 2);
    s.push_end_of_frame();
    assert_eq!(s.number_of_input_bytes_pending(), 0);
    assert_eq!(s.number_of_nal_units_pending(), 1);
    assert_eq!(s.pictures_ready(), 1);
    assert_eq!(s.peek_next().unwrap().tag, 1);
}

#[test]
fn run_session_round_trips_every_unit() {
    let units: Vec<libde265_rs::NalRecord> = (0..10)
        .map(|i| libde265_rs::NalRecord {
            size: 100 + i,
            pts: i as i64 * 33,
            tag: 7000 + i,
        })
        .collect();
    let got = libde265_rs::run_session(&units, 3);
    assert_eq!(got.len(), 10);
    for (u, t) in units.iter().zip(got.iter()) {
        assert_eq!(t.pts, u.pts);
        assert_eq!(t.tag, u.tag);
    }
}
