use vstd::prelude::*;

use crate::errors::DeError;
use crate::errors::status_of;

verus! {

/// Outcome of one bounded unit of decoding work.
#[derive(Debug, Copy, Clone, PartialEq, Eq, Structural)]
pub enum DecodeResult {
    /// The decoding process was finished: no more progress is possible
    /// without new input.
    Done,
    /// The decoded picture buffer has some images in it: the caller
    /// should drain the output before decoding further.
    HasImagesInBuffer,
}

/// What a decode step reports, combined from the native status code and
/// the more-images flag: a success code with images pending asks for a
/// drain, a success code without reports completion, and any other
/// status surfaces as its mapped condition.
pub open spec fn decode_outcome_of(raw: u32, more: i32) -> Result<DecodeResult, DeError> {
    match status_of(raw) {
        Ok(()) => if more > 0 {
            Ok(DecodeResult::HasImagesInBuffer)
        } else {
            Ok(DecodeResult::Done)
        },
        Err(e) => Err(e),
    }
}

/// Combines the native status code of a decode step with its
/// more-images flag into the step's outcome.
pub fn decode_outcome(raw: u32, more: i32) -> (r: Result<DecodeResult, DeError>)
    ensures
        r == decode_outcome_of(raw, more),
{
    match DeError::from_raw(raw) {
        Ok(()) => if more > 0 {
            Ok(DecodeResult::HasImagesInBuffer)
        } else {
            Ok(DecodeResult::Done)
        },
        Err(e) => Err(e),
    }
}

/// The follow-up a decode outcome asks of the caller.
#[derive(Debug, Copy, Clone, PartialEq, Eq, Structural)]
pub enum FollowUp {
    /// Drain the output side, then decode again.
    DrainPictures,
    /// Push more input (or flush at end of stream), then decode again.
    ProvideInput,
    /// The session's decoding work is complete.
    Finished,
    /// A terminal condition to surface to the caller.
    Fatal(DeError),
}

/// The retry policy of the protocol: a full picture buffer asks for a
/// drain and a retry, starvation asks for more input and a retry, every
/// other failure is terminal for the operation; success either finishes
/// or asks for a drain.
pub open spec fn follow_up_of(r: Result<DecodeResult, DeError>) -> FollowUp {
    match r {
        Ok(DecodeResult::Done) => FollowUp::Finished,
        Ok(DecodeResult::HasImagesInBuffer) => FollowUp::DrainPictures,
        Err(e) => if e is ErrorImageBufferFull {
            FollowUp::DrainPictures
        } else if e is ErrorWaitingForInputData {
            FollowUp::ProvideInput
        } else {
            FollowUp::Fatal(e)
        },
    }
}

/// Decides what to do after a decode step, as the retry policy of the
/// protocol prescribes.
pub fn follow_up(r: &Result<DecodeResult, DeError>) -> (f: FollowUp)
    ensures
        f == follow_up_of(*r),
{
    match r {
        Ok(DecodeResult::Done) => FollowUp::Finished,
        Ok(DecodeResult::HasImagesInBuffer) => FollowUp::DrainPictures,
        Err(DeError::ErrorImageBufferFull) => FollowUp::DrainPictures,
        Err(DeError::ErrorWaitingForInputData) => FollowUp::ProvideInput,
        Err(e) => FollowUp::Fatal(*e),
    }
}

/// The timestamp and opaque tag a push call attaches to its bytes.
#[derive(Debug, Copy, Clone, PartialEq, Eq, Structural)]
pub struct PushMeta {
    /// Presentation timestamp.
    pub pts: i64,
    /// Opaque user-data token.
    pub tag: usize,
}

/// One compressed NAL unit queued at the decoder input, with the
/// metadata attached when its bytes were pushed.
#[derive(Debug, Copy, Clone, PartialEq, Eq, Structural)]
pub struct NalRecord {
    /// Size of the unit in bytes.
    pub size: usize,
    /// Presentation timestamp attached at the push.
    pub pts: i64,
    /// Opaque user-data token attached at the push.
    pub tag: usize,
}

/// One decoded picture waiting in the decoded-picture buffer, with the
/// metadata of the NAL unit it was decoded from.
#[derive(Debug, Copy, Clone, PartialEq, Eq, Structural)]
pub struct PictureTicket {
    /// Presentation timestamp, round-tripped from the push.
    pub pts: i64,
    /// Opaque user-data token, round-tripped from the push.
    pub tag: usize,
}

/// The picture a NAL unit decodes into: it carries the unit's timestamp
/// and tag unchanged.
pub open spec fn ticket_of(n: NalRecord) -> PictureTicket {
    PictureTicket { pts: n.pts, tag: n.tag }
}

/// The pictures a queue of NAL units decodes into, in order.
pub open spec fn tickets_of(ns: Seq<NalRecord>) -> Seq<PictureTicket> {
    ns.map_values(|n: NalRecord| ticket_of(n))
}

/// The abstract state of one decoder session: the input accumulation,
/// the queue of complete NAL units, the decoded-picture buffer with its
/// capacity, and the end-of-stream flag.
#[verifier::ext_equal]
pub ghost struct SessionAbs {
    /// Bytes pushed since the last boundary, not yet a complete unit.
    pub pending_bytes: nat,
    /// Metadata of the accumulation in progress, attached by the push
    /// that started it.
    pub pending_meta: Option<PushMeta>,
    /// Complete NAL units queued at the input, oldest first.
    pub nals: Seq<NalRecord>,
    /// Decoded pictures awaiting retrieval, oldest first.
    pub ready: Seq<PictureTicket>,
    /// Capacity of the decoded-picture buffer.
    pub capacity: nat,
    /// Whether end of stream has been signalled.
    pub flushed: bool,
}

impl SessionAbs {
    /// Sanity of a session state: the buffer has room for at least one
    /// picture and never exceeds its capacity, an accumulation is in
    /// progress exactly when it has attached metadata, and nothing
    /// accumulates after end of stream.
    pub open spec fn wf(self) -> bool {
        &&& self.capacity >= 1
        &&& self.ready.len() <= self.capacity
        &&& (self.pending_bytes > 0 <==> self.pending_meta is Some)
        &&& (self.flushed ==> self.pending_bytes == 0)
    }
}

/// The state after pushing `len` compressed bytes: the accumulation
/// grows, and the push that starts an accumulation attaches its
/// metadata to it.
pub open spec fn push_data_post(s: SessionAbs, len: usize, pts: i64, tag: usize) -> SessionAbs {
    SessionAbs {
        pending_bytes: (s.pending_bytes + len) as nat,
        pending_meta: if s.pending_bytes == 0 && len > 0 {
            Some(PushMeta { pts, tag })
        } else {
            s.pending_meta
        },
        ..s
    }
}

/// The state after pushing one complete NAL unit: it joins the input
/// queue with its metadata.
pub open spec fn push_nal_post(s: SessionAbs, size: usize, pts: i64, tag: usize) -> SessionAbs {
    SessionAbs { nals: s.nals.push(NalRecord { size, pts, tag }), ..s }
}

/// The state after a boundary marker: a nonempty accumulation is packed
/// into one NAL unit carrying the attached metadata; an empty one is
/// left alone.
pub open spec fn seal_post(s: SessionAbs) -> SessionAbs {
    if s.pending_bytes > 0 {
        SessionAbs {
            pending_bytes: 0,
            pending_meta: None,
            nals: s.nals.push(
                NalRecord {
                    size: s.pending_bytes as usize,
                    pts: s.pending_meta.unwrap().pts,
                    tag: s.pending_meta.unwrap().tag,
                },
            ),
            ..s
        }
    } else {
        s
    }
}

/// The state after the end-of-frame marker: beyond packing the pending
/// accumulation as the end-of-NAL marker does, the picture it completes
/// is queued for output at once, carrying the attached metadata —
/// provided a buffer slot is free. At capacity, or with nothing
/// pending, it behaves as the end-of-NAL marker.
pub open spec fn end_of_frame_post(s: SessionAbs) -> SessionAbs {
    if s.pending_bytes > 0 && s.ready.len() < s.capacity {
        SessionAbs {
            pending_bytes: 0,
            pending_meta: None,
            ready: s.ready.push(
                PictureTicket {
                    pts: s.pending_meta.unwrap().pts,
                    tag: s.pending_meta.unwrap().tag,
                },
            ),
            ..s
        }
    } else {
        seal_post(s)
    }
}

/// The state after the end-of-stream signal: any accumulation is packed
/// and the flag is set.
pub open spec fn flush_post(s: SessionAbs) -> SessionAbs {
    SessionAbs { flushed: true, ..seal_post(s) }
}

/// The status one decode step reports: with units queued it makes
/// progress unless the picture buffer is already at capacity; with
/// nothing queued it is starved until end of stream, and finished
/// after.
pub open spec fn decode_status(s: SessionAbs) -> Result<DecodeResult, DeError> {
    if s.nals.len() > 0 {
        if s.ready.len() == s.capacity {
            Err(DeError::ErrorImageBufferFull)
        } else {
            Ok(DecodeResult::HasImagesInBuffer)
        }
    } else if !s.flushed {
        Err(DeError::ErrorWaitingForInputData)
    } else {
        Ok(DecodeResult::Done)
    }
}

/// The state after one decode step: when the step makes progress, the
/// oldest queued unit becomes the newest ready picture; otherwise
/// nothing changes.
pub open spec fn decode_post(s: SessionAbs) -> SessionAbs {
    if s.nals.len() > 0 && s.ready.len() < s.capacity {
        SessionAbs {
            nals: s.nals.drop_first(),
            ready: s.ready.push(ticket_of(s.nals[0])),
            ..s
        }
    } else {
        s
    }
}

/// The state after the oldest ready picture's slot is released back to
/// the engine.
pub open spec fn release_post(s: SessionAbs) -> SessionAbs {
    SessionAbs { ready: s.ready.drop_first(), ..s }
}

/// The state after releasing the `n` oldest ready pictures in turn.
pub open spec fn release_n_post(s: SessionAbs, n: nat) -> SessionAbs
    decreases n,
{
    if n == 0 {
        s
    } else {
        release_n_post(release_post(s), (n - 1) as nat)
    }
}

/// The state with the picture buffer fully drained.
pub open spec fn drained(s: SessionAbs) -> SessionAbs {
    SessionAbs { ready: Seq::empty(), ..s }
}

/// The state after a reset: all pending input and all undelivered
/// pictures are discarded and the session is fresh again, with the same
/// buffer capacity.
pub open spec fn reset_post(s: SessionAbs) -> SessionAbs {
    SessionAbs {
        pending_bytes: 0,
        pending_meta: None,
        nals: Seq::empty(),
        ready: Seq::empty(),
        capacity: s.capacity,
        flushed: false,
    }
}

/// An executable model of the decoder session protocol. It makes the
/// implicit push/decode/drain state machine of the session explicit:
/// input accumulation and boundaries, the queue of complete NAL units,
/// one bounded unit of decoding work per step, the bounded
/// decoded-picture buffer, and the peek/release lifetime of retrieved
/// pictures. The engine's internal reconstruction work is abstracted to
/// the one observable effect the protocol depends on: a decoded unit
/// surfaces as a picture carrying the metadata attached at the push.
pub struct SessionModel {
    pending_bytes: usize,
    pending_meta: Option<PushMeta>,
    nals: Vec<NalRecord>,
    ready: Vec<PictureTicket>,
    capacity: usize,
    flushed: bool,
}

impl View for SessionModel {
    type V = SessionAbs;

    closed spec fn view(&self) -> SessionAbs {
        SessionAbs {
            pending_bytes: self.pending_bytes as nat,
            pending_meta: self.pending_meta,
            nals: self.nals@,
            ready: self.ready@,
            capacity: self.capacity as nat,
            flushed: self.flushed,
        }
    }
}

impl SessionModel {
    /// A fresh session whose decoded-picture buffer holds up to
    /// `capacity` pictures.
    pub fn new(capacity: usize) -> (s: SessionModel)
        requires
            capacity >= 1,
        ensures
            s@.wf(),
            s@.pending_bytes == 0,
            s@.pending_meta is None,
            s@.nals.len() == 0,
            s@.ready.len() == 0,
            s@.capacity == capacity,
            !s@.flushed,
    {
        SessionModel {
            pending_bytes: 0,
            pending_meta: None,
            nals: Vec::new(),
            ready: Vec::new(),
            capacity,
            flushed: false,
        }
    }

    /// Pushes `len` compressed bytes with a timestamp and an opaque
    /// tag. Pure buffering: nothing is decoded. The metadata is
    /// attached to the NAL unit whose start falls in this call, that
    /// is, to the accumulation this push starts.
    pub fn push_data(&mut self, len: usize, pts: i64, tag: usize)
        requires
            old(self)@.wf(),
            !old(self)@.flushed,
            old(self)@.pending_bytes + len <= usize::MAX,
        ensures
            final(self)@.wf(),
            final(self)@ == push_data_post(old(self)@, len, pts, tag),
    {
        if self.pending_bytes == 0 && len > 0 {
            self.pending_meta = Some(PushMeta { pts, tag });
        }
        self.pending_bytes = self.pending_bytes + len;
        proof {
            assert(self@ =~= push_data_post(old(self)@, len, pts, tag));
        }
    }

    /// Pushes one complete NAL unit with a timestamp and an opaque tag.
    /// Pure buffering: nothing is decoded.
    pub fn push_nal(&mut self, size: usize, pts: i64, tag: usize)
        requires
            old(self)@.wf(),
            !old(self)@.flushed,
        ensures
            final(self)@.wf(),
            final(self)@ == push_nal_post(old(self)@, size, pts, tag),
    {
        self.nals.push(NalRecord { size, pts, tag });
        proof {
            assert(self@ =~= push_nal_post(old(self)@, size, pts, tag));
        }
    }

    /// Marks the end of a NAL unit: the pending accumulation, if any,
    /// is packed into one unit and queued for decoding.
    pub fn push_end_of_nal(&mut self)
        requires
            old(self)@.wf(),
        ensures
            final(self)@.wf(),
            final(self)@ == seal_post(old(self)@),
    {
        if self.pending_bytes > 0 {
            let meta = self.pending_meta.unwrap();
            self.nals.push(NalRecord { size: self.pending_bytes, pts: meta.pts, tag: meta.tag });
            self.pending_bytes = 0;
            self.pending_meta = None;
        }
        proof {
            assert(self@ =~= seal_post(old(self)@));
        }
    }

    /// Marks the end of a frame: the pending accumulation is packed,
    /// and additionally the picture it completes is queued for output
    /// at once — the extra effect this marker has beyond the end of a
    /// NAL unit. Only when the picture buffer is at capacity does the
    /// completed unit wait at the input instead.
    pub fn push_end_of_frame(&mut self)
        requires
            old(self)@.wf(),
        ensures
            final(self)@.wf(),
            final(self)@ == end_of_frame_post(old(self)@),
    {
        if self.pending_bytes > 0 && self.ready.len() < self.capacity {
            let meta = self.pending_meta.unwrap();
            self.ready.push(PictureTicket { pts: meta.pts, tag: meta.tag });
            self.pending_bytes = 0;
            self.pending_meta = None;
            proof {
                assert(self@ =~= end_of_frame_post(old(self)@));
            }
        } else {
            self.push_end_of_nal();
            proof {
                assert(self@ =~= end_of_frame_post(old(self)@));
            }
        }
    }

    /// Signals end of stream: any pending accumulation is packed, and
    /// from here on a starved decode step reports completion instead of
    /// asking for input.
    pub fn flush_data(&mut self)
        requires
            old(self)@.wf(),
            !old(self)@.flushed,
        ensures
            final(self)@.wf(),
            final(self)@ == flush_post(old(self)@),
    {
        self.push_end_of_nal();
        self.flushed = true;
        proof {
            assert(self@ =~= flush_post(old(self)@));
        }
    }

    /// The number of bytes pending at the decoder input. Reading it
    /// changes nothing: without an intervening push or decode, two
    /// reads return the same value.
    pub fn number_of_input_bytes_pending(&self) -> (n: usize)
        ensures
            n == self@.pending_bytes,
    {
        self.pending_bytes
    }

    /// The number of complete NAL units pending at the decoder input.
    pub fn number_of_nal_units_pending(&self) -> (n: usize)
        ensures
            n == self@.nals.len(),
    {
        self.nals.len()
    }

    /// The number of decoded pictures currently in the buffer.
    pub fn pictures_ready(&self) -> (n: usize)
        ensures
            n == self@.ready.len(),
    {
        self.ready.len()
    }

    /// Performs one bounded unit of decoding work: at most one queued
    /// unit becomes a ready picture. Reports a full buffer when no slot
    /// is free (drain the output and retry), starvation when nothing is
    /// queued before end of stream (push more and retry), and
    /// completion when nothing is queued after it.
    pub fn decode(&mut self) -> (r: Result<DecodeResult, DeError>)
        requires
            old(self)@.wf(),
        ensures
            final(self)@.wf(),
            r == decode_status(old(self)@),
            final(self)@ == decode_post(old(self)@),
    {
        if self.nals.len() > 0 {
            if self.ready.len() == self.capacity {
                proof {
                    assert(self@ =~= decode_post(old(self)@));
                }
                Err(DeError::ErrorImageBufferFull)
            } else {
                let n = self.nals.remove(0);
                self.ready.push(PictureTicket { pts: n.pts, tag: n.tag });
                proof {
                    assert(self@ =~= decode_post(old(self)@));
                }
                Ok(DecodeResult::HasImagesInBuffer)
            }
        } else if !self.flushed {
            Err(DeError::ErrorWaitingForInputData)
        } else {
            Ok(DecodeResult::Done)
        }
    }

    /// The next decoded picture, if there is any. An empty buffer
    /// yields nothing, never an error, and the buffer is not advanced:
    /// the picture keeps its slot until it is released.
    pub fn peek_next(&self) -> (p: Option<PictureTicket>)
        ensures
            self@.ready.len() == 0 ==> p is None,
            self@.ready.len() > 0 ==> p == Some(self@.ready[0]),
    {
        if self.ready.len() == 0 {
            None
        } else {
            Some(self.ready[0])
        }
    }

    /// Releases the slot of the oldest ready picture back to the
    /// engine, as dropping a retrieved picture view does: exactly one
    /// slot is freed, and the next picture can surface.
    pub fn release_next(&mut self)
        requires
            old(self)@.wf(),
            old(self)@.ready.len() > 0,
        ensures
            final(self)@.wf(),
            final(self)@ == release_post(old(self)@),
    {
        self.ready.remove(0);
        proof {
            assert(self@ =~= release_post(old(self)@));
        }
    }

    /// Discards all internal decoder state, as a caller does when
    /// skipping in the source stream. Pictures already retrieved are
    /// not affected; the session is fresh again with the same buffer
    /// capacity.
    pub fn reset(&mut self)
        requires
            old(self)@.wf(),
        ensures
            final(self)@.wf(),
            final(self)@ == reset_post(old(self)@),
    {
        self.pending_bytes = 0;
        self.pending_meta = None;
        self.nals.clear();
        self.ready.clear();
        self.flushed = false;
        proof {
            assert(self@ =~= reset_post(old(self)@));
        }
    }

    /// Drives a flushed session to completion, draining every picture
    /// in decode order: every queued unit and every picture already in
    /// the buffer is yielded exactly once, each carrying the timestamp
    /// and tag attached at its push, and nothing else is yielded. In
    /// the model a unit's picture completes in queue order; the real
    /// engine may complete pictures in another order than they were
    /// pushed (reference-picture reordering), so a caller displays by
    /// the attached timestamp, not by retrieval order.
    pub fn decode_and_drain(&mut self) -> (got: Vec<PictureTicket>)
        requires
            old(self)@.wf(),
            old(self)@.flushed,
        ensures
            final(self)@.wf(),
            got@ == old(self)@.ready + tickets_of(old(self)@.nals),
            final(self)@.nals.len() == 0,
            final(self)@.ready.len() == 0,
            final(self)@.capacity == old(self)@.capacity,
            final(self)@.flushed,
    {
        let ghost total = self@.ready + tickets_of(self@.nals);
        let mut got: Vec<PictureTicket> = Vec::new();
        proof {
            assert(got@ + self@.ready + tickets_of(self@.nals) =~= total);
        }
        loop
            invariant
                self@.wf(),
                self@.flushed,
                got@ + self@.ready + tickets_of(self@.nals) == total,
                total == old(self)@.ready + tickets_of(old(self)@.nals),
                self@.capacity == old(self)@.capacity,
            decreases 2 * self@.nals.len() + self@.ready.len(),
        {
            let ghost queued = self@.nals;
            while self.pictures_ready() > 0
                invariant
                    self@.wf(),
                    self@.flushed,
                    got@ + self@.ready + tickets_of(self@.nals) == total,
                    self@.nals == queued,
                    self@.capacity == old(self)@.capacity,
                decreases self@.ready.len(),
            {
                if let Some(t) = self.peek_next() {
                    got.push(t);
                    self.release_next();
                    proof {
                        assert(got@ + self@.ready + tickets_of(self@.nals) =~= total);
                    }
                }
            }
            match self.decode() {
                Ok(DecodeResult::Done) => {
                    proof {
                        assert(got@ =~= total);
                    }
                    return got;
                },
                Ok(DecodeResult::HasImagesInBuffer) => {
                    proof {
                        assert(got@ + self@.ready + tickets_of(self@.nals) =~= total);
                    }
                },
                Err(_) => {
                    proof {
                        assert(false);
                    }
                },
            }
        }
    }
}

/// Runs one whole session over a prepared queue of NAL units: a fresh
/// session, every unit pushed in order, end of stream signalled, and
/// the output drained to completion. Yields exactly one picture per
/// unit, in order, each carrying the timestamp and tag its unit was
/// pushed with. The yield depends on the units alone, so any two runs
/// over the same units agree exactly, whatever their buffer
/// capacities. The real engine may complete pictures in another order
/// than they were pushed; display order is the attached timestamp's
/// business, not retrieval order's.
pub fn run_session(units: &Vec<NalRecord>, capacity: usize) -> (got: Vec<PictureTicket>)
    requires
        capacity >= 1,
    ensures
        got@ == tickets_of(units@),
        got@.len() == units@.len(),
{
    let mut s = SessionModel::new(capacity);
    let mut i: usize = 0;
    while i < units.len()
        invariant
            i <= units@.len(),
            s@.wf(),
            !s@.flushed,
            s@.pending_bytes == 0,
            s@.ready.len() == 0,
            s@.nals == units@.subrange(0, i as int),
        decreases units@.len() - i,
    {
        let u = units[i];
        s.push_nal(u.size, u.pts, u.tag);
        i = i + 1;
        proof {
            assert(s@.nals =~= units@.subrange(0, i as int));
        }
    }
    proof {
        assert(units@.subrange(0, units@.len() as int) =~= units@);
    }
    s.flush_data();
    let got = s.decode_and_drain();
    proof {
        assert(got@ =~= tickets_of(units@));
    }
    got
}

/// Releasing as many times as there are ready pictures frees exactly
/// that many slots and empties the picture buffer, whatever order the
/// retrieved views were dropped in: each drop is one release of the
/// oldest slot.
pub proof fn lemma_release_all_empties_buffer(s: SessionAbs)
    requires
        s.wf(),
    ensures
        release_n_post(s, s.ready.len()) == drained(s),
        drained(s).wf(),
    decreases s.ready.len(),
{
    if s.ready.len() == 0 {
        assert(s =~= drained(s));
    } else {
        let s1 = release_post(s);
        lemma_release_all_empties_buffer(s1);
        assert(drained(s1) =~= drained(s));
    }
}

/// Dropping two picture views from the same session frees exactly two
/// slots: no double free, no leaked slot, and the remaining pictures
/// are exactly the ones not yet released.
pub proof fn lemma_two_releases_free_two_slots(s: SessionAbs)
    requires
        s.wf(),
        s.ready.len() >= 2,
    ensures
        release_post(s).wf(),
        release_post(release_post(s)).wf(),
        release_post(release_post(s)).ready.len() == s.ready.len() - 2,
        release_post(release_post(s)).ready == s.ready.subrange(2, s.ready.len() as int),
{
    assert(release_post(release_post(s)).ready =~= s.ready.subrange(2, s.ready.len() as int));
}

/// When a decode step reports a full picture buffer, draining every
/// available picture and retrying makes forward progress: the retried
/// step decodes a unit into the freed buffer instead of repeating the
/// full-buffer error.
pub proof fn lemma_full_buffer_retry_progresses(s: SessionAbs)
    requires
        s.wf(),
        decode_status(s) == Err::<DecodeResult, DeError>(DeError::ErrorImageBufferFull),
    ensures
        release_n_post(s, s.ready.len()) == drained(s),
        drained(s).wf(),
        decode_status(drained(s)) == Ok::<DecodeResult, DeError>(DecodeResult::HasImagesInBuffer),
        decode_post(drained(s)).ready.len() == 1,
        decode_post(drained(s)).nals.len() == s.nals.len() - 1,
{
    lemma_release_all_empties_buffer(s);
}

/// The opaque tag and the timestamp attached at a push surface
/// unchanged on the picture decoded from that NAL unit: queueing one
/// unit in a session with an otherwise empty input queue and stepping
/// the decoder yields a newest ready picture carrying exactly the
/// pushed tag and timestamp.
pub proof fn lemma_user_data_round_trip(s: SessionAbs, size: usize, pts: i64, tag: usize)
    requires
        s.wf(),
        s.nals.len() == 0,
        s.ready.len() < s.capacity,
    ensures
        decode_status(push_nal_post(s, size, pts, tag)) == Ok::<DecodeResult, DeError>(
            DecodeResult::HasImagesInBuffer,
        ),
        decode_post(push_nal_post(s, size, pts, tag)).ready.last() == (PictureTicket { pts, tag }),
{
}

/// Driving a session to completion yields one picture for every queued
/// unit and every picture already decoded, no frame lost and none
/// duplicated: the yielded sequence is exactly the buffered pictures in
/// place, followed by exactly one ticket per queued unit, in order,
/// each carrying its unit's metadata.
pub proof fn lemma_drain_yields_every_frame(s: SessionAbs)
    ensures
        (s.ready + tickets_of(s.nals)).len() == s.ready.len() + s.nals.len(),
        forall|i: int|
            0 <= i < s.ready.len() ==> (s.ready + tickets_of(s.nals))[i] == s.ready[i],
        forall|i: int|
            s.ready.len() <= i < s.ready.len() + s.nals.len() ==> (s.ready + tickets_of(
                s.nals,
            ))[i] == ticket_of(s.nals[i - s.ready.len()]),
{
}

} // verus!
