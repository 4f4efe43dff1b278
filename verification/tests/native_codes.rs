//! The library's code tables against the native engine's documented
//! status, parameter, acceleration, and chroma code values, exhaustively.

use libde265_rs::Acceleration;
use libde265_rs::ChromaFormat;
use libde265_rs::DeError;
use libde265_rs::ParamBool;
use libde265_rs::ParamI32;
use libde265_rs::ACCELERATION_PARAM_CODE;

#[test]
fn error_codes_match_native_constants() {
    assert_eq!(DeError::from_raw(0), Ok(()));
    let pairs = [
        (DeError::ErrorNoSuchFile, 1),
        (DeError::ErrorCoefficientOutOfImageBounds, 4),
        (DeError::ErrorChecksumMismatch, 5),
        (DeError::ErrorCtbOutsideImageArea, 6),
        (DeError::ErrorOutOfMemory, 7),
        (DeError::ErrorCodedParameterOutOfRange, 8),
        (DeError::ErrorImageBufferFull, 9),
        (DeError::ErrorCannotStartThreadpool, 10),
        (DeError::ErrorLibraryInitializationFailed, 11),
        (DeError::ErrorLibraryNotInitialized, 12),
        (DeError::ErrorWaitingForInputData, 13),
        (DeError::ErrorCannotProcessSei, 14),
        (DeError::ErrorParameterParsing, 15),
        (DeError::ErrorNoInitialSliceHeader, 16),
        (DeError::ErrorPrematureEndOfSlice, 17),
        (DeError::ErrorUnspecifiedDecodingError, 18),
        (DeError::ErrorNotImplementedYet, 502),
        (DeError::WarningNoWppCannotUseMultithreading, 1000),
        (DeError::WarningWarningBufferFull, 1001),
        (DeError::WarningPrematureEndOfSliceSegment, 1002),
        (DeError::WarningIncorrectEntryPointOffset, 1003),
        (DeError::WarningCtbOutsideImageArea, 1004),
        (DeError::WarningSpsHeaderInvalid, 1005),
        (DeError::WarningPpsHeaderInvalid, 1006),
        (DeError::WarningSliceHeaderInvalid, 1007),
        (DeError::WarningIncorrectMotionVectorScaling, 1008),
        (DeError::WarningNonexistingPpsReferenced, 1009),
        (DeError::WarningNonexistingSpsReferenced, 1010),
        (DeError::WarningBothPredFlagsZero, 1011),
        (DeError::WarningNonexistingReferencePictureAccessed, 1012),
        (DeError::WarningNumMvpNotEqualToNumMvq, 1013),
        (DeError::WarningNumberOfShortTermRefPicSetsOutOfRange, 1014),
        (DeError::WarningShortTermRefPicSetOutOfRange, 1015),
        (DeError::WarningFaultyReferencePictureList, 1016),
        (DeError::WarningEossBitNotSet, 1017),
        (DeError::WarningMaxNumRefPicsExceeded, 1018),
        (DeError::WarningInvalidChromaFormat, 1019),
        (DeError::WarningSliceSegmentAddressInvalid, 1020),
        (DeError::WarningDependentSliceWithAddressZero, 1021),
        (DeError::WarningNumberOfThreadsLimitedToMaximum, 1022),
        (DeError::WarningNonExistingLtReferenceCandidateInSliceHeader, 1023),
        (DeError::WarningCannotApplySaoOutOfMemory, 1024),
        (DeError::WarningSpsMissingCannotDecodeSei, 1025),
        (DeError::WarningCollocatedMotionVectorOutsideImageArea, 1026),
        (DeError::WarningPcmBitDepthTooLarge, 1027),
        (DeError::WarningReferenceImageBitDepthDoesNotMatch, 1028),
        (DeError::WarningReferenceImageSizeDoesNotMatchSps, 1029),
        (DeError::WarningChromaOfCurrentImageDoesNotMatchSps, 1030),
        (DeError::WarningBitDepthOfCurrentImageDoesNotMatchSps, 1031),
        (DeError::WarningReferenceImageChromaFormatDoesNotMatch, 1032),
        (DeError::WarningInvalidSliceHeaderIndexAccess, 1033),
    ];
    for (e, raw) in pairs {
        assert_eq!(e.code(), raw);
        assert_eq!(DeError::from_raw(raw), Err(e));
    }
    // every code between the listed ones is outside both closed sets
    for raw in [2, 3, 19, 501, 503, 999, 1034] {
        assert_eq!(DeError::from_raw(raw), Err(DeError::Unknown(raw)));
    }
}

#[test]
fn param_codes_match_native_constants() {
    assert_eq!(ParamBool::SeiCheckHash.code(), 0);
    assert_eq!(ParamI32::DumpSpsHeaders.code(), 1);
    assert_eq!(ParamI32::DumpVpsHeaders.code(), 2);
    assert_eq!(ParamI32::DumpPpsHeaders.code(), 3);
    assert_eq!(ParamI32::DumpSliceHeaders.code(), 4);
    assert_eq!(ACCELERATION_PARAM_CODE, 5);
    assert_eq!(ParamBool::SuppressFaultyPictures.code(), 6);
    assert_eq!(ParamBool::DisableDeblocking.code(), 7);
    assert_eq!(ParamBool::DisableSAO.code(), 8);
}

#[test]
fn acceleration_codes_match_native_constants() {
    assert_eq!(Acceleration::Scalar.code(), 0);
    assert_eq!(Acceleration::MMS.code(), 10);
    assert_eq!(Acceleration::SSE.code(), 20);
    assert_eq!(Acceleration::SSE2.code(), 30);
    assert_eq!(Acceleration::SSE4.code(), 40);
    assert_eq!(Acceleration::AVX.code(), 50);
    assert_eq!(Acceleration::AVX2.code(), 60);
    assert_eq!(Acceleration::ARM.code(), 70);
    assert_eq!(Acceleration::NEON.code(), 80);
    assert_eq!(Acceleration::Auto.code(), 10000);
}

#[test]
fn chroma_codes_match_native_constants() {
    assert_eq!(ChromaFormat::from_code(0), Some(ChromaFormat::Mono));
    assert_eq!(ChromaFormat::from_code(1), Some(ChromaFormat::C420));
    assert_eq!(ChromaFormat::from_code(2), Some(ChromaFormat::C422));
    assert_eq!(ChromaFormat::from_code(3), Some(ChromaFormat::C444));
    assert_eq!(ChromaFormat::from_code(4), None);
}
