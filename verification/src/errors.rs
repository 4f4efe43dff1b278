use vstd::prelude::*;

verus! {

/// The closed taxonomy of engine status conditions: hard errors, soft
/// warnings, and an `Unknown` escape for native codes outside both
/// closed sets.
#[derive(Debug, Copy, Clone, PartialEq, Eq, Hash, Structural)]
pub enum DeError {
    ErrorNoSuchFile,
    ErrorCoefficientOutOfImageBounds,
    ErrorChecksumMismatch,
    ErrorCtbOutsideImageArea,
    ErrorOutOfMemory,
    ErrorCodedParameterOutOfRange,
    ErrorImageBufferFull,
    ErrorCannotStartThreadpool,
    ErrorLibraryInitializationFailed,
    ErrorLibraryNotInitialized,
    ErrorWaitingForInputData,
    ErrorCannotProcessSei,
    ErrorParameterParsing,
    ErrorNoInitialSliceHeader,
    ErrorPrematureEndOfSlice,
    ErrorUnspecifiedDecodingError,
    ErrorNotImplementedYet,
    WarningNoWppCannotUseMultithreading,
    WarningWarningBufferFull,
    WarningPrematureEndOfSliceSegment,
    WarningIncorrectEntryPointOffset,
    WarningCtbOutsideImageArea,
    WarningSpsHeaderInvalid,
    WarningPpsHeaderInvalid,
    WarningSliceHeaderInvalid,
    WarningIncorrectMotionVectorScaling,
    WarningNonexistingPpsReferenced,
    WarningNonexistingSpsReferenced,
    WarningBothPredFlagsZero,
    WarningNonexistingReferencePictureAccessed,
    WarningNumMvpNotEqualToNumMvq,
    WarningNumberOfShortTermRefPicSetsOutOfRange,
    WarningShortTermRefPicSetOutOfRange,
    WarningFaultyReferencePictureList,
    WarningEossBitNotSet,
    WarningMaxNumRefPicsExceeded,
    WarningInvalidChromaFormat,
    WarningSliceSegmentAddressInvalid,
    WarningDependentSliceWithAddressZero,
    WarningNumberOfThreadsLimitedToMaximum,
    WarningNonExistingLtReferenceCandidateInSliceHeader,
    WarningCannotApplySaoOutOfMemory,
    WarningSpsMissingCannotDecodeSei,
    WarningCollocatedMotionVectorOutsideImageArea,
    WarningPcmBitDepthTooLarge,
    WarningReferenceImageBitDepthDoesNotMatch,
    WarningReferenceImageSizeDoesNotMatchSps,
    WarningChromaOfCurrentImageDoesNotMatchSps,
    WarningBitDepthOfCurrentImageDoesNotMatchSps,
    WarningReferenceImageChromaFormatDoesNotMatch,
    WarningInvalidSliceHeaderIndexAccess,
    Unknown(u32),
}

/// The native status code each condition stands for. `Unknown` carries
/// its code directly.
pub open spec fn error_code(e: DeError) -> u32 {
    match e {
        DeError::ErrorNoSuchFile => 1,
        DeError::ErrorCoefficientOutOfImageBounds => 4,
        DeError::ErrorChecksumMismatch => 5,
        DeError::ErrorCtbOutsideImageArea => 6,
        DeError::ErrorOutOfMemory => 7,
        DeError::ErrorCodedParameterOutOfRange => 8,
        DeError::ErrorImageBufferFull => 9,
        DeError::ErrorCannotStartThreadpool => 10,
        DeError::ErrorLibraryInitializationFailed => 11,
        DeError::ErrorLibraryNotInitialized => 12,
        DeError::ErrorWaitingForInputData => 13,
        DeError::ErrorCannotProcessSei => 14,
        DeError::ErrorParameterParsing => 15,
        DeError::ErrorNoInitialSliceHeader => 16,
        DeError::ErrorPrematureEndOfSlice => 17,
        DeError::ErrorUnspecifiedDecodingError => 18,
        DeError::ErrorNotImplementedYet => 502,
        DeError::WarningNoWppCannotUseMultithreading => 1000,
        DeError::WarningWarningBufferFull => 1001,
        DeError::WarningPrematureEndOfSliceSegment => 1002,
        DeError::WarningIncorrectEntryPointOffset => 1003,
        DeError::WarningCtbOutsideImageArea => 1004,
        DeError::WarningSpsHeaderInvalid => 1005,
        DeError::WarningPpsHeaderInvalid => 1006,
        DeError::WarningSliceHeaderInvalid => 1007,
        DeError::WarningIncorrectMotionVectorScaling => 1008,
        DeError::WarningNonexistingPpsReferenced => 1009,
        DeError::WarningNonexistingSpsReferenced => 1010,
        DeError::WarningBothPredFlagsZero => 1011,
        DeError::WarningNonexistingReferencePictureAccessed => 1012,
        DeError::WarningNumMvpNotEqualToNumMvq => 1013,
        DeError::WarningNumberOfShortTermRefPicSetsOutOfRange => 1014,
        DeError::WarningShortTermRefPicSetOutOfRange => 1015,
        DeError::WarningFaultyReferencePictureList => 1016,
        DeError::WarningEossBitNotSet => 1017,
        DeError::WarningMaxNumRefPicsExceeded => 1018,
        DeError::WarningInvalidChromaFormat => 1019,
        DeError::WarningSliceSegmentAddressInvalid => 1020,
        DeError::WarningDependentSliceWithAddressZero => 1021,
        DeError::WarningNumberOfThreadsLimitedToMaximum => 1022,
        DeError::WarningNonExistingLtReferenceCandidateInSliceHeader => 1023,
        DeError::WarningCannotApplySaoOutOfMemory => 1024,
        DeError::WarningSpsMissingCannotDecodeSei => 1025,
        DeError::WarningCollocatedMotionVectorOutsideImageArea => 1026,
        DeError::WarningPcmBitDepthTooLarge => 1027,
        DeError::WarningReferenceImageBitDepthDoesNotMatch => 1028,
        DeError::WarningReferenceImageSizeDoesNotMatchSps => 1029,
        DeError::WarningChromaOfCurrentImageDoesNotMatchSps => 1030,
        DeError::WarningBitDepthOfCurrentImageDoesNotMatchSps => 1031,
        DeError::WarningReferenceImageChromaFormatDoesNotMatch => 1032,
        DeError::WarningInvalidSliceHeaderIndexAccess => 1033,
        DeError::Unknown(code) => code,
    }
}

/// Native codes of the closed set of hard errors.
pub open spec fn is_error_code(raw: u32) -> bool {
    raw == 1 || (4 <= raw && raw <= 18) || raw == 502
}

/// Native codes of the closed set of soft warnings.
pub open spec fn is_warning_code(raw: u32) -> bool {
    1000 <= raw && raw <= 1033
}

/// Whether a condition is a soft warning the engine tolerates and
/// continues past, rather than a hard error.
pub open spec fn spec_is_warning(e: DeError) -> bool {
    is_warning_code(error_code(e)) && !(e is Unknown)
}

/// The two conditions designed to be retried by the caller: a saturated
/// picture buffer (drain the output first) and starvation (push more
/// bytes first). Every other condition is terminal for the operation.
pub open spec fn spec_is_retryable(e: DeError) -> bool {
    e is ErrorImageBufferFull || e is ErrorWaitingForInputData
}

/// The condition a native status code maps to: `Ok` for the success
/// code, the matching named condition for every code of the two closed
/// sets, and `Unknown` for everything else.
pub open spec fn status_of(raw: u32) -> Result<(), DeError> {
    if raw == 0 {
        Ok(())
    } else if raw == 1 {
        Err(DeError::ErrorNoSuchFile)
    } else if raw == 4 {
        Err(DeError::ErrorCoefficientOutOfImageBounds)
    } else if raw == 5 {
        Err(DeError::ErrorChecksumMismatch)
    } else if raw == 6 {
        Err(DeError::ErrorCtbOutsideImageArea)
    } else if raw == 7 {
        Err(DeError::ErrorOutOfMemory)
    } else if raw == 8 {
        Err(DeError::ErrorCodedParameterOutOfRange)
    } else if raw == 9 {
        Err(DeError::ErrorImageBufferFull)
    } else if raw == 10 {
        Err(DeError::ErrorCannotStartThreadpool)
    } else if raw == 11 {
        Err(DeError::ErrorLibraryInitializationFailed)
    } else if raw == 12 {
        Err(DeError::ErrorLibraryNotInitialized)
    } else if raw == 13 {
        Err(DeError::ErrorWaitingForInputData)
    } else if raw == 14 {
        Err(DeError::ErrorCannotProcessSei)
    } else if raw == 15 {
        Err(DeError::ErrorParameterParsing)
    } else if raw == 16 {
        Err(DeError::ErrorNoInitialSliceHeader)
    } else if raw == 17 {
        Err(DeError::ErrorPrematureEndOfSlice)
    } else if raw == 18 {
        Err(DeError::ErrorUnspecifiedDecodingError)
    } else if raw == 502 {
        Err(DeError::ErrorNotImplementedYet)
    } else if raw == 1000 {
        Err(DeError::WarningNoWppCannotUseMultithreading)
    } else if raw == 1001 {
        Err(DeError::WarningWarningBufferFull)
    } else if raw == 1002 {
        Err(DeError::WarningPrematureEndOfSliceSegment)
    } else if raw == 1003 {
        Err(DeError::WarningIncorrectEntryPointOffset)
    } else if raw == 1004 {
        Err(DeError::WarningCtbOutsideImageArea)
    } else if raw == 1005 {
        Err(DeError::WarningSpsHeaderInvalid)
    } else if raw == 1006 {
        Err(DeError::WarningPpsHeaderInvalid)
    } else if raw == 1007 {
        Err(DeError::WarningSliceHeaderInvalid)
    } else if raw == 1008 {
        Err(DeError::WarningIncorrectMotionVectorScaling)
    } else if raw == 1009 {
        Err(DeError::WarningNonexistingPpsReferenced)
    } else if raw == 1010 {
        Err(DeError::WarningNonexistingSpsReferenced)
    } else if raw == 1011 {
        Err(DeError::WarningBothPredFlagsZero)
    } else if raw == 1012 {
        Err(DeError::WarningNonexistingReferencePictureAccessed)
    } else if raw == 1013 {
        Err(DeError::WarningNumMvpNotEqualToNumMvq)
    } else if raw == 1014 {
        Err(DeError::WarningNumberOfShortTermRefPicSetsOutOfRange)
    } else if raw == 1015 {
        Err(DeError::WarningShortTermRefPicSetOutOfRange)
    } else if raw == 1016 {
        Err(DeError::WarningFaultyReferencePictureList)
    } else if raw == 1017 {
        Err(DeError::WarningEossBitNotSet)
    } else if raw == 1018 {
        Err(DeError::WarningMaxNumRefPicsExceeded)
    } else if raw == 1019 {
        Err(DeError::WarningInvalidChromaFormat)
    } else if raw == 1020 {
        Err(DeError::WarningSliceSegmentAddressInvalid)
    } else if raw == 1021 {
        Err(DeError::WarningDependentSliceWithAddressZero)
    } else if raw == 1022 {
        Err(DeError::WarningNumberOfThreadsLimitedToMaximum)
    } else if raw == 1023 {
        Err(DeError::WarningNonExistingLtReferenceCandidateInSliceHeader)
    } else if raw == 1024 {
        Err(DeError::WarningCannotApplySaoOutOfMemory)
    } else if raw == 1025 {
        Err(DeError::WarningSpsMissingCannotDecodeSei)
    } else if raw == 1026 {
        Err(DeError::WarningCollocatedMotionVectorOutsideImageArea)
    } else if raw == 1027 {
        Err(DeError::WarningPcmBitDepthTooLarge)
    } else if raw == 1028 {
        Err(DeError::WarningReferenceImageBitDepthDoesNotMatch)
    } else if raw == 1029 {
        Err(DeError::WarningReferenceImageSizeDoesNotMatchSps)
    } else if raw == 1030 {
        Err(DeError::WarningChromaOfCurrentImageDoesNotMatchSps)
    } else if raw == 1031 {
        Err(DeError::WarningBitDepthOfCurrentImageDoesNotMatchSps)
    } else if raw == 1032 {
        Err(DeError::WarningReferenceImageChromaFormatDoesNotMatch)
    } else if raw == 1033 {
        Err(DeError::WarningInvalidSliceHeaderIndexAccess)
    } else {
        Err(DeError::Unknown(raw))
    }
}

impl DeError {
    /// Maps a native status code into the taxonomy: the success code
    /// becomes `Ok`, every other code the named condition it stands for,
    /// and a code outside both closed sets becomes `Unknown`.
    pub fn from_raw(raw: u32) -> (r: Result<(), DeError>)
        ensures
            r == status_of(raw),
            r is Ok <==> raw == 0,
            r matches Err(e) ==> error_code(e) == raw,
            r matches Err(e) ==> (e is Unknown <==> !(is_error_code(raw) || is_warning_code(raw))),
    {
        proof {
            lemma_status_of_inverts_code(raw);
        }
        match raw {
            0 => Ok(()),
            1 => Err(DeError::ErrorNoSuchFile),
            4 => Err(DeError::ErrorCoefficientOutOfImageBounds),
            5 => Err(DeError::ErrorChecksumMismatch),
            6 => Err(DeError::ErrorCtbOutsideImageArea),
            7 => Err(DeError::ErrorOutOfMemory),
            8 => Err(DeError::ErrorCodedParameterOutOfRange),
            9 => Err(DeError::ErrorImageBufferFull),
            10 => Err(DeError::ErrorCannotStartThreadpool),
            11 => Err(DeError::ErrorLibraryInitializationFailed),
            12 => Err(DeError::ErrorLibraryNotInitialized),
            13 => Err(DeError::ErrorWaitingForInputData),
            14 => Err(DeError::ErrorCannotProcessSei),
            15 => Err(DeError::ErrorParameterParsing),
            16 => Err(DeError::ErrorNoInitialSliceHeader),
            17 => Err(DeError::ErrorPrematureEndOfSlice),
            18 => Err(DeError::ErrorUnspecifiedDecodingError),
            502 => Err(DeError::ErrorNotImplementedYet),
            1000 => Err(DeError::WarningNoWppCannotUseMultithreading),
            1001 => Err(DeError::WarningWarningBufferFull),
            1002 => Err(DeError::WarningPrematureEndOfSliceSegment),
            1003 => Err(DeError::WarningIncorrectEntryPointOffset),
            1004 => Err(DeError::WarningCtbOutsideImageArea),
            1005 => Err(DeError::WarningSpsHeaderInvalid),
            1006 => Err(DeError::WarningPpsHeaderInvalid),
            1007 => Err(DeError::WarningSliceHeaderInvalid),
            1008 => Err(DeError::WarningIncorrectMotionVectorScaling),
            1009 => Err(DeError::WarningNonexistingPpsReferenced),
            1010 => Err(DeError::WarningNonexistingSpsReferenced),
            1011 => Err(DeError::WarningBothPredFlagsZero),
            1012 => Err(DeError::WarningNonexistingReferencePictureAccessed),
            1013 => Err(DeError::WarningNumMvpNotEqualToNumMvq),
            1014 => Err(DeError::WarningNumberOfShortTermRefPicSetsOutOfRange),
            1015 => Err(DeError::WarningShortTermRefPicSetOutOfRange),
            1016 => Err(DeError::WarningFaultyReferencePictureList),
            1017 => Err(DeError::WarningEossBitNotSet),
            1018 => Err(DeError::WarningMaxNumRefPicsExceeded),
            1019 => Err(DeError::WarningInvalidChromaFormat),
            1020 => Err(DeError::WarningSliceSegmentAddressInvalid),
            1021 => Err(DeError::WarningDependentSliceWithAddressZero),
            1022 => Err(DeError::WarningNumberOfThreadsLimitedToMaximum),
            1023 => Err(DeError::WarningNonExistingLtReferenceCandidateInSliceHeader),
            1024 => Err(DeError::WarningCannotApplySaoOutOfMemory),
            1025 => Err(DeError::WarningSpsMissingCannotDecodeSei),
            1026 => Err(DeError::WarningCollocatedMotionVectorOutsideImageArea),
            1027 => Err(DeError::WarningPcmBitDepthTooLarge),
            1028 => Err(DeError::WarningReferenceImageBitDepthDoesNotMatch),
            1029 => Err(DeError::WarningReferenceImageSizeDoesNotMatchSps),
            1030 => Err(DeError::WarningChromaOfCurrentImageDoesNotMatchSps),
            1031 => Err(DeError::WarningBitDepthOfCurrentImageDoesNotMatchSps),
            1032 => Err(DeError::WarningReferenceImageChromaFormatDoesNotMatch),
            1033 => Err(DeError::WarningInvalidSliceHeaderIndexAccess),
            unknown => Err(DeError::Unknown(unknown)),
        }
    }

    /// The native status code this condition stands for.
    pub fn code(&self) -> (c: u32)
        ensures
            c == error_code(*self),
    {
        match self {
            DeError::ErrorNoSuchFile => 1,
            DeError::ErrorCoefficientOutOfImageBounds => 4,
            DeError::ErrorChecksumMismatch => 5,
            DeError::ErrorCtbOutsideImageArea => 6,
            DeError::ErrorOutOfMemory => 7,
            DeError::ErrorCodedParameterOutOfRange => 8,
            DeError::ErrorImageBufferFull => 9,
            DeError::ErrorCannotStartThreadpool => 10,
            DeError::ErrorLibraryInitializationFailed => 11,
            DeError::ErrorLibraryNotInitialized => 12,
            DeError::ErrorWaitingForInputData => 13,
            DeError::ErrorCannotProcessSei => 14,
            DeError::ErrorParameterParsing => 15,
            DeError::ErrorNoInitialSliceHeader => 16,
            DeError::ErrorPrematureEndOfSlice => 17,
            DeError::ErrorUnspecifiedDecodingError => 18,
            DeError::ErrorNotImplementedYet => 502,
            DeError::WarningNoWppCannotUseMultithreading => 1000,
            DeError::WarningWarningBufferFull => 1001,
            DeError::WarningPrematureEndOfSliceSegment => 1002,
            DeError::WarningIncorrectEntryPointOffset => 1003,
            DeError::WarningCtbOutsideImageArea => 1004,
            DeError::WarningSpsHeaderInvalid => 1005,
            DeError::WarningPpsHeaderInvalid => 1006,
            DeError::WarningSliceHeaderInvalid => 1007,
            DeError::WarningIncorrectMotionVectorScaling => 1008,
            DeError::WarningNonexistingPpsReferenced => 1009,
            DeError::WarningNonexistingSpsReferenced => 1010,
            DeError::WarningBothPredFlagsZero => 1011,
            DeError::WarningNonexistingReferencePictureAccessed => 1012,
            DeError::WarningNumMvpNotEqualToNumMvq => 1013,
            DeError::WarningNumberOfShortTermRefPicSetsOutOfRange => 1014,
            DeError::WarningShortTermRefPicSetOutOfRange => 1015,
            DeError::WarningFaultyReferencePictureList => 1016,
            DeError::WarningEossBitNotSet => 1017,
            DeError::WarningMaxNumRefPicsExceeded => 1018,
            DeError::WarningInvalidChromaFormat => 1019,
            DeError::WarningSliceSegmentAddressInvalid => 1020,
            DeError::WarningDependentSliceWithAddressZero => 1021,
            DeError::WarningNumberOfThreadsLimitedToMaximum => 1022,
            DeError::WarningNonExistingLtReferenceCandidateInSliceHeader => 1023,
            DeError::WarningCannotApplySaoOutOfMemory => 1024,
            DeError::WarningSpsMissingCannotDecodeSei => 1025,
            DeError::WarningCollocatedMotionVectorOutsideImageArea => 1026,
            DeError::WarningPcmBitDepthTooLarge => 1027,
            DeError::WarningReferenceImageBitDepthDoesNotMatch => 1028,
            DeError::WarningReferenceImageSizeDoesNotMatchSps => 1029,
            DeError::WarningChromaOfCurrentImageDoesNotMatchSps => 1030,
            DeError::WarningBitDepthOfCurrentImageDoesNotMatchSps => 1031,
            DeError::WarningReferenceImageChromaFormatDoesNotMatch => 1032,
            DeError::WarningInvalidSliceHeaderIndexAccess => 1033,
            DeError::Unknown(code) => *code,
        }
    }

    /// Whether this condition is a soft warning rather than a hard error.
    pub fn is_warning(&self) -> (w: bool)
        ensures
            w == spec_is_warning(*self),
    {
        let c = self.code();
        1000 <= c && c <= 1033 && !matches!(self, DeError::Unknown(_))
    }

    /// Whether the caller should retry the failed operation after the
    /// indicated recovery: draining the output for a full picture
    /// buffer, pushing more bytes for starvation.
    pub fn is_retryable(&self) -> (r: bool)
        ensures
            r == spec_is_retryable(*self),
    {
        matches!(self, DeError::ErrorImageBufferFull | DeError::ErrorWaitingForInputData)
    }
}

/// Each named condition maps back, through its native code, to itself:
/// the taxonomy loses nothing of the closed sets.
pub proof fn lemma_code_round_trip(e: DeError)
    requires
        !(e is Unknown),
    ensures
        status_of(error_code(e)) == Err::<(), DeError>(e),
{
}

/// A status code is reported faithfully: a successful mapping happens
/// only for the success code, a mapped condition carries exactly the
/// code it came from, warnings land in the warning set, and `Unknown`
/// appears exactly for codes outside both closed sets.
pub proof fn lemma_status_of_inverts_code(raw: u32)
    ensures
        status_of(raw) is Ok <==> raw == 0,
        status_of(raw) matches Err(e) ==> error_code(e) == raw,
        status_of(raw) matches Err(e) ==> (spec_is_warning(e) <==> is_warning_code(raw)),
        status_of(raw) matches Err(e) ==> (e is Unknown <==> !(is_error_code(raw)
            || is_warning_code(raw))),
{
}

} // verus!
