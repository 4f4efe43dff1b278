use vstd::prelude::*;

verus! {

/// Native parameter code under which the acceleration tier is set.
pub const ACCELERATION_PARAM_CODE: u32 = 5;

/// Integer decoding parameters: header-dump toggles, each taking a file
/// descriptor as its value.
#[derive(Debug, Copy, Clone, PartialEq, Eq, Structural)]
#[non_exhaustive]
pub enum ParamI32 {
    /// Dump SPS headers to a specified file-descriptor.
    DumpSpsHeaders,
    /// Dump VPS headers to a specified file-descriptor.
    DumpVpsHeaders,
    /// Dump PPS headers to a specified file-descriptor.
    DumpPpsHeaders,
    /// Dump Slice headers to a specified file-descriptor.
    DumpSliceHeaders,
}

/// The native parameter code an integer parameter stands for.
pub open spec fn param_i32_code(p: ParamI32) -> u32 {
    match p {
        ParamI32::DumpSpsHeaders => 1,
        ParamI32::DumpVpsHeaders => 2,
        ParamI32::DumpPpsHeaders => 3,
        ParamI32::DumpSliceHeaders => 4,
    }
}

impl ParamI32 {
    /// The native parameter code this parameter stands for.
    pub fn code(&self) -> (c: u32)
        ensures
            c == param_i32_code(*self),
    {
        match self {
            ParamI32::DumpSpsHeaders => 1,
            ParamI32::DumpVpsHeaders => 2,
            ParamI32::DumpPpsHeaders => 3,
            ParamI32::DumpSliceHeaders => 4,
        }
    }
}

/// Boolean decoding parameters.
#[derive(Debug, Copy, Clone, PartialEq, Eq, Structural)]
#[non_exhaustive]
pub enum ParamBool {
    /// Perform SEI hash check on decoded pictures.
    SeiCheckHash,
    /// Do not output frames with decoding errors, default: `false` (output all images)
    SuppressFaultyPictures,
    /// Disable deblocking
    DisableDeblocking,
    /// Disable SAO filter
    DisableSAO,
}

/// The native parameter code a boolean parameter stands for.
pub open spec fn param_bool_code(p: ParamBool) -> u32 {
    match p {
        ParamBool::SeiCheckHash => 0,
        ParamBool::SuppressFaultyPictures => 6,
        ParamBool::DisableDeblocking => 7,
        ParamBool::DisableSAO => 8,
    }
}

impl ParamBool {
    /// The native parameter code this parameter stands for.
    pub fn code(&self) -> (c: u32)
        ensures
            c == param_bool_code(*self),
    {
        match self {
            ParamBool::SeiCheckHash => 0,
            ParamBool::SuppressFaultyPictures => 6,
            ParamBool::DisableDeblocking => 7,
            ParamBool::DisableSAO => 8,
        }
    }
}

/// Acceleration tiers, sorted such that a large code includes all
/// optimizations of the lower codes.
#[derive(Debug, Copy, Clone, PartialEq, Eq, Structural)]
#[non_exhaustive]
pub enum Acceleration {
    /// only fallback implementation
    Scalar,
    MMS,
    SSE,
    SSE2,
    SSE4,
    /// not implemented yet
    AVX,
    /// not implemented yet
    AVX2,
    ARM,
    NEON,
    Auto,
}

/// The native code an acceleration tier stands for.
pub open spec fn acceleration_code(a: Acceleration) -> u32 {
    match a {
        Acceleration::Scalar => 0,
        Acceleration::MMS => 10,
        Acceleration::SSE => 20,
        Acceleration::SSE2 => 30,
        Acceleration::SSE4 => 40,
        Acceleration::AVX => 50,
        Acceleration::AVX2 => 60,
        Acceleration::ARM => 70,
        Acceleration::NEON => 80,
        Acceleration::Auto => 10000,
    }
}

/// The position of an acceleration tier in the inclusion order, lowest
/// tier first, the automatic mode last.
pub open spec fn acceleration_rank(a: Acceleration) -> int {
    match a {
        Acceleration::Scalar => 0,
        Acceleration::MMS => 1,
        Acceleration::SSE => 2,
        Acceleration::SSE2 => 3,
        Acceleration::SSE4 => 4,
        Acceleration::AVX => 5,
        Acceleration::AVX2 => 6,
        Acceleration::ARM => 7,
        Acceleration::NEON => 8,
        Acceleration::Auto => 9,
    }
}

impl Acceleration {
    /// The native code this acceleration tier stands for.
    pub fn code(&self) -> (c: u32)
        ensures
            c == acceleration_code(*self),
    {
        match self {
            Acceleration::Scalar => 0,
            Acceleration::MMS => 10,
            Acceleration::SSE => 20,
            Acceleration::SSE2 => 30,
            Acceleration::SSE4 => 40,
            Acceleration::AVX => 50,
            Acceleration::AVX2 => 60,
            Acceleration::ARM => 70,
            Acceleration::NEON => 80,
            Acceleration::Auto => 10000,
        }
    }
}

/// The native codes respect the inclusion order of the tiers: a tier
/// that includes more optimizations carries a strictly larger code.
pub proof fn lemma_acceleration_codes_ordered(a: Acceleration, b: Acceleration)
    requires
        acceleration_rank(a) < acceleration_rank(b),
    ensures
        acceleration_code(a) < acceleration_code(b),
{
}

} // verus!
