use vstd::prelude::*;

verus! {

/// A signed native field clamped to the byte range: never allowed to
/// wrap negative, never above 255.
pub open spec fn clamped_u8(v: i32) -> u8 {
    if v < 0 {
        0u8
    } else if v > 255 {
        255u8
    } else {
        v as u8
    }
}

/// Clamps a signed native field to the byte range.
pub fn c_int_to_u8(v: i32) -> (r: u8)
    ensures
        r == clamped_u8(v),
{
    if v < 0 {
        0
    } else if v > 255 {
        255
    } else {
        v as u8
    }
}

/// A signed native field that is conceptually unsigned, floored at
/// zero.
pub open spec fn nonneg_u32_of(v: i32) -> u32 {
    if v < 0 {
        0u32
    } else {
        v as u32
    }
}

/// Floors a signed native field at zero, as an unsigned value.
pub fn nonneg_u32(v: i32) -> (r: u32)
    ensures
        r == nonneg_u32_of(v),
{
    if v < 0 {
        0
    } else {
        v as u32
    }
}

/// Floors a signed native count at zero, as a size.
pub fn nonneg_usize(v: i32) -> (r: usize)
    ensures
        r == nonneg_u32_of(v) as usize,
{
    if v < 0 {
        0
    } else {
        v as usize
    }
}

/// An unsigned caller value capped at the largest signed native value.
pub open spec fn capped_i32_of(v: u32) -> i32 {
    if v > 0x7fff_ffff {
        0x7fff_ffffi32
    } else {
        v as i32
    }
}

/// Caps an unsigned caller value so it fits the signed native argument.
pub fn u32_to_c_int(v: u32) -> (r: i32)
    ensures
        r == capped_i32_of(v),
        r >= 0,
{
    if v > 0x7fff_ffff {
        0x7fff_ffff
    } else {
        v as i32
    }
}

/// A frame-rate step confined to one of down, keep, up.
pub open spec fn clamped_step_of(v: i8) -> i32 {
    if v < -1 {
        -1i32
    } else if v > 1 {
        1i32
    } else {
        v as i32
    }
}

/// Confines a frame-rate step to one of down (-1), keep (0), up (1).
pub fn clamp_step(v: i8) -> (r: i32)
    ensures
        r == clamped_step_of(v),
        -1 <= r <= 1,
{
    if v < -1 {
        -1
    } else if v > 1 {
        1
    } else {
        v as i32
    }
}

/// Encodes a flag as the native layer expects it: one for true, zero
/// for false.
pub fn bool_to_c_int(v: bool) -> (r: i32)
    ensures
        v ==> r == 1,
        !v ==> r == 0,
{
    if v {
        1
    } else {
        0
    }
}

/// Decodes a native flag: anything nonzero is true.
pub fn c_int_to_bool(v: i32) -> (r: bool)
    ensures
        r == (v != 0),
{
    v != 0
}

} // verus!
