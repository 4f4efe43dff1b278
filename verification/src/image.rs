use vstd::prelude::*;

use crate::clamp::c_int_to_u8;
use crate::clamp::clamped_u8;
use crate::clamp::nonneg_u32;
use crate::clamp::nonneg_u32_of;

verus! {

/// One colour component of a decoded picture.
#[derive(Debug, Copy, Clone, PartialEq, Eq, Hash, Structural)]
pub enum Channel {
    Y,
    Cb,
    Cr,
}

/// The native plane index of a channel.
pub open spec fn channel_index(c: Channel) -> i32 {
    match c {
        Channel::Y => 0,
        Channel::Cb => 1,
        Channel::Cr => 2,
    }
}

impl Channel {
    /// The native plane index of this channel.
    pub fn index(&self) -> (i: i32)
        ensures
            i == channel_index(*self),
    {
        match self {
            Channel::Y => 0,
            Channel::Cb => 1,
            Channel::Cr => 2,
        }
    }
}

/// The chroma layout of a decoded picture.
#[derive(Debug, Copy, Clone, PartialEq, Eq, Hash, Structural)]
pub enum ChromaFormat {
    Mono,
    C420,
    C422,
    C444,
}

/// The chroma layout a native chroma code stands for, if any.
pub open spec fn chroma_of_code(code: u32) -> Option<ChromaFormat> {
    if code == 0 {
        Some(ChromaFormat::Mono)
    } else if code == 1 {
        Some(ChromaFormat::C420)
    } else if code == 2 {
        Some(ChromaFormat::C422)
    } else if code == 3 {
        Some(ChromaFormat::C444)
    } else {
        None
    }
}

impl ChromaFormat {
    /// Maps a native chroma code to the layout it stands for; a code
    /// outside the closed set yields nothing.
    pub fn from_code(code: u32) -> (r: Option<ChromaFormat>)
        ensures
            r == chroma_of_code(code),
    {
        match code {
            0 => Some(ChromaFormat::Mono),
            1 => Some(ChromaFormat::C420),
            2 => Some(ChromaFormat::C422),
            3 => Some(ChromaFormat::C444),
            _ => None,
        }
    }
}

/// NAL-header metadata of a decoded picture, with every conceptually
/// unsigned field already clamped to its documented range.
#[derive(Debug, Clone, PartialEq, Eq)]
pub struct NalHeader {
    pub unit_type: u8,
    pub unit_name: String,
    pub layer_id: u8,
    pub temporal_id: u8,
}

impl NalHeader {
    /// Builds the header from the raw signed native fields, clamping
    /// each numeric field to the byte range.
    pub fn from_raw(unit_type: i32, unit_name: String, layer_id: i32, temporal_id: i32) -> (h:
        NalHeader)
        ensures
            h.unit_type == clamped_u8(unit_type),
            h.unit_name == unit_name,
            h.layer_id == clamped_u8(layer_id),
            h.temporal_id == clamped_u8(temporal_id),
    {
        NalHeader {
            unit_type: c_int_to_u8(unit_type),
            unit_name,
            layer_id: c_int_to_u8(layer_id),
            temporal_id: c_int_to_u8(temporal_id),
        }
    }
}

/// The byte layout of one plane: its row stride and total buffer length.
#[derive(Debug, Copy, Clone, PartialEq, Eq, Structural)]
pub struct PlaneLayout {
    /// Byte distance between the starts of consecutive rows.
    pub stride: u32,
    /// Total buffer length: stride times the number of rows.
    pub len: u64,
}

/// Computes the byte layout of one plane from what the native layer
/// reports: whether the plane is present, its raw signed stride, and
/// the channel's height in rows. An absent plane (not every chroma
/// format has all channels) yields an empty buffer and zero stride,
/// which is not an error; a present plane has its stride floored at
/// zero and a buffer of stride times height bytes.
pub fn plane_layout(present: bool, raw_stride: i32, height: u32) -> (r: PlaneLayout)
    ensures
        r.stride == if present {
            nonneg_u32_of(raw_stride)
        } else {
            0u32
        },
        r.len == r.stride * height,
{
    if !present {
        PlaneLayout { stride: 0, len: 0 }
    } else {
        let stride: u32 = nonneg_u32(raw_stride);
        proof {
            assert((stride as int) * (height as int) <= 0xffff_ffff * 0xffff_ffff)
                by (nonlinear_arith)
                requires
                    stride <= 0xffff_ffffu32,
                    height <= 0xffff_ffffu32,
            ;
        }
        let total: u64 = (stride as u64) * (height as u64);
        PlaneLayout { stride, len: total }
    }
}

} // verus!
