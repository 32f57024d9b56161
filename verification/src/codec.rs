//! The video codecs the streamer negotiates, and their stable wire ids in
//! the C ABI.

use vstd::prelude::*;

verus! {

/// A negotiated video codec.
#[derive(Clone, Copy, PartialEq, Eq, Structural, Debug)]
pub enum NanvrCodecType {
    H264,
    Hevc,
    AV1,
}

/// The C-ABI id of each codec.
pub open spec fn codec_id(codec: NanvrCodecType) -> u8 {
    match codec {
        NanvrCodecType::H264 => 0,
        NanvrCodecType::Hevc => 1,
        NanvrCodecType::AV1 => 2,
    }
}

/// The stable id under which `codec` crosses the C ABI.
pub fn codec_wire_id(codec: NanvrCodecType) -> (r: u8)
    ensures
        r == codec_id(codec),
{
    match codec {
        NanvrCodecType::H264 => 0,
        NanvrCodecType::Hevc => 1,
        NanvrCodecType::AV1 => 2,
    }
}

/// The codec behind a wire id, when the id is a known one; inverse of
/// `codec_wire_id`.
pub fn codec_from_wire_id(id: u8) -> (r: Option<NanvrCodecType>)
    ensures
        match r {
            Option::Some(codec) => codec_id(codec) == id,
            Option::None => id > 2,
        },
{
    match id {
        0 => Option::Some(NanvrCodecType::H264),
        1 => Option::Some(NanvrCodecType::Hevc),
        2 => Option::Some(NanvrCodecType::AV1),
        _ => Option::None,
    }
}

} // verus!
