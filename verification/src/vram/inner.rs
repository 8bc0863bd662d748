//! Frames as they pass between a session and its backend.

use vstd::prelude::*;
use vstd::slice::slice_to_vec;
use crate::common::DataFormat;
use crate::platform::win::texture::Handle;

verus! {

/// One unit of encoder output.
#[derive(Debug, Clone, Default, PartialEq, Eq)]
pub struct EncodeFrame {
    pub data: Vec<u8>,
    pub pts: i64,
    pub key: i32,
}

/// One decoded picture: a texture of the session's pool, lent until the next
/// decode call, and its size.
#[derive(Debug, Clone, Copy, Default, PartialEq, Eq)]
pub struct DecodeFrame {
    pub texture: Handle,
    pub width: i32,
    pub height: i32,
}

/// A format that a backend may be able to encode.
#[derive(Debug, Clone, Copy, PartialEq, Eq, Structural)]
pub struct InnerEncodeContext {
    pub format: DataFormat,
}

/// A format that a backend may be able to decode.
#[derive(Debug, Clone, Copy, PartialEq, Eq, Structural)]
pub struct InnerDecodeContext {
    pub data_format: DataFormat,
}

/// The codec number that a backend is opened with, for a format number:
/// H.264 and H.265 keep theirs, and no other format can be opened.
pub fn backend_codec_id(data_format: i32) -> (codec_id: Option<i32>)
    ensures
        codec_id == (if data_format == 0 || data_format == 1 {
            Some(data_format)
        } else {
            None
        }),
{
    match data_format {
        0 => Some(0),
        1 => Some(1),
        _ => None,
    }
}

/// Takes in one unit of output that a backend hands over during an encode
/// call: a copy of the bytes goes to the end of `frames`.
pub fn hwcodec_encode_frame_callback(data: &[u8], key: i32, frames: &mut Vec<EncodeFrame>, pts: i64)
    ensures
        final(frames)@.len() == old(frames)@.len() + 1,
        final(frames)@.drop_last() == old(frames)@,
        final(frames)@.last().data@ == data@,
        final(frames)@.last().pts == pts,
        final(frames)@.last().key == key,
{
    let frame = EncodeFrame { data: slice_to_vec(data), pts, key };
    frames.push(frame);
    assert(frames@.drop_last() =~= old(frames)@);
}

/// Takes in one picture that a backend hands over during a decode call: it
/// goes to the end of `frames` with the size read from the texture.
pub fn hwcodec_decode_frame_callback(
    texture: Handle,
    width: i32,
    height: i32,
    frames: &mut Vec<DecodeFrame>,
)
    ensures
        final(frames)@ == old(frames)@.push(DecodeFrame { texture, width, height }),
{
    frames.push(DecodeFrame { texture, width, height });
}

/// The status of a driver check: 0 for a driver that is there, -1 else.
pub fn driver_status(available: bool) -> (status: i32)
    ensures
        status == (if available {
            0int
        } else {
            -1int
        }),
{
    if available {
        0
    } else {
        -1
    }
}

/// The formats that a backend could plausibly handle: H.264 and H.265 where
/// its driver is there (status 0) and the backend is implemented, none else.
pub open spec fn plausible_formats(driver_status: i32, implemented: bool) -> Seq<DataFormat> {
    if driver_status == 0 && implemented {
        seq![DataFormat::H264, DataFormat::H265]
    } else {
        Seq::empty()
    }
}

} // verus!
