//! Decoding: the session's own bookkeeping, and the discovery of the
//! configurations that can decode.

use vstd::prelude::*;
use crate::common::{DataFormat, Driver};
use crate::platform::win::texture::Handle;
use crate::vram::inner::{DecodeFrame, InnerDecodeContext};
use crate::vram::probe::{all_candidates, Discovery, DiscoveryState, ProbeKind};
use crate::vram::{DecodeContext, FeatureContext};

verus! {

/// What a decoder backend is created with. `device` is 0 where the caller
/// supplied none, and the backend makes its own.
#[derive(Debug, Clone, Copy, PartialEq, Eq)]
pub struct DecoderRequest {
    pub driver: Driver,
    pub device: Handle,
    pub luid: i64,
    pub codec_id: i32,
}

/// A sample clip that comes with the library, to probe decoders with.
#[derive(Debug, Clone, Copy, PartialEq, Eq, Structural)]
pub enum SampleClip {
    /// 720p, H.264.
    H264_720P,
    /// 720p, H.265.
    H265_720P,
}

/// The sample clip for a format; there is one for H.264 and one for H.265.
pub fn sample_clip(data_format: DataFormat) -> (clip: Option<SampleClip>)
    ensures
        clip == (match data_format {
            DataFormat::H264 => Some(SampleClip::H264_720P),
            DataFormat::H265 => Some(SampleClip::H265_720P),
            _ => None,
        }),
{
    match data_format {
        DataFormat::H264 => Some(SampleClip::H264_720P),
        DataFormat::H265 => Some(SampleClip::H265_720P),
        _ => None,
    }
}

/// A decode session's own state: the context it was opened with and the
/// output of the latest decode call, in `frames`.
#[derive(Debug, Clone, PartialEq, Eq)]
pub struct Decoder {
    pub frames: Vec<DecodeFrame>,
    pub ctx: DecodeContext,
}

impl Decoder {
    /// Opens the session's bookkeeping for a context.
    pub fn new(ctx: DecodeContext) -> (decoder: Decoder)
        ensures
            decoder.ctx == ctx,
            decoder.frames@ == Seq::<DecodeFrame>::empty(),
    {
        Decoder { frames: Vec::new(), ctx }
    }

    /// What the session's backend is to be created with.
    pub fn backend_request(&self) -> (request: DecoderRequest)
        ensures
            request == (DecoderRequest {
                driver: self.ctx.driver,
                device: match self.ctx.device {
                    Some(device) => device,
                    None => 0,
                },
                luid: self.ctx.luid,
                codec_id: self.ctx.data_format.code() as i32,
            }),
    {
        DecoderRequest {
            driver: self.ctx.driver,
            device: match self.ctx.device {
                Some(device) => device,
                None => 0,
            },
            luid: self.ctx.luid,
            codec_id: self.ctx.data_format.to_i32(),
        }
    }

    /// Takes in one decode call of the backend: the pictures it put out
    /// replace those of the call before, and its status decides the result,
    /// 0 for success and anything else for the error it is.
    pub fn decode(&mut self, produced: Vec<DecodeFrame>, status: i32) -> (r: Result<
        &Vec<DecodeFrame>,
        i32,
    >)
        ensures
            final(self).frames@ == produced@,
            final(self).ctx == old(self).ctx,
            status == 0 ==> r is Ok && r->Ok_0@ == produced@,
            status != 0 ==> r == Err::<&Vec<DecodeFrame>, i32>(status),
    {
        self.frames = produced;
        if status != 0 {
            Err(status)
        } else {
            Ok(&self.frames)
        }
    }
}

/// The formats of a backend's list, in the list's order.
pub open spec fn decode_formats(list: Seq<InnerDecodeContext>) -> Seq<DataFormat> {
    Seq::new(list.len(), |i: int| list[i].data_format)
}

fn formats_of(list: &Vec<InnerDecodeContext>) -> (formats: Vec<DataFormat>)
    ensures
        formats@ == decode_formats(list@),
{
    let mut formats: Vec<DataFormat> = Vec::new();
    let mut i: usize = 0;
    while i < list.len()
        invariant
            i <= list@.len(),
            formats@.len() == i,
            forall|j: int| 0 <= j < i ==> formats@[j] == list@[j].data_format,
        decreases list.len() - i,
    {
        formats.push(list[i].data_format);
        i += 1;
    }
    assert(formats@ =~= decode_formats(list@));
    formats
}

/// Begins the discovery of decoders, for the formats that each backend
/// could plausibly decode. Formats without a sample clip are passed over.
pub fn discovery(
    nv: &Vec<InnerDecodeContext>,
    amf: &Vec<InnerDecodeContext>,
    mfx: &Vec<InnerDecodeContext>,
) -> (run: Discovery)
    ensures
        run.wf(),
        run@ == DiscoveryState::initial(
            ProbeKind::Decode,
            all_candidates(decode_formats(nv@), decode_formats(amf@), decode_formats(mfx@)),
        ),
{
    let nv_formats = formats_of(nv);
    let amf_formats = formats_of(amf);
    let mfx_formats = formats_of(mfx);
    Discovery::new(ProbeKind::Decode, &nv_formats, &amf_formats, &mfx_formats)
}

/// The decode context of a configuration found, with no device bound.
pub open spec fn decode_context(found: FeatureContext) -> DecodeContext {
    DecodeContext {
        device: None,
        driver: found.driver,
        vendor: found.vendor,
        luid: found.luid,
        data_format: found.data_format,
    }
}

/// Ends the discovery of decoders: the configurations that can decode, in
/// the order in which the probes reported them, none with a device bound.
pub fn available(run: Discovery) -> (found: Vec<DecodeContext>)
    ensures
        found@.len() == run@.outputs.len(),
        forall|i: int| 0 <= i < found@.len() ==> found@[i] == decode_context(run@.outputs[i]),
{
    let outputs = run.finish();
    let mut found: Vec<DecodeContext> = Vec::new();
    let mut i: usize = 0;
    while i < outputs.len()
        invariant
            i <= outputs@.len(),
            found@.len() == i,
            forall|j: int| 0 <= j < i ==> found@[j] == decode_context(outputs@[j]),
        decreases outputs.len() - i,
    {
        let f = outputs[i];
        found.push(
            DecodeContext {
                device: None,
                driver: f.driver,
                vendor: f.vendor,
                luid: f.luid,
                data_format: f.data_format,
            },
        );
        i += 1;
    }
    found
}

} // verus!
