//! Encoding: the session's own bookkeeping, and the discovery of the
//! configurations that can encode.

use vstd::prelude::*;
use crate::common::{DataFormat, Driver};
use crate::platform::win::texture::Handle;
use crate::vram::inner::{EncodeFrame, InnerEncodeContext};
use crate::vram::probe::{all_candidates, Discovery, DiscoveryState, ProbeKind, ProbeRequest};
use crate::vram::{DynamicContext, EncodeContext, FeatureContext};

verus! {

/// What an encoder backend is created with. `device` is 0 where the caller
/// supplied none, and the backend makes its own.
#[derive(Debug, Clone, Copy, PartialEq, Eq)]
pub struct EncoderRequest {
    pub driver: Driver,
    pub device: Handle,
    pub luid: i64,
    pub codec_id: i32,
    pub width: i32,
    pub height: i32,
    pub bitrate: i32,
    pub framerate: i32,
    pub gop: i32,
}

/// Whether a frame size can be encoded: neither side is a positive odd
/// number. The chroma planes have half the size in each direction.
pub open spec fn encodable_size(width: i32, height: i32) -> bool {
    !(width > 0 && width % 2 == 1) && !(height > 0 && height % 2 == 1)
}

/// An encode session's own state: the context it was opened with and the
/// output of the latest encode call, in `frames`.
#[derive(Debug, Clone, PartialEq, Eq)]
pub struct Encoder {
    pub frames: Vec<EncodeFrame>,
    pub ctx: EncodeContext,
}

impl Encoder {
    /// Opens the session's bookkeeping for a context. A context with an odd
    /// width or height is refused.
    pub fn new(ctx: EncodeContext) -> (r: Result<Encoder, ()>)
        ensures
            encodable_size(ctx.d.width, ctx.d.height) <==> r is Ok,
            r is Ok ==> r->Ok_0.ctx == ctx && r->Ok_0.frames@ == Seq::<EncodeFrame>::empty(),
    {
        if (ctx.d.width > 0 && ctx.d.width % 2 == 1) || (ctx.d.height > 0 && ctx.d.height % 2 == 1) {
            return Err(());
        }
        Ok(Encoder { frames: Vec::new(), ctx })
    }

    /// What the session's backend is to be created with: the backend family
    /// of the context, on the caller's device if there is one, for the
    /// context's adapter, format and stream parameters.
    pub fn backend_request(&self) -> (request: EncoderRequest)
        ensures
            request == (EncoderRequest {
                driver: self.ctx.f.driver,
                device: match self.ctx.d.device {
                    Some(device) => device,
                    None => 0,
                },
                luid: self.ctx.f.luid,
                codec_id: self.ctx.f.data_format.code() as i32,
                width: self.ctx.d.width,
                height: self.ctx.d.height,
                bitrate: self.ctx.d.kbitrate,
                framerate: self.ctx.d.framerate,
                gop: self.ctx.d.gop,
            }),
    {
        EncoderRequest {
            driver: self.ctx.f.driver,
            device: match self.ctx.d.device {
                Some(device) => device,
                None => 0,
            },
            luid: self.ctx.f.luid,
            codec_id: self.ctx.f.data_format.to_i32(),
            width: self.ctx.d.width,
            height: self.ctx.d.height,
            bitrate: self.ctx.d.kbitrate,
            framerate: self.ctx.d.framerate,
            gop: self.ctx.d.gop,
        }
    }

    /// Takes in one encode call of the backend: the frames it put out
    /// replace those of the call before, and its status decides the result,
    /// 0 for success and anything else for the error it is.
    pub fn encode(&mut self, produced: Vec<EncodeFrame>, status: i32) -> (r: Result<
        &Vec<EncodeFrame>,
        i32,
    >)
        ensures
            final(self).frames@ == produced@,
            final(self).ctx == old(self).ctx,
            status == 0 ==> r is Ok && r->Ok_0@ == produced@,
            status != 0 ==> r == Err::<&Vec<EncodeFrame>, i32>(status),
    {
        self.frames = produced;
        if status != 0 {
            Err(status)
        } else {
            Ok(&self.frames)
        }
    }
}

/// The formats of a backend's list, in the list's order.
pub open spec fn encode_formats(list: Seq<InnerEncodeContext>) -> Seq<DataFormat> {
    Seq::new(list.len(), |i: int| list[i].format)
}

fn formats_of(list: &Vec<InnerEncodeContext>) -> (formats: Vec<DataFormat>)
    ensures
        formats@ == encode_formats(list@),
{
    let mut formats: Vec<DataFormat> = Vec::new();
    let mut i: usize = 0;
    while i < list.len()
        invariant
            i <= list@.len(),
            formats@.len() == i,
            forall|j: int| 0 <= j < i ==> formats@[j] == list@[j].format,
        decreases list.len() - i,
    {
        formats.push(list[i].format);
        i += 1;
    }
    assert(formats@ =~= encode_formats(list@));
    formats
}

/// Begins the discovery of encoders, for the formats that each backend
/// could plausibly encode.
pub fn discovery(
    nv: &Vec<InnerEncodeContext>,
    amf: &Vec<InnerEncodeContext>,
    mfx: &Vec<InnerEncodeContext>,
) -> (run: Discovery)
    ensures
        run.wf(),
        run@ == DiscoveryState::initial(
            ProbeKind::Encode,
            all_candidates(encode_formats(nv@), encode_formats(amf@), encode_formats(mfx@)),
        ),
{
    let nv_formats = formats_of(nv);
    let amf_formats = formats_of(amf);
    let mfx_formats = formats_of(mfx);
    Discovery::new(ProbeKind::Encode, &nv_formats, &amf_formats, &mfx_formats)
}

/// The context that a request probes with: the backend and format of the
/// request, the stream parameters that discovery was asked for, and no
/// adapter bound yet (LUID 0, vendor as the backend).
pub fn test_context(request: &ProbeRequest, d: DynamicContext) -> (ctx: EncodeContext)
    ensures
        ctx == (EncodeContext {
            f: FeatureContext {
                driver: request.driver,
                vendor: request.driver,
                luid: 0,
                data_format: request.data_format,
            },
            d,
        }),
{
    EncodeContext {
        f: FeatureContext {
            driver: request.driver,
            vendor: request.driver,
            luid: 0,
            data_format: request.data_format,
        },
        d,
    }
}

/// Ends the discovery of encoders: the configurations that can encode, in
/// the order in which the probes reported them.
pub fn available(run: Discovery) -> (found: Vec<FeatureContext>)
    ensures
        found@ == run@.outputs,
{
    run.finish()
}

} // verus!
