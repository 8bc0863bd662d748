//! The hardware video processor: what it is configured with, when it has to
//! be rebuilt, and the blit that one conversion asks of it.

use vstd::prelude::*;
use crate::platform::win::error::WinPlatformError;

verus! {

pub const D3D11_VIDEO_FRAME_FORMAT_PROGRESSIVE: i32 = 0;

pub const D3D11_VIDEO_USAGE_PLAYBACK_NORMAL: i32 = 0;

pub const D3D11_VPIV_DIMENSION_TEXTURE2D: i32 = 1;

pub const D3D11_VPOV_DIMENSION_TEXTURE2D: i32 = 1;

/// Marks the video-processor path; the work itself is driven by the device
/// manager.
#[derive(Debug, Clone, Copy, Default)]
pub struct VideoProcessor;

/// A frame rate as a fraction.
#[derive(Debug, Clone, Copy, PartialEq, Eq, Structural)]
pub struct Rational {
    pub numerator: u32,
    pub denominator: u32,
}

/// What a video processor is created for.
#[derive(Debug, Clone, Copy, PartialEq, Eq, Structural)]
pub struct ContentDesc {
    pub input_frame_format: i32,
    pub input_frame_rate: Rational,
    pub input_width: u32,
    pub input_height: u32,
    pub output_frame_rate: Rational,
    pub output_width: u32,
    pub output_height: u32,
    pub usage: i32,
}

impl ContentDesc {
    /// Whether a processor built for `self` also serves `other`: frame format
    /// and the four dimensions agree. Frame rates and usage do not count.
    pub open spec fn same_shape(self, other: ContentDesc) -> bool {
        &&& self.input_frame_format == other.input_frame_format
        &&& self.input_width == other.input_width
        &&& self.input_height == other.input_height
        &&& self.output_width == other.output_width
        &&& self.output_height == other.output_height
    }

    /// The description of a same-size colour conversion: progressive frames
    /// at 30 per second in and out, `width` by `height`, normal playback.
    pub open spec fn conversion(width: u32, height: u32) -> ContentDesc {
        ContentDesc {
            input_frame_format: D3D11_VIDEO_FRAME_FORMAT_PROGRESSIVE,
            input_frame_rate: Rational { numerator: 30, denominator: 1 },
            input_width: width,
            input_height: height,
            output_frame_rate: Rational { numerator: 30, denominator: 1 },
            output_width: width,
            output_height: height,
            usage: D3D11_VIDEO_USAGE_PLAYBACK_NORMAL,
        }
    }

    /// Decides `same_shape`.
    pub fn has_same_shape(&self, other: &ContentDesc) -> (same: bool)
        ensures
            same == self.same_shape(*other),
    {
        self.input_frame_format == other.input_frame_format && self.input_width
            == other.input_width && self.input_height == other.input_height && self.output_width
            == other.output_width && self.output_height == other.output_height
    }

    /// Builds `conversion(width, height)`.
    pub fn new_conversion(width: u32, height: u32) -> (desc: ContentDesc)
        ensures
            desc == Self::conversion(width, height),
    {
        ContentDesc {
            input_frame_format: D3D11_VIDEO_FRAME_FORMAT_PROGRESSIVE,
            input_frame_rate: Rational { numerator: 30, denominator: 1 },
            input_width: width,
            input_height: height,
            output_frame_rate: Rational { numerator: 30, denominator: 1 },
            output_width: width,
            output_height: height,
            usage: D3D11_VIDEO_USAGE_PLAYBACK_NORMAL,
        }
    }
}

/// The processor objects that the manager keeps between calls: the content
/// description they were last asked for, and which of them exist.
///
/// `last_content_desc` is set as soon as a rebuild is decided, before either
/// object exists, so after a failed build it names what the next build is for.
#[derive(Debug, Clone, Copy, PartialEq, Eq)]
pub struct ProcessorCache {
    pub last_content_desc: Option<ContentDesc>,
    pub enumerator: bool,
    pub processor: bool,
}

impl ProcessorCache {
    /// Whether the kept objects cannot serve `desc`: nothing was asked for
    /// yet, or something of another shape.
    pub open spec fn stale_for(self, desc: ContentDesc) -> bool {
        match self.last_content_desc {
            None => true,
            Some(last) => !last.same_shape(desc),
        }
    }

    /// The cache once a call for `desc` has looked at it: emptied and renamed
    /// if stale, untouched otherwise.
    pub open spec fn prepared_for(self, desc: ContentDesc) -> ProcessorCache {
        if self.stale_for(desc) {
            ProcessorCache { last_content_desc: Some(desc), enumerator: false, processor: false }
        } else {
            self
        }
    }

    /// An empty cache.
    pub fn new() -> (cache: ProcessorCache)
        ensures
            cache == (ProcessorCache {
                last_content_desc: None,
                enumerator: false,
                processor: false,
            }),
    {
        ProcessorCache { last_content_desc: None, enumerator: false, processor: false }
    }

    /// Looks at the cache on behalf of a call for `desc` and drops what is
    /// stale.
    pub fn prepare(&mut self, desc: ContentDesc)
        ensures
            *final(self) == old(self).prepared_for(desc),
    {
        let stale = match &self.last_content_desc {
            None => true,
            Some(last) => !last.has_same_shape(&desc),
        };
        if stale {
            self.enumerator = false;
            self.processor = false;
            self.last_content_desc = Some(desc);
        }
    }
}

/// A rectangle in pixels.
#[derive(Debug, Clone, Copy, PartialEq, Eq, Structural)]
pub struct Rect {
    pub left: i32,
    pub top: i32,
    pub right: i32,
    pub bottom: i32,
}

/// The view through which the processor reads its input texture.
#[derive(Debug, Clone, Copy, PartialEq, Eq, Structural)]
pub struct InputViewDesc {
    pub four_cc: u32,
    pub view_dimension: i32,
    pub mip_slice: u32,
    pub array_slice: u32,
}

/// The view through which the processor writes its output texture.
#[derive(Debug, Clone, Copy, PartialEq, Eq, Structural)]
pub struct OutputViewDesc {
    pub view_dimension: i32,
    pub mip_slice: u32,
}

/// The one input stream of a blit.
#[derive(Debug, Clone, Copy, PartialEq, Eq, Structural)]
pub struct StreamDesc {
    pub enable: bool,
    pub output_index: u32,
    pub input_frame_or_field: u32,
    pub past_frames: u32,
    pub future_frames: u32,
}

/// Everything one `process` call asks of the platform, in the order in which
/// it is to be done.
#[derive(Debug, Clone, Copy, PartialEq, Eq)]
pub struct ProcessPlan {
    /// Create the processor enumerator from `content_desc` first.
    pub create_enumerator: bool,
    /// Then create processor 0 of the enumerator, and set its stream 0 to
    /// `auto_processing` and `frame_format`.
    pub create_processor: bool,
    pub content_desc: ContentDesc,
    pub auto_processing: bool,
    pub frame_format: i32,
    pub color_space_in: i32,
    pub color_space_out: i32,
    pub source_rect: Rect,
    pub dest_rect: Rect,
    pub input_view: InputViewDesc,
    pub output_view: OutputViewDesc,
    pub stream: StreamDesc,
}

/// A `u32` read as the `i32` with the same 32 bits.
pub open spec fn reinterpret_i32(x: u32) -> int {
    if x <= 0x7fff_ffff {
        x as int
    } else {
        x - 0x1_0000_0000
    }
}

/// Computes `reinterpret_i32`.
pub fn to_i32_bits(x: u32) -> (r: i32)
    ensures
        r == reinterpret_i32(x),
{
    if x <= 0x7fff_ffff {
        x as i32
    } else {
        ((x - 0x8000_0000) as i32) + i32::MIN
    }
}

/// The plan of a `process` call that finds the cache as `cache` (already
/// prepared for `content_desc`).
pub open spec fn process_plan(
    cache: ProcessorCache,
    width: u32,
    height: u32,
    content_desc: ContentDesc,
    color_space_in: i32,
    color_space_out: i32,
    array_slice: u32,
) -> ProcessPlan {
    let rect = Rect {
        left: 0,
        top: 0,
        right: reinterpret_i32(width) as i32,
        bottom: reinterpret_i32(height) as i32,
    };
    ProcessPlan {
        create_enumerator: !cache.enumerator,
        create_processor: !cache.processor,
        content_desc,
        auto_processing: false,
        frame_format: D3D11_VIDEO_FRAME_FORMAT_PROGRESSIVE,
        color_space_in,
        color_space_out,
        source_rect: rect,
        dest_rect: rect,
        input_view: InputViewDesc {
            four_cc: 0,
            view_dimension: D3D11_VPIV_DIMENSION_TEXTURE2D,
            mip_slice: 0,
            array_slice,
        },
        output_view: OutputViewDesc { view_dimension: D3D11_VPOV_DIMENSION_TEXTURE2D, mip_slice: 0 },
        stream: StreamDesc {
            enable: true,
            output_index: 0,
            input_frame_or_field: 0,
            past_frames: 0,
            future_frames: 0,
        },
    }
}

/// The steps of a `process` call that can fail, in order.
#[derive(Debug, Clone, Copy, PartialEq, Eq, Structural)]
pub enum ProcessStage {
    Enumerator,
    Processor,
    InputView,
    OutputView,
    Blit,
}

/// How the platform fared with a plan: all of it done, or the first step
/// that failed with its `HRESULT`.
#[derive(Debug, Clone, Copy, PartialEq, Eq, Structural)]
pub enum ProcessOutcome {
    Completed,
    Failed { stage: ProcessStage, hresult: i32 },
}

impl ProcessOutcome {
    /// Whether the enumerator exists after this outcome of a plan that was to
    /// create it.
    pub open spec fn enumerator_built(self) -> bool {
        match self {
            ProcessOutcome::Completed => true,
            ProcessOutcome::Failed { stage, .. } => stage != ProcessStage::Enumerator,
        }
    }

    /// Whether the processor exists after this outcome of a plan that was to
    /// create it.
    pub open spec fn processor_built(self) -> bool {
        match self {
            ProcessOutcome::Completed => true,
            ProcessOutcome::Failed { stage, .. } => stage != ProcessStage::Enumerator && stage
                != ProcessStage::Processor,
        }
    }

    /// What the `process` call returns.
    pub open spec fn result(self) -> Result<(), WinPlatformError> {
        match self {
            ProcessOutcome::Completed => Ok(()),
            ProcessOutcome::Failed { hresult, .. } => Err(
                WinPlatformError::DeviceCreationFailed(hresult),
            ),
        }
    }
}

impl ProcessorCache {
    /// The cache after the platform has worked through a plan: what was built
    /// stays, the description is untouched.
    pub open spec fn after(self, outcome: ProcessOutcome) -> ProcessorCache {
        ProcessorCache {
            last_content_desc: self.last_content_desc,
            enumerator: self.enumerator || outcome.enumerator_built(),
            processor: self.processor || outcome.processor_built(),
        }
    }

    /// Records what the platform built.
    pub fn record(&mut self, outcome: ProcessOutcome)
        ensures
            *final(self) == old(self).after(outcome),
    {
        match outcome {
            ProcessOutcome::Completed => {
                self.enumerator = true;
                self.processor = true;
            },
            ProcessOutcome::Failed { stage, hresult: _ } => {
                match stage {
                    ProcessStage::Enumerator => {},
                    ProcessStage::Processor => {
                        self.enumerator = true;
                    },
                    _ => {
                        self.enumerator = true;
                        self.processor = true;
                    },
                }
            },
        }
    }
}

} // verus!
