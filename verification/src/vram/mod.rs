//! Codec sessions on textures in video memory: the descriptors of usable
//! configurations, and the discovery that finds them.

pub mod amf;
pub mod decode;
pub mod encode;
pub mod inner;
pub mod mfx;
pub mod nv;
pub mod probe;
pub mod walk;

use vstd::prelude::*;
use crate::common::{DataFormat, Driver};
use crate::platform::win::texture::Handle;

verus! {

/// How many adapters one probe of a backend may report.
pub const MAX_ADATERS: usize = 16;

/// One usable backend configuration: a driver family on one adapter for one
/// format.
///
/// `vendor` is the tag under which the probe reported the adapter. It may
/// differ from `driver`, the family whose probe found it.
#[derive(Debug, Clone, Copy, PartialEq, Eq, Structural)]
pub struct FeatureContext {
    pub driver: Driver,
    pub vendor: Driver,
    pub luid: i64,
    pub data_format: DataFormat,
}

/// The parameters of an encode session that may change from session to
/// session. `device` is a device of the caller's to encode on, if any.
#[derive(Debug, Clone, Copy, PartialEq, Eq)]
pub struct DynamicContext {
    pub device: Option<Handle>,
    pub width: i32,
    pub height: i32,
    pub kbitrate: i32,
    pub framerate: i32,
    pub gop: i32,
}

/// Everything an encode session is opened with.
#[derive(Debug, Clone, Copy, PartialEq, Eq)]
pub struct EncodeContext {
    pub f: FeatureContext,
    pub d: DynamicContext,
}

/// Everything a decode session is opened with.
#[derive(Debug, Clone, Copy, PartialEq, Eq)]
pub struct DecodeContext {
    pub device: Option<Handle>,
    pub driver: Driver,
    pub vendor: Driver,
    pub luid: i64,
    pub data_format: DataFormat,
}

/// The configurations found usable on this machine, for encoding and for
/// decoding.
#[derive(Debug, Clone, PartialEq, Eq)]
pub struct Available {
    pub e: Vec<FeatureContext>,
    pub d: Vec<DecodeContext>,
}

impl Available {
    /// Whether some encode configuration is of `vendor` and `data_format`.
    pub open spec fn has_encoder(self, vendor: Driver, data_format: DataFormat) -> bool {
        exists|i: int|
            0 <= i < self.e@.len() && (#[trigger] self.e@[i]).vendor == vendor
                && self.e@[i].data_format == data_format
    }

    /// Whether some decode configuration is of `vendor` and `data_format`.
    pub open spec fn has_decoder(self, vendor: Driver, data_format: DataFormat) -> bool {
        exists|i: int|
            0 <= i < self.d@.len() && (#[trigger] self.d@[i]).vendor == vendor
                && self.d@[i].data_format == data_format
    }

    /// Whether a configuration of `vendor` for `data_format` was found, among
    /// the encode ones if `encode`, else among the decode ones.
    pub fn contains(&self, encode: bool, vendor: Driver, data_format: DataFormat) -> (found: bool)
        ensures
            found == (if encode {
                self.has_encoder(vendor, data_format)
            } else {
                self.has_decoder(vendor, data_format)
            }),
    {
        if encode {
            let mut i: usize = 0;
            while i < self.e.len()
                invariant
                    encode,
                    i <= self.e@.len(),
                    forall|j: int|
                        0 <= j < i ==> !((#[trigger] self.e@[j]).vendor == vendor
                            && self.e@[j].data_format == data_format),
                decreases self.e.len() - i,
            {
                if self.e[i].vendor == vendor && self.e[i].data_format == data_format {
                    return true;
                }
                i += 1;
            }
            false
        } else {
            let mut i: usize = 0;
            while i < self.d.len()
                invariant
                    !encode,
                    i <= self.d@.len(),
                    forall|j: int|
                        0 <= j < i ==> !((#[trigger] self.d@[j]).vendor == vendor
                            && self.d@[j].data_format == data_format),
                decreases self.d.len() - i,
            {
                if self.d[i].vendor == vendor && self.d[i].data_format == data_format {
                    return true;
                }
                i += 1;
            }
            false
        }
    }
}

} // verus!
