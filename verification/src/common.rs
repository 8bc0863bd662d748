//! Codec formats, GPU vendors and driver families shared by every module.

use vstd::prelude::*;

verus! {

/// Largest group-of-pictures length; stands for "no periodic key frame".
pub const MAX_GOP: i32 = 0x7FFF_FFFF;

/// A compressed video format.
#[derive(Debug, Clone, Copy, PartialEq, Eq, Structural)]
pub enum DataFormat {
    H264,
    H265,
    VP8,
    VP9,
    AV1,
}

impl DataFormat {
    /// The number by which the format is known across the native boundary.
    pub open spec fn code(self) -> int {
        match self {
            DataFormat::H264 => 0,
            DataFormat::H265 => 1,
            DataFormat::VP8 => 2,
            DataFormat::VP9 => 3,
            DataFormat::AV1 => 4,
        }
    }

    /// The format that a number stands for, if any.
    pub open spec fn of_code(code: int) -> Option<DataFormat> {
        if code == 0 {
            Some(DataFormat::H264)
        } else if code == 1 {
            Some(DataFormat::H265)
        } else if code == 2 {
            Some(DataFormat::VP8)
        } else if code == 3 {
            Some(DataFormat::VP9)
        } else if code == 4 {
            Some(DataFormat::AV1)
        } else {
            None
        }
    }

    /// The format's number, as handed to a codec backend.
    pub fn to_i32(self) -> (code: i32)
        ensures
            code == self.code(),
    {
        match self {
            DataFormat::H264 => 0,
            DataFormat::H265 => 1,
            DataFormat::VP8 => 2,
            DataFormat::VP9 => 3,
            DataFormat::AV1 => 4,
        }
    }

    /// Reads a format back from its number; `None` for a number that names no format.
    pub fn from_i32(code: i32) -> (format: Option<DataFormat>)
        ensures
            format == Self::of_code(code as int),
    {
        match code {
            0 => Some(DataFormat::H264),
            1 => Some(DataFormat::H265),
            2 => Some(DataFormat::VP8),
            3 => Some(DataFormat::VP9),
            4 => Some(DataFormat::AV1),
            _ => None,
        }
    }
}

/// The hardware vendor of a GPU adapter, told by its PCI vendor id.
#[allow(non_camel_case_types)]
#[derive(Debug, Clone, Copy, PartialEq, Eq, Structural)]
pub enum AdapterVendor {
    ADAPTER_VENDOR_AMD,
    ADAPTER_VENDOR_INTEL,
    ADAPTER_VENDOR_NVIDIA,
    ADAPTER_VENDOR_UNKNOWN,
}

impl AdapterVendor {
    /// The PCI vendor id; 0 for an unknown vendor.
    pub open spec fn vendor_id(self) -> int {
        match self {
            AdapterVendor::ADAPTER_VENDOR_AMD => 0x1002,
            AdapterVendor::ADAPTER_VENDOR_INTEL => 0x8086,
            AdapterVendor::ADAPTER_VENDOR_NVIDIA => 0x10DE,
            AdapterVendor::ADAPTER_VENDOR_UNKNOWN => 0,
        }
    }

    /// The vendor that a PCI vendor id belongs to.
    pub open spec fn of_vendor_id(id: int) -> AdapterVendor {
        if id == 0x10DE {
            AdapterVendor::ADAPTER_VENDOR_NVIDIA
        } else if id == 0x1002 {
            AdapterVendor::ADAPTER_VENDOR_AMD
        } else if id == 0x8086 {
            AdapterVendor::ADAPTER_VENDOR_INTEL
        } else {
            AdapterVendor::ADAPTER_VENDOR_UNKNOWN
        }
    }

    /// The vendor selected by a position in the fixed vendor order
    /// (0 NVIDIA, 1 AMD, 2 Intel), as the native surface passes it.
    pub open spec fn of_index(index: int) -> Option<AdapterVendor> {
        if index == 0 {
            Some(AdapterVendor::ADAPTER_VENDOR_NVIDIA)
        } else if index == 1 {
            Some(AdapterVendor::ADAPTER_VENDOR_AMD)
        } else if index == 2 {
            Some(AdapterVendor::ADAPTER_VENDOR_INTEL)
        } else {
            None
        }
    }

    /// The PCI vendor id of this vendor.
    pub fn to_u32(self) -> (id: u32)
        ensures
            id == self.vendor_id(),
    {
        match self {
            AdapterVendor::ADAPTER_VENDOR_AMD => 0x1002,
            AdapterVendor::ADAPTER_VENDOR_INTEL => 0x8086,
            AdapterVendor::ADAPTER_VENDOR_NVIDIA => 0x10DE,
            AdapterVendor::ADAPTER_VENDOR_UNKNOWN => 0,
        }
    }

    /// Classifies a PCI vendor id; every id but the three known ones is unknown.
    pub fn from_vendor_id(id: u32) -> (vendor: AdapterVendor)
        ensures
            vendor == Self::of_vendor_id(id as int),
    {
        match id {
            0x10DE => AdapterVendor::ADAPTER_VENDOR_NVIDIA,
            0x1002 => AdapterVendor::ADAPTER_VENDOR_AMD,
            0x8086 => AdapterVendor::ADAPTER_VENDOR_INTEL,
            _ => AdapterVendor::ADAPTER_VENDOR_UNKNOWN,
        }
    }

    /// The vendor at a position of the fixed vendor order; `None` past its end.
    pub fn from_index(index: i32) -> (vendor: Option<AdapterVendor>)
        ensures
            vendor == Self::of_index(index as int),
    {
        match index {
            0 => Some(AdapterVendor::ADAPTER_VENDOR_NVIDIA),
            1 => Some(AdapterVendor::ADAPTER_VENDOR_AMD),
            2 => Some(AdapterVendor::ADAPTER_VENDOR_INTEL),
            _ => None,
        }
    }
}

/// A codec backend family: NVIDIA's SDK, AMD's AMF, Intel's MFX.
#[derive(Debug, Clone, Copy, PartialEq, Eq, Structural)]
pub enum Driver {
    NV,
    AMF,
    MFX,
}

impl Driver {
    /// The tag under which a backend reports this family.
    pub open spec fn tag(self) -> int {
        match self {
            Driver::NV => 0,
            Driver::AMF => 1,
            Driver::MFX => 2,
        }
    }

    /// The family that a reported tag names, if any.
    pub open spec fn of_tag(tag: int) -> Option<Driver> {
        if tag == 0 {
            Some(Driver::NV)
        } else if tag == 1 {
            Some(Driver::AMF)
        } else if tag == 2 {
            Some(Driver::MFX)
        } else {
            None
        }
    }

    /// The tag of this family.
    pub fn to_i32(self) -> (tag: i32)
        ensures
            tag == self.tag(),
    {
        match self {
            Driver::NV => 0,
            Driver::AMF => 1,
            Driver::MFX => 2,
        }
    }

    /// Reads a reported vendor tag; `None` for a tag that names no family.
    pub fn from_i32(tag: i32) -> (driver: Option<Driver>)
        ensures
            driver == Self::of_tag(tag as int),
    {
        match tag {
            0 => Some(Driver::NV),
            1 => Some(Driver::AMF),
            2 => Some(Driver::MFX),
            _ => None,
        }
    }

    /// The hardware vendor whose adapters this family drives.
    pub fn adapter_vendor(self) -> (vendor: AdapterVendor)
        ensures
            AdapterVendor::of_index(self.tag()) == Some(vendor),
    {
        match self {
            Driver::NV => AdapterVendor::ADAPTER_VENDOR_NVIDIA,
            Driver::AMF => AdapterVendor::ADAPTER_VENDOR_AMD,
            Driver::MFX => AdapterVendor::ADAPTER_VENDOR_INTEL,
        }
    }
}

/// Which vendors' drivers answered, in the order NVIDIA, AMD, Intel.
///
/// Each argument is the status that the vendor's driver check returned, 0 for
/// a loadable driver. NVIDIA has one check for encoding and one for decoding;
/// `encode` chooses between them.
pub fn supported_gpu(encode: bool, nv_encode: i32, nv_decode: i32, amf: i32, mfx: i32) -> (gpus: (
    bool,
    bool,
    bool,
))
    ensures
        gpus.0 == (if encode {
            nv_encode == 0
        } else {
            nv_decode == 0
        }),
        gpus.1 == (amf == 0),
        gpus.2 == (mfx == 0),
{
    (encode && nv_encode == 0 || !encode && nv_decode == 0, amf == 0, mfx == 0)
}

} // verus!
