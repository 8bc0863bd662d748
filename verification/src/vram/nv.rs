//! The NVIDIA backend, as far as discovery looks at it.

use vstd::prelude::*;
use crate::common::{DataFormat, Driver};
use crate::vram::inner::{
    backend_codec_id,
    driver_status,
    plausible_formats,
    InnerDecodeContext,
    InnerEncodeContext,
};
use crate::vram::probe::{zipped, ProbeResult};
use crate::vram::walk::{default_adapter_passes, default_adapter_probe, DEFAULT_ADAPTER_LUID};

verus! {

/// The status of the encoder driver check: 0 where the driver is there,
/// -1 where it is not.
pub fn nv_encode_driver_support(available: bool) -> (status: i32)
    ensures
        status == (if available {
            0int
        } else {
            -1int
        }),
{
    driver_status(available)
}

/// The status of the decoder driver check: 0 where the driver is there,
/// -1 where it is not.
pub fn nv_decode_driver_support(available: bool) -> (status: i32)
    ensures
        status == (if available {
            0int
        } else {
            -1int
        }),
{
    driver_status(available)
}

/// The formats this backend could plausibly encode: H.264 and H.265 where
/// its driver is there, none where it is not. `driver_support` is the status
/// of the driver check, 0 for a driver that is there.
pub fn possible_support_encoders(driver_support: i32) -> (list: Vec<InnerEncodeContext>)
    ensures
        list@.len() == plausible_formats(driver_support, true).len(),
        forall|i: int|
            0 <= i < list@.len() ==> (#[trigger] list@[i]).format == plausible_formats(
                driver_support,
                true,
            )[i],
{
    let mut list: Vec<InnerEncodeContext> = Vec::new();
    if driver_support != 0 {
        return list;
    }
    list.push(InnerEncodeContext { format: DataFormat::H264 });
    list.push(InnerEncodeContext { format: DataFormat::H265 });
    list
}

/// The formats this backend could plausibly decode: H.264 and H.265 where
/// its driver is there and decoding is implemented, none else.
pub fn possible_support_decoders(driver_support: i32, decode_implemented: bool) -> (list: Vec<
    InnerDecodeContext,
>)
    ensures
        list@.len() == plausible_formats(driver_support, decode_implemented).len(),
        forall|i: int|
            0 <= i < list@.len() ==> (#[trigger] list@[i]).data_format == plausible_formats(
                driver_support,
                decode_implemented,
            )[i],
{
    let mut list: Vec<InnerDecodeContext> = Vec::new();
    if driver_support != 0 || !decode_implemented {
        return list;
    }
    list.push(InnerDecodeContext { data_format: DataFormat::H264 });
    list.push(InnerDecodeContext { data_format: DataFormat::H265 });
    list
}

/// The encode probe of this backend: the default adapter under the tag of
/// NV, unless the driver is missing, the request has no room, or the
/// adapter is claimed for the format.
pub fn nv_test_encode(
    driver_available: bool,
    luids_count: i32,
    data_format: i32,
    excluded_luids: &Vec<i64>,
    exclude_formats: &Vec<i32>,
) -> (result: ProbeResult)
    ensures
        result.code == 0,
        result.luids@.len() == result.desc_count,
        result.vendors@.len() == result.desc_count,
        zipped(result.luids@, result.vendors@) == (if default_adapter_passes(
            driver_available,
            luids_count,
            data_format,
            zipped(excluded_luids@, exclude_formats@),
        ) {
            seq![(DEFAULT_ADAPTER_LUID, Driver::NV.tag() as i32)]
        } else {
            Seq::empty()
        }),
{
    default_adapter_probe(
        Driver::NV,
        driver_available,
        luids_count,
        data_format,
        excluded_luids,
        exclude_formats,
    )
}

/// The decode probe of this backend; it answers as the encode probe does.
pub fn nv_test_decode(
    driver_available: bool,
    luids_count: i32,
    data_format: i32,
    excluded_luids: &Vec<i64>,
    exclude_formats: &Vec<i32>,
) -> (result: ProbeResult)
    ensures
        result.code == 0,
        result.luids@.len() == result.desc_count,
        result.vendors@.len() == result.desc_count,
        zipped(result.luids@, result.vendors@) == (if default_adapter_passes(
            driver_available,
            luids_count,
            data_format,
            zipped(excluded_luids@, exclude_formats@),
        ) {
            seq![(DEFAULT_ADAPTER_LUID, Driver::NV.tag() as i32)]
        } else {
            Seq::empty()
        }),
{
    default_adapter_probe(
        Driver::NV,
        driver_available,
        luids_count,
        data_format,
        excluded_luids,
        exclude_formats,
    )
}

/// The codec number of the NVIDIA SDK for a format number: H.264 and H.265
/// keep theirs, no other format has one.
pub fn convert_codec_to_nv(codec_id: i32) -> (codec: Option<i32>)
    ensures
        codec == (if codec_id == 0 || codec_id == 1 {
            Some(codec_id)
        } else {
            None
        }),
{
    backend_codec_id(codec_id)
}

} // verus!
