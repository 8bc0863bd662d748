//! The AMD AMF backend, as far as discovery looks at it.

use vstd::prelude::*;
use crate::common::{DataFormat, Driver};
use crate::vram::inner::{driver_status, plausible_formats, InnerDecodeContext, InnerEncodeContext};
use crate::vram::probe::{zipped, ProbeResult};
use crate::vram::walk::{default_adapter_passes, default_adapter_probe, DEFAULT_ADAPTER_LUID};

verus! {

/// The status of the driver check: 0 where the driver is there, -1 where
/// it is not.
pub fn amf_driver_support(available: bool) -> (status: i32)
    ensures
        status == (if available {
            0int
        } else {
            -1int
        }),
{
    driver_status(available)
}

/// The formats this backend could plausibly encode: H.264 and H.265 where
/// its driver is there, none where it is not. `driver_support` is the status
/// of the driver check, 0 for a driver that is there.
pub fn possible_support_encoders(driver_support: i32) -> (list: Vec<InnerEncodeContext>)
    ensures
        list@.len() == plausible_formats(driver_support, true).len(),
        forall|i: int|
            0 <= i < list@.len() ==> (#[trigger] list@[i]).format == plausible_formats(
                driver_support,
                true,
            )[i],
{
    let mut list: Vec<InnerEncodeContext> = Vec::new();
    if driver_support != 0 {
        return list;
    }
    list.push(InnerEncodeContext { format: DataFormat::H264 });
    list.push(InnerEncodeContext { format: DataFormat::H265 });
    list
}

/// The formats this backend could plausibly decode: H.264 and H.265 where
/// its driver is there and decoding is implemented, none else.
pub fn possible_support_decoders(driver_support: i32, decode_implemented: bool) -> (list: Vec<
    InnerDecodeContext,
>)
    ensures
        list@.len() == plausible_formats(driver_support, decode_implemented).len(),
        forall|i: int|
            0 <= i < list@.len() ==> (#[trigger] list@[i]).data_format == plausible_formats(
                driver_support,
                decode_implemented,
            )[i],
{
    let mut list: Vec<InnerDecodeContext> = Vec::new();
    if driver_support != 0 || !decode_implemented {
        return list;
    }
    list.push(InnerDecodeContext { data_format: DataFormat::H264 });
    list.push(InnerDecodeContext { data_format: DataFormat::H265 });
    list
}

/// The encode probe of this backend: the default adapter under the tag of
/// AMF, unless the driver is missing, the request has no room, or the
/// adapter is claimed for the format.
pub fn amf_test_encode(
    driver_available: bool,
    luids_count: i32,
    data_format: i32,
    excluded_luids: &Vec<i64>,
    exclude_formats: &Vec<i32>,
) -> (result: ProbeResult)
    ensures
        result.code == 0,
        result.luids@.len() == result.desc_count,
        result.vendors@.len() == result.desc_count,
        zipped(result.luids@, result.vendors@) == (if default_adapter_passes(
            driver_available,
            luids_count,
            data_format,
            zipped(excluded_luids@, exclude_formats@),
        ) {
            seq![(DEFAULT_ADAPTER_LUID, Driver::AMF.tag() as i32)]
        } else {
            Seq::empty()
        }),
{
    default_adapter_probe(
        Driver::AMF,
        driver_available,
        luids_count,
        data_format,
        excluded_luids,
        exclude_formats,
    )
}

/// The decode probe of this backend; it answers as the encode probe does.
pub fn amf_test_decode(
    driver_available: bool,
    luids_count: i32,
    data_format: i32,
    excluded_luids: &Vec<i64>,
    exclude_formats: &Vec<i32>,
) -> (result: ProbeResult)
    ensures
        result.code == 0,
        result.luids@.len() == result.desc_count,
        result.vendors@.len() == result.desc_count,
        zipped(result.luids@, result.vendors@) == (if default_adapter_passes(
            driver_available,
            luids_count,
            data_format,
            zipped(excluded_luids@, exclude_formats@),
        ) {
            seq![(DEFAULT_ADAPTER_LUID, Driver::AMF.tag() as i32)]
        } else {
            Seq::empty()
        }),
{
    default_adapter_probe(
        Driver::AMF,
        driver_available,
        luids_count,
        data_format,
        excluded_luids,
        exclude_formats,
    )
}

/// The name of the AMF encoder component for a format number.
pub fn get_codec_name(data_format: i32) -> (name: Option<&'static str>)
    ensures
        data_format == 0 ==> name is Some && name->Some_0@ == "AMFVideoEncoderVCE_AVC"@,
        data_format == 1 ==> name is Some && name->Some_0@ == "AMFVideoEncoder_HEVC"@,
        data_format != 0 && data_format != 1 ==> name is None,
{
    match data_format {
        0 => Some("AMFVideoEncoderVCE_AVC"),
        1 => Some("AMFVideoEncoder_HEVC"),
        _ => None,
    }
}

/// The name of the AMF decoder component for a format number.
pub fn get_decoder_codec_name(data_format: i32) -> (name: Option<&'static str>)
    ensures
        data_format == 0 ==> name is Some && name->Some_0@ == "AMFVideoDecoderUVD_H264_AVC"@,
        data_format == 1 ==> name is Some && name->Some_0@ == "AMFVideoDecoderHW_H265_HEVC"@,
        data_format != 0 && data_format != 1 ==> name is None,
{
    match data_format {
        0 => Some("AMFVideoDecoderUVD_H264_AVC"),
        1 => Some("AMFVideoDecoderHW_H265_HEVC"),
        _ => None,
    }
}

} // verus!
