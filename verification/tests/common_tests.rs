use hwcodec::common::{supported_gpu, AdapterVendor, DataFormat, Driver, MAX_GOP};
use hwcodec::platform::win::utils::get_gpu_signature;

#[test]
fn test_get_gpu_signature() {
    let signature = get_gpu_signature(&Vec::new());
    println!("GPU Signature: 0x{:016X}", signature);
    assert_eq!(signature, 0);
}

#[test]
fn test_driver_enum() {
    let drivers = vec![Driver::NV, Driver::AMF, Driver::MFX];
    assert_eq!(drivers.len(), 3);
}

#[test]
fn test_supported_gpu() {
    let (nv, amd, intel) = supported_gpu(true, -1, -1, -1, -1);
    println!("Supported GPUs (encode): NV={}, AMD={}, Intel={}", nv, amd, intel);
    assert_eq!((nv, amd, intel), (false, false, false));

    let (nv_decode, amd_decode, intel_decode) = supported_gpu(false, -1, -1, -1, -1);
    println!(
        "Supported GPUs (decode): NV={}, AMD={}, Intel={}",
        nv_decode, amd_decode, intel_decode
    );
    assert_eq!((nv_decode, amd_decode, intel_decode), (false, false, false));
}

#[test]
fn supported_gpu_picks_the_nvidia_check_by_direction() {
    assert_eq!(supported_gpu(true, 0, -1, -1, 0), (true, false, true));
    assert_eq!(supported_gpu(false, 0, -1, 0, -1), (false, true, false));
    assert_eq!(supported_gpu(false, -1, 0, 0, 0), (true, true, true));
}

#[test]
fn data_format_codes() {
    assert_eq!(DataFormat::H264.to_i32(), 0);
    assert_eq!(DataFormat::H265.to_i32(), 1);
    assert_eq!(DataFormat::VP8.to_i32(), 2);
    assert_eq!(DataFormat::VP9.to_i32(), 3);
    assert_eq!(DataFormat::AV1.to_i32(), 4);
    for code in 0..5 {
        assert_eq!(DataFormat::from_i32(code).unwrap().to_i32(), code);
    }
    assert_eq!(DataFormat::from_i32(5), None);
    assert_eq!(DataFormat::from_i32(-1), None);
}

#[test]
fn adapter_vendor_ids() {
    assert_eq!(AdapterVendor::ADAPTER_VENDOR_AMD.to_u32(), 0x1002);
    assert_eq!(AdapterVendor::ADAPTER_VENDOR_INTEL.to_u32(), 0x8086);
    assert_eq!(AdapterVendor::ADAPTER_VENDOR_NVIDIA.to_u32(), 0x10DE);
    assert_eq!(AdapterVendor::ADAPTER_VENDOR_UNKNOWN.to_u32(), 0);
    assert_eq!(AdapterVendor::from_vendor_id(0x10DE), AdapterVendor::ADAPTER_VENDOR_NVIDIA);
    assert_eq!(AdapterVendor::from_vendor_id(0x1002), AdapterVendor::ADAPTER_VENDOR_AMD);
    assert_eq!(AdapterVendor::from_vendor_id(0x8086), AdapterVendor::ADAPTER_VENDOR_INTEL);
    assert_eq!(AdapterVendor::from_vendor_id(0x1414), AdapterVendor::ADAPTER_VENDOR_UNKNOWN);
    assert_eq!(AdapterVendor::from_index(0), Some(AdapterVendor::ADAPTER_VENDOR_NVIDIA));
    assert_eq!(AdapterVendor::from_index(1), Some(AdapterVendor::ADAPTER_VENDOR_AMD));
    assert_eq!(AdapterVendor::from_index(2), Some(AdapterVendor::ADAPTER_VENDOR_INTEL));
    assert_eq!(AdapterVendor::from_index(3), None);
    assert_eq!(AdapterVendor::from_index(0x10DE), None);
}

#[test]
fn driver_tags() {
    assert_eq!(Driver::NV.to_i32(), 0);
    assert_eq!(Driver::AMF.to_i32(), 1);
    assert_eq!(Driver::MFX.to_i32(), 2);
    assert_eq!(Driver::from_i32(0), Some(Driver::NV));
    assert_eq!(Driver::from_i32(1), Some(Driver::AMF));
    assert_eq!(Driver::from_i32(2), Some(Driver::MFX));
    assert_eq!(Driver::from_i32(3), None);
    assert_eq!(Driver::from_i32(-1), None);
}

#[test]
fn max_gop_is_the_largest_i32() {
    assert_eq!(MAX_GOP, i32::MAX);
}
