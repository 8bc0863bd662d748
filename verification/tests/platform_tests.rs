use hwcodec::common::AdapterVendor;
use hwcodec::platform::win::adapter::{
    Adapter, AdapterDesc, AdapterProbe, Adapters, DeviceCreation, D3D_FEATURE_LEVEL_11_0,
};
use hwcodec::platform::win::bmp::{
    bgr_from_mapped, create_bmp_file, create_bmp_header, DumpCounter, BMP_HEADER_SIZE,
};
use hwcodec::platform::win::dump::dump_texture;
use hwcodec::platform::win::error::{check_hresult, WinPlatformError};
use hwcodec::platform::win::shader::{
    create_input_layout, quad_vertices, InputElement, Semantic, ShaderSetup, Vertex,
    NUM_VERTICES, VERTEX_STRIDE,
};
use hwcodec::platform::win::texture::{get_texture_width_height, Texture, TextureDesc};
use hwcodec::platform::win::utils::{get_gpu_signature, to_unsigned, AdapterReport};
use hwcodec::platform::win::video_processor::{to_i32_bits, ContentDesc, ProcessorCache, VideoProcessor};

fn desc(vendor_id: u32, device_id: u32, luid_low: u32) -> AdapterDesc {
    AdapterDesc { vendor_id, device_id, sub_sys_id: 3, revision: 4, luid_high: 0, luid_low }
}

fn created(device: usize) -> DeviceCreation {
    DeviceCreation { hresult: 0, feature_level: 0xb000, device, context: device + 1 }
}

#[test]
fn mod_test_gpu_signature() {
    let signature = get_gpu_signature(&Vec::new());
    println!("GPU Signature: {}", signature);
    assert_eq!(signature, 0);
}

#[test]
fn platform_win_tests_test_gpu_signature() {
    let signature = get_gpu_signature(&vec![AdapterReport {
        desc: Ok(desc(0x1414, 0x8c, 1)),
        umd_version: None,
    }]);
    println!("GPU Signature: 0x{:016X}", signature);
    assert_eq!(signature, 0);
}

#[test]
fn gpu_signature_sums_known_vendors() {
    let nvidia = AdapterReport { desc: Ok(desc(0x10DE, 0x2204, 1)), umd_version: Some(0x1000) };
    let intel = AdapterReport { desc: Ok(desc(0x8086, 0x9A49, 2)), umd_version: None };
    let other = AdapterReport { desc: Ok(desc(0x1414, 0x8c, 3)), umd_version: Some(99) };
    let unreadable = AdapterReport { desc: Err(-1), umd_version: Some(5) };
    let first = 0x10DEu64 + 0x2204 + 3 + 4 + 0x1000;
    let second = 0x8086u64 + 0x9A49 + 3 + 4;
    assert_eq!(get_gpu_signature(&vec![nvidia]), first);
    assert_eq!(get_gpu_signature(&vec![intel]), second);
    assert_eq!(get_gpu_signature(&vec![nvidia, other, unreadable, intel]), first + second);
    assert_eq!(get_gpu_signature(&vec![intel, nvidia]), first + second);
    let updated = AdapterReport { umd_version: Some(0x1001), ..nvidia };
    assert_ne!(get_gpu_signature(&vec![updated, intel]), first + second);
}

#[test]
fn gpu_signature_wraps() {
    let amd = AdapterReport { desc: Ok(desc(0x1002, 0, 1)), umd_version: Some(-1) };
    let one = 0x1002u64 + 3 + 4;
    assert_eq!(get_gpu_signature(&vec![amd]), one - 1);
    assert_eq!(get_gpu_signature(&vec![amd, amd]), 2 * one - 2);
    let low = AdapterReport { desc: Ok(desc(0x1002, 0, 1)), umd_version: Some(i64::MIN) };
    assert_eq!(get_gpu_signature(&vec![low, low]), 2 * one);
    assert_eq!(to_unsigned(-1), u64::MAX);
    assert_eq!(to_unsigned(i64::MIN), 1 << 63);
    assert_eq!(to_unsigned(i64::MAX), i64::MAX as u64);
    assert_eq!(to_unsigned(0), 0);
}

#[test]
fn luid_joins_high_and_low_part() {
    let mut d = desc(0x10DE, 1, 0x9ABC_DEF0);
    d.luid_high = 0x1234_5678;
    assert_eq!(d.get_luid(), 0x1234_5678_9ABC_DEF0);
    d.luid_high = -1;
    d.luid_low = u32::MAX;
    assert_eq!(d.get_luid(), -1);
    d.luid_high = i32::MIN;
    d.luid_low = 0;
    assert_eq!(d.get_luid(), i64::MIN);
    d.luid_high = 0;
    d.luid_low = 100;
    assert_eq!(d.get_luid(), 100);
    d.luid_high = -1;
    d.luid_low = 0;
    assert_eq!(d.get_luid(), -(1i64 << 32));
}

#[test]
fn adapter_takes_in_a_created_device() {
    let adapter = Adapter::new(desc(0x8086, 0x9A49, 77), created(0x500)).unwrap();
    assert_eq!(adapter.device(), 0x500);
    assert_eq!(adapter.context(), 0x501);
    assert_eq!(adapter.desc(), &desc(0x8086, 0x9A49, 77));
    assert_eq!(adapter.luid(), 77);
    assert_eq!(adapter.vendor_id(), 0x8086);
    assert_eq!(adapter.device_id(), 0x9A49);
    assert!(adapter.needs_multithread_protection());
    let nvidia = Adapter::new(desc(0x10DE, 1, 1), created(1)).unwrap();
    assert!(!nvidia.needs_multithread_protection());
    assert_eq!(D3D_FEATURE_LEVEL_11_0, 45056);
}

#[test]
fn adapter_refuses_a_faulty_device() {
    let failed = DeviceCreation { hresult: -2005270524, ..created(1) };
    assert_eq!(
        Adapter::new(desc(0x10DE, 1, 1), failed),
        Err(WinPlatformError::DeviceCreationFailed(-2005270524))
    );
    let low = DeviceCreation { feature_level: 0xa000, ..created(1) };
    assert_eq!(
        Adapter::new(desc(0x10DE, 1, 1), low),
        Err(WinPlatformError::UnsupportedFeatureLevel(0xa000))
    );
    let both = DeviceCreation { hresult: -1, feature_level: 0, ..created(1) };
    assert_eq!(both.check(), Err(WinPlatformError::DeviceCreationFailed(-1)));
    assert_eq!(created(1).check(), Ok(()));
    let positive = DeviceCreation { hresult: 1, ..created(1) };
    assert_eq!(positive.check(), Ok(()));
}

#[test]
fn adapters_of_one_vendor_in_enumeration_order() {
    let probe = |d: AdapterDesc, c: Option<DeviceCreation>| AdapterProbe { desc: Ok(d), creation: c };
    let probes = vec![
        probe(desc(0x8086, 1, 10), Some(created(0x100))),
        probe(desc(0x10DE, 2, 20), Some(created(0x200))),
        probe(desc(0x10DE, 3, 30), Some(DeviceCreation { hresult: -5, ..created(0x300) })),
        probe(desc(0x1002, 4, 40), None),
        probe(desc(0x10DE, 5, 50), Some(DeviceCreation { feature_level: 0xa100, ..created(0x500) })),
        probe(desc(0x10DE, 6, 60), None),
        probe(desc(0x10DE, 7, 70), Some(created(0x700))),
    ];
    let nvidia = Adapters::new(AdapterVendor::ADAPTER_VENDOR_NVIDIA, &probes).unwrap();
    assert_eq!(nvidia.len(), 2);
    let luids: Vec<i64> = nvidia.adapters().iter().map(|a| a.luid()).collect();
    assert_eq!(luids, vec![20, 70]);
    let devices: Vec<usize> = nvidia.adapters().iter().map(|a| a.device()).collect();
    assert_eq!(devices, vec![0x200, 0x700]);
    let intel = Adapters::new(AdapterVendor::ADAPTER_VENDOR_INTEL, &probes).unwrap();
    assert_eq!(intel.adapters().iter().map(|a| a.luid()).collect::<Vec<_>>(), vec![10]);
    let amd = Adapters::new(AdapterVendor::ADAPTER_VENDOR_AMD, &probes).unwrap();
    assert_eq!(amd.len(), 0);
    assert_eq!(Adapters::new(AdapterVendor::ADAPTER_VENDOR_AMD, &Vec::new()).unwrap().len(), 0);
    assert!(Adapters::wants(AdapterVendor::ADAPTER_VENDOR_AMD, &desc(0x1002, 4, 40)));
    assert!(!Adapters::wants(AdapterVendor::ADAPTER_VENDOR_AMD, &desc(0x10DE, 4, 40)));
}

#[test]
fn unreadable_description_ends_enumeration() {
    let probes = vec![
        AdapterProbe { desc: Ok(desc(0x10DE, 2, 20)), creation: Some(created(0x200)) },
        AdapterProbe { desc: Err(-2005270523), creation: None },
        AdapterProbe { desc: Err(-7), creation: None },
    ];
    for vendor in [AdapterVendor::ADAPTER_VENDOR_NVIDIA, AdapterVendor::ADAPTER_VENDOR_AMD] {
        assert_eq!(
            Adapters::new(vendor, &probes),
            Err(WinPlatformError::DeviceCreationFailed(-2005270523))
        );
    }
}

#[test]
fn first_adapter_index() {
    let descs = vec![
        Ok(desc(0x8086, 1, 10)),
        Ok(desc(0x10DE, 2, 20)),
        Ok(desc(0x10DE, 3, 30)),
        Err(-9),
        Ok(desc(0x1002, 4, 40)),
    ];
    let first = Adapters::get_first_adapter_index;
    assert_eq!(first(AdapterVendor::ADAPTER_VENDOR_INTEL, &descs), Ok(0));
    assert_eq!(first(AdapterVendor::ADAPTER_VENDOR_NVIDIA, &descs), Ok(1));
    assert_eq!(
        first(AdapterVendor::ADAPTER_VENDOR_AMD, &descs),
        Err(WinPlatformError::DeviceCreationFailed(-9))
    );
    assert_eq!(
        first(AdapterVendor::ADAPTER_VENDOR_AMD, &descs[..3].to_vec()),
        Err(WinPlatformError::AdapterNotFound)
    );
    assert_eq!(
        first(AdapterVendor::ADAPTER_VENDOR_NVIDIA, &Vec::new()),
        Err(WinPlatformError::AdapterNotFound)
    );
}

#[test]
fn hresult_check() {
    assert_eq!(check_hresult(0), Ok(()));
    assert_eq!(check_hresult(1), Ok(()));
    assert_eq!(check_hresult(i32::MAX), Ok(()));
    assert_eq!(check_hresult(-1), Err(WinPlatformError::DeviceCreationFailed(-1)));
    assert_eq!(
        check_hresult(-2147467259),
        Err(WinPlatformError::DeviceCreationFailed(-2147467259))
    );
}

#[test]
fn texture_size_and_staging_copy() {
    let texture = Texture { handle: 1, desc: TextureDesc::new_pooled(1920, 1080) };
    assert_eq!(get_texture_width_height(&texture), (1920, 1080));
    let source = TextureDesc { sample_count: 4, sample_quality: 2, array_size: 6, ..texture.desc };
    assert_eq!(
        source.staging(6),
        TextureDesc {
            width: 1920,
            height: 1080,
            mip_levels: 1,
            array_size: 6,
            format: 87,
            sample_count: 4,
            sample_quality: 2,
            usage: 3,
            bind_flags: 0,
            cpu_access_flags: 0x20000,
            misc_flags: 0,
        }
    );
    assert_eq!(source.staging(1).array_size, 1);
    assert_eq!(
        TextureDesc::new_nv12_source(640, 480),
        TextureDesc {
            width: 640,
            height: 480,
            mip_levels: 1,
            array_size: 1,
            format: 103,
            sample_count: 1,
            sample_quality: 0,
            usage: 0,
            bind_flags: 8,
            cpu_access_flags: 0,
            misc_flags: 0,
        }
    );
}

#[test]
fn video_processor_marker_and_cache() {
    let _marker: VideoProcessor = VideoProcessor::default();
    let mut cache = ProcessorCache::new();
    assert_eq!(
        cache,
        ProcessorCache { last_content_desc: None, enumerator: false, processor: false }
    );
    let first = ContentDesc::new_conversion(640, 480);
    cache.prepare(first);
    assert_eq!(cache.last_content_desc, Some(first));
    cache.enumerator = true;
    cache.processor = true;
    let mut same_shape = first;
    same_shape.usage = 7;
    cache.prepare(same_shape);
    assert_eq!(
        cache,
        ProcessorCache { last_content_desc: Some(first), enumerator: true, processor: true }
    );
    let other = ContentDesc::new_conversion(640, 481);
    assert!(!first.has_same_shape(&other));
    assert!(first.has_same_shape(&same_shape));
    cache.prepare(other);
    assert_eq!(
        cache,
        ProcessorCache { last_content_desc: Some(other), enumerator: false, processor: false }
    );
    assert_eq!(to_i32_bits(0), 0);
    assert_eq!(to_i32_bits(0x7FFF_FFFF), i32::MAX);
    assert_eq!(to_i32_bits(0x8000_0000), i32::MIN);
    assert_eq!(to_i32_bits(u32::MAX), -1);
}

#[test]
fn shader_pipeline_is_fixed() {
    assert_eq!(NUM_VERTICES, 6);
    assert_eq!(VERTEX_STRIDE, 20);
    let v = |x, y, u, v| Vertex { x, y, z: 0, u, v };
    assert_eq!(
        quad_vertices(),
        vec![
            v(-1, -1, 0, 1),
            v(-1, 1, 0, 0),
            v(1, -1, 1, 1),
            v(1, -1, 1, 1),
            v(-1, 1, 0, 0),
            v(1, 1, 1, 0),
        ]
    );
    assert_eq!(
        create_input_layout(),
        vec![
            InputElement {
                semantic: Semantic::Position,
                semantic_index: 0,
                format: 6,
                input_slot: 0,
                aligned_byte_offset: 0,
                input_slot_class: 0,
                instance_data_step_rate: 0,
            },
            InputElement {
                semantic: Semantic::TexCoord,
                semantic_index: 0,
                format: 16,
                input_slot: 0,
                aligned_byte_offset: 12,
                input_slot_class: 0,
                instance_data_step_rate: 0,
            },
        ]
    );
    let setup = ShaderSetup::new(1280, 720);
    assert_eq!(setup.source, TextureDesc::new_nv12_source(1280, 720));
    assert_eq!((setup.luma_view.format, setup.chroma_view.format), (61, 49));
    assert_eq!((setup.luma_view.view_dimension, setup.luma_view.mip_levels), (4, 1));
    assert_eq!((setup.viewport.width, setup.viewport.height), (1280, 720));
    assert_eq!((setup.viewport.min_depth, setup.viewport.max_depth), (0, 1));
    assert_eq!(setup.sampler.filter, 21);
    assert_eq!(
        (setup.sampler.address_u, setup.sampler.address_v, setup.sampler.address_w),
        (3, 3, 3)
    );
    assert_eq!((setup.sampler.max_anisotropy, setup.sampler.comparison_func), (1, 1));
    assert_eq!(setup.vertex_buffer.buffer.byte_width, 120);
    assert_eq!(setup.vertex_buffer.buffer.bind_flags, 1);
    assert_eq!((setup.vertex_buffer.stride, setup.vertex_buffer.offset), (20, 0));
    assert_eq!(setup.vertex_buffer.sample_mask, u32::MAX);
    assert_eq!(setup.vertex_buffer.topology, 4);
}

#[test]
fn bmp_header_bytes() {
    assert_eq!(BMP_HEADER_SIZE, 54);
    let header = create_bmp_header(2, 3);
    let mut expected = [0u8; 54];
    expected[0] = b'B';
    expected[1] = b'M';
    expected[2] = 72;
    expected[10] = 54;
    expected[14] = 40;
    expected[18] = 2;
    expected[22] = 3;
    expected[26] = 1;
    expected[28] = 24;
    expected[34] = 18;
    assert_eq!(header, expected.to_vec());

    let header = create_bmp_header(1920, 1080);
    assert_eq!(header.len(), 54);
    assert_eq!(&header[2..6], &(1920u32 * 1080 * 3 + 54).to_le_bytes());
    assert_eq!(&header[18..22], &1920u32.to_le_bytes());
    assert_eq!(&header[22..26], &1080u32.to_le_bytes());
    assert_eq!(&header[34..38], &(1920u32 * 1080 * 3).to_le_bytes());
    assert_eq!(&header[6..10], &[0, 0, 0, 0]);
    assert_eq!(&header[38..54], &[0u8; 16]);
}

#[test]
fn bmp_file_stores_rows_bottom_up() {
    let data: Vec<u8> = (1..=18).collect();
    let file = create_bmp_file(&data, 2, 3);
    assert_eq!(file.len(), 54 + 18);
    assert_eq!(&file[..54], &create_bmp_header(2, 3)[..]);
    assert_eq!(&file[54..], &[13, 14, 15, 16, 17, 18, 7, 8, 9, 10, 11, 12, 1, 2, 3, 4, 5, 6]);

    let longer: Vec<u8> = (1..=30).collect();
    assert_eq!(create_bmp_file(&longer, 2, 3), file);
    assert_eq!(create_bmp_file(&[], 0, 0), create_bmp_header(0, 0));
    assert_eq!(create_bmp_file(&[], 5, 0), create_bmp_header(5, 0));
    assert_eq!(create_bmp_file(&[], 0, 5), create_bmp_header(0, 5));
    let one_row = create_bmp_file(&[9, 8, 7, 6, 5, 4], 2, 1);
    assert_eq!(&one_row[54..], &[9, 8, 7, 6, 5, 4]);
}

#[test]
fn bgr_drops_alpha_and_padding() {
    let mapped: Vec<u8> = vec![
        1, 2, 3, 255, 4, 5, 6, 255, 0, 0, 0, 0, //
        7, 8, 9, 255, 10, 11, 12, 255, 0, 0, 0, 0,
    ];
    assert_eq!(
        bgr_from_mapped(&mapped, 12, 2, 2, true),
        vec![1, 2, 3, 4, 5, 6, 7, 8, 9, 10, 11, 12]
    );
    assert_eq!(
        bgr_from_mapped(&mapped, 12, 2, 2, false),
        vec![3, 2, 1, 6, 5, 4, 9, 8, 7, 12, 11, 10]
    );
    assert_eq!(bgr_from_mapped(&mapped, 12, 3, 1, true), vec![1, 2, 3, 4, 5, 6, 0, 0, 0]);
    assert!(bgr_from_mapped(&mapped, 12, 0, 2, true).is_empty());
    assert!(bgr_from_mapped(&mapped, 12, 2, 0, true).is_empty());
}

#[test]
fn periodic_export() {
    let mut counter = DumpCounter::new();
    let mut due = Vec::new();
    for _ in 0..10 {
        due.push(counter.save_bgra_bmps(true, 4));
    }
    assert_eq!(
        due,
        vec![Some(0), None, None, None, Some(4), None, None, None, Some(8), None]
    );
    assert_eq!(counter.index, 10);
    assert_eq!(counter.save_bgra_bmps(false, 1), None);
    assert_eq!(counter.index, 10);
    assert_eq!(counter.save_bgra_bmps(true, 1), Some(10));
    assert_eq!(counter.save_bgra_bmps(true, 1), Some(11));
    assert_eq!(counter.save_bgra_bmps(true, 5), None);
}

#[test]
fn nv12_dump_crops_both_planes() {
    let pitch = 8u32;
    let height = 4u32;
    let mapped: Vec<u8> = (0..(pitch * height * 3 / 2) as u8).collect();
    let bytes = dump_texture(103, &mapped, pitch, height, 6, 4);
    let mut expected = Vec::new();
    for row in 0..4u8 {
        expected.extend((0..6u8).map(|c| row * 8 + c));
    }
    for row in 0..2u8 {
        expected.extend((0..6u8).map(|c| 32 + row * 8 + c));
    }
    assert_eq!(bytes, expected);

    let cropped = dump_texture(103, &mapped, pitch, height, 2, 3);
    assert_eq!(cropped, vec![0, 1, 8, 9, 16, 17, 32, 33]);
    assert!(dump_texture(87, &mapped, pitch, height, 6, 4).is_empty());
    assert!(dump_texture(103, &mapped, pitch, height, 0, 4).is_empty());
    assert!(dump_texture(103, &mapped, pitch, height, 6, 0).is_empty());
    assert_eq!(dump_texture(103, &mapped, pitch, height, 8, 1), (0..8).collect::<Vec<u8>>());
}

#[test]
fn mod_test_adapter_enumeration() {
    let adapters = Adapters::new(AdapterVendor::ADAPTER_VENDOR_NVIDIA, &Vec::new());
    match adapters {
        Ok(adapters) => {
            println!("Found {} NVIDIA adapters", adapters.adapters().len());
            assert_eq!(adapters.adapters().len(), 0);
        }
        Err(e) => {
            panic!("Failed to enumerate adapters: {:?}", e);
        }
    }
}

#[test]
fn platform_win_tests_test_adapter_enumeration() {
    let probes = vec![
        AdapterProbe { desc: Ok(desc(0x10DE, 1, 1)), creation: Some(created(0x10)) },
        AdapterProbe { desc: Ok(desc(0x1002, 2, 2)), creation: Some(created(0x20)) },
        AdapterProbe { desc: Ok(desc(0x1002, 3, 3)), creation: Some(created(0x30)) },
    ];
    let nvidia_adapters = Adapters::new(AdapterVendor::ADAPTER_VENDOR_NVIDIA, &probes);
    if let Ok(adapters) = &nvidia_adapters {
        println!("Found {} NVIDIA adapters", adapters.adapters().len());
    }
    assert_eq!(nvidia_adapters.unwrap().len(), 1);

    let amd_adapters = Adapters::new(AdapterVendor::ADAPTER_VENDOR_AMD, &probes);
    if let Ok(adapters) = &amd_adapters {
        println!("Found {} AMD adapters", adapters.adapters().len());
    }
    assert_eq!(amd_adapters.unwrap().len(), 2);

    let intel_adapters = Adapters::new(AdapterVendor::ADAPTER_VENDOR_INTEL, &probes);
    if let Ok(adapters) = &intel_adapters {
        println!("Found {} Intel adapters", adapters.adapters().len());
    }
    assert_eq!(intel_adapters.unwrap().len(), 0);
}

#[test]
fn test_device_creation_from_luid() {
    let descs = vec![Ok(desc(0x8086, 1, 10)), Ok(desc(0x10DE, 2, 20))];
    let adapter_index =
        Adapters::get_first_adapter_index(AdapterVendor::ADAPTER_VENDOR_NVIDIA, &descs);
    if let Ok(_index) = adapter_index {
        println!("Adapter index found: {}", _index);
    }
    assert_eq!(adapter_index, Ok(1));
}
