use hwcodec::common::{DataFormat, Driver};
use hwcodec::vram::inner::{InnerDecodeContext, InnerEncodeContext};
use hwcodec::vram::probe::{
    Candidate, Discovery, ExclusionSet, ProbeKind, ProbeRequest, ProbeResult,
};
use hwcodec::vram::walk::{
    decode_attempt_passed, default_adapter_probe, encode_attempt_passed, AdapterWalk,
    DEFAULT_ADAPTER_LUID, PROBE_TIMEOUT_MS,
};
use hwcodec::vram::{amf, decode, encode, mfx, nv, DecodeContext, DynamicContext, FeatureContext};

/// A backend for tests: the adapters it has, each with the tag it reports
/// it under and the formats it can handle there.
struct MockBackend {
    tag: i32,
    adapters: Vec<(i64, Vec<DataFormat>)>,
}

impl MockBackend {
    /// Probes as a backend must: leaves excluded pairs alone.
    fn test(&self, request: &ProbeRequest) -> ProbeResult {
        let mut luids = Vec::new();
        let mut vendors = Vec::new();
        for (luid, formats) in &self.adapters {
            if luids.len() >= request.capacity {
                break;
            }
            let excluded = request
                .excluded_luids
                .iter()
                .zip(request.exclude_formats.iter())
                .any(|(l, f)| l == luid && *f == request.data_format.to_i32());
            if !excluded && formats.contains(&request.data_format) {
                luids.push(*luid);
                vendors.push(self.tag);
            }
        }
        ProbeResult { code: 0, desc_count: luids.len() as i32, luids, vendors }
    }
}

fn run(mut discovery: Discovery, nv: &MockBackend, amf: &MockBackend, mfx: &MockBackend) -> Discovery {
    while let Some(request) = discovery.next_request() {
        let backend = match request.driver {
            Driver::NV => nv,
            Driver::AMF => amf,
            Driver::MFX => mfx,
        };
        discovery.absorb(&backend.test(&request));
    }
    discovery
}

fn has_duplicate_claims(found: &[FeatureContext]) -> bool {
    for i in 0..found.len() {
        for j in (i + 1)..found.len() {
            if found[i].luid == found[j].luid && found[i].data_format == found[j].data_format {
                return true;
            }
        }
    }
    false
}

fn both() -> Vec<DataFormat> {
    vec![DataFormat::H264, DataFormat::H265]
}

fn encoders() -> Vec<InnerEncodeContext> {
    nv::possible_support_encoders(0)
}

fn context(driver: Driver, vendor: Driver, luid: i64, data_format: DataFormat) -> FeatureContext {
    FeatureContext { driver, vendor, luid, data_format }
}

#[test]
fn discovery_determinism() {
    let nv = MockBackend { tag: 0, adapters: vec![(100, both())] };
    let amf = MockBackend { tag: 1, adapters: vec![(100, vec![DataFormat::H264])] };
    let mfx = MockBackend { tag: 2, adapters: vec![] };
    for _ in 0..3 {
        let discovery = encode::discovery(&encoders(), &amf::possible_support_encoders(0), &Vec::new());
        let found = encode::available(run(discovery, &nv, &amf, &mfx));
        assert_eq!(
            found,
            vec![
                context(Driver::NV, Driver::NV, 100, DataFormat::H264),
                context(Driver::NV, Driver::NV, 100, DataFormat::H265),
            ]
        );
        assert!(!found
            .iter()
            .any(|c| c.driver == Driver::AMF && c.luid == 100 && c.data_format == DataFormat::H264));
    }
}

#[test]
fn no_duplicate_claims() {
    let nv = MockBackend { tag: 0, adapters: vec![(1, both()), (2, vec![DataFormat::H264])] };
    let amf = MockBackend { tag: 1, adapters: vec![(2, both()), (3, both()), (1, both())] };
    let mfx = MockBackend { tag: 2, adapters: vec![(3, both()), (4, vec![DataFormat::H265]), (2, both())] };
    let discovery = encode::discovery(
        &encoders(),
        &amf::possible_support_encoders(0),
        &mfx::possible_support_encoders(0),
    );
    let found = encode::available(run(discovery, &nv, &amf, &mfx));
    assert!(!has_duplicate_claims(&found));
    assert_eq!(
        found,
        vec![
            context(Driver::NV, Driver::NV, 1, DataFormat::H264),
            context(Driver::NV, Driver::NV, 2, DataFormat::H264),
            context(Driver::NV, Driver::NV, 1, DataFormat::H265),
            context(Driver::AMF, Driver::AMF, 3, DataFormat::H264),
            context(Driver::AMF, Driver::AMF, 2, DataFormat::H265),
            context(Driver::AMF, Driver::AMF, 3, DataFormat::H265),
            context(Driver::MFX, Driver::MFX, 4, DataFormat::H265),
        ]
    );
}

#[test]
fn a_backend_that_ignores_exclusions_can_claim_twice() {
    let mut discovery = encode::discovery(&encoders(), &amf::possible_support_encoders(0), &Vec::new());
    let report = ProbeResult { code: 0, desc_count: 1, luids: vec![100], vendors: vec![0] };
    while discovery.next_request().is_some() {
        discovery.absorb(&report);
    }
    let found = encode::available(discovery);
    assert_eq!(found.len(), 4);
    assert!(has_duplicate_claims(&found));
}

#[test]
fn requests_carry_the_exclusion_set() {
    let mut discovery = encode::discovery(&encoders(), &amf::possible_support_encoders(0), &Vec::new());
    assert_eq!(
        discovery.candidates(),
        &vec![
            Candidate { driver: Driver::NV, data_format: DataFormat::H264 },
            Candidate { driver: Driver::NV, data_format: DataFormat::H265 },
            Candidate { driver: Driver::AMF, data_format: DataFormat::H264 },
            Candidate { driver: Driver::AMF, data_format: DataFormat::H265 },
        ]
    );
    let request = discovery.next_request().unwrap();
    assert_eq!(
        request,
        ProbeRequest {
            driver: Driver::NV,
            data_format: DataFormat::H264,
            capacity: 16,
            excluded_luids: vec![],
            exclude_formats: vec![],
        }
    );
    assert_eq!(discovery.next_request(), Some(request));
    discovery.absorb(&ProbeResult {
        code: 0,
        desc_count: 2,
        luids: vec![7, 8, 9],
        vendors: vec![0, 1, 2],
    });
    let request = discovery.next_request().unwrap();
    assert_eq!(request.driver, Driver::NV);
    assert_eq!(request.data_format, DataFormat::H265);
    assert_eq!(request.excluded_luids, vec![7, 8]);
    assert_eq!(request.exclude_formats, vec![0, 0]);
    discovery.absorb(&ProbeResult { code: 0, desc_count: 1, luids: vec![7], vendors: vec![0] });
    let request = discovery.next_request().unwrap();
    assert_eq!(request.driver, Driver::AMF);
    assert_eq!(request.data_format, DataFormat::H264);
    assert_eq!(request.excluded_luids, vec![7, 8, 7]);
    assert_eq!(request.exclude_formats, vec![0, 0, 1]);
    assert_eq!(discovery.exclusions().len(), 3);
    assert!(discovery.exclusions().contains(8, 0));
    assert!(!discovery.exclusions().contains(8, 1));
    assert_eq!(
        discovery.outputs(),
        &vec![
            context(Driver::NV, Driver::NV, 7, DataFormat::H264),
            context(Driver::NV, Driver::AMF, 8, DataFormat::H264),
            context(Driver::NV, Driver::NV, 7, DataFormat::H265),
        ]
    );
}

#[test]
fn unknown_vendor_tags_are_passed_over() {
    let mut discovery = encode::discovery(&encoders(), &Vec::new(), &Vec::new());
    discovery.absorb(&ProbeResult {
        code: 0,
        desc_count: 4,
        luids: vec![1, 2, 3, 4],
        vendors: vec![2, 3, -1, 1],
    });
    assert_eq!(
        discovery.outputs(),
        &vec![
            context(Driver::NV, Driver::MFX, 1, DataFormat::H264),
            context(Driver::NV, Driver::AMF, 4, DataFormat::H264),
        ]
    );
    let request = discovery.next_request().unwrap();
    assert_eq!(request.excluded_luids, vec![1, 4]);
    assert_eq!(request.exclude_formats, vec![0, 0]);
}

#[test]
fn failed_or_overfull_probes_contribute_nothing() {
    let bad = [
        ProbeResult { code: -1, desc_count: 1, luids: vec![1], vendors: vec![0] },
        ProbeResult { code: 1, desc_count: 1, luids: vec![1], vendors: vec![0] },
        ProbeResult { code: 0, desc_count: -1, luids: vec![1], vendors: vec![0] },
        ProbeResult { code: 0, desc_count: 2, luids: vec![1], vendors: vec![0, 0] },
        ProbeResult { code: 0, desc_count: 2, luids: vec![1, 2], vendors: vec![0] },
        ProbeResult { code: 0, desc_count: 17, luids: (0..17).collect(), vendors: vec![0; 17] },
        ProbeResult { code: 0, desc_count: 0, luids: vec![1], vendors: vec![0] },
    ];
    for report in &bad {
        let mut discovery = encode::discovery(&encoders(), &Vec::new(), &Vec::new());
        discovery.absorb(report);
        assert!(discovery.outputs().is_empty());
        let request = discovery.next_request().unwrap();
        assert_eq!(request.data_format, DataFormat::H265);
        assert!(request.excluded_luids.is_empty());
    }
    let mut discovery = encode::discovery(&encoders(), &Vec::new(), &Vec::new());
    discovery.absorb(&ProbeResult {
        code: 0,
        desc_count: 16,
        luids: (0..16).collect(),
        vendors: vec![1; 16],
    });
    assert_eq!(discovery.outputs().len(), 16);
}

#[test]
fn absorbing_after_the_last_candidate_changes_nothing() {
    let mut discovery = encode::discovery(&encoders(), &Vec::new(), &Vec::new());
    let report = ProbeResult { code: 0, desc_count: 1, luids: vec![5], vendors: vec![0] };
    discovery.absorb(&report);
    discovery.absorb(&ProbeResult { code: -1, desc_count: 0, luids: vec![], vendors: vec![] });
    assert_eq!(discovery.next_request(), None);
    discovery.absorb(&report);
    assert_eq!(discovery.next_request(), None);
    assert_eq!(
        encode::available(discovery),
        vec![context(Driver::NV, Driver::NV, 5, DataFormat::H264)]
    );
}

#[test]
fn no_backend_means_nothing_found() {
    let mut discovery = encode::discovery(
        &nv::possible_support_encoders(-1),
        &amf::possible_support_encoders(-1),
        &mfx::possible_support_encoders(-1),
    );
    assert_eq!(discovery.next_request(), None);
    assert!(encode::available(discovery).is_empty());
}

#[test]
fn decode_discovery_passes_over_formats_without_a_clip() {
    let list = |formats: &[DataFormat]| {
        formats.iter().map(|f| InnerDecodeContext { data_format: *f }).collect::<Vec<_>>()
    };
    let nv_list = list(&[DataFormat::VP9, DataFormat::H264, DataFormat::AV1]);
    let mfx_list = list(&[DataFormat::VP8, DataFormat::H265, DataFormat::VP8]);
    let mut discovery = decode::discovery(&nv_list, &Vec::new(), &mfx_list);
    let mut probed = Vec::new();
    while let Some(request) = discovery.next_request() {
        probed.push((request.driver, request.data_format));
        discovery.absorb(&ProbeResult {
            code: 0,
            desc_count: 1,
            luids: vec![probed.len() as i64],
            vendors: vec![request.driver.to_i32()],
        });
    }
    assert_eq!(probed, vec![(Driver::NV, DataFormat::H264), (Driver::MFX, DataFormat::H265)]);
    assert_eq!(
        decode::available(discovery),
        vec![
            DecodeContext {
                device: None,
                driver: Driver::NV,
                vendor: Driver::NV,
                luid: 1,
                data_format: DataFormat::H264,
            },
            DecodeContext {
                device: None,
                driver: Driver::MFX,
                vendor: Driver::MFX,
                luid: 2,
                data_format: DataFormat::H265,
            },
        ]
    );

    let mut encode_run = Discovery::new(
        ProbeKind::Encode,
        &vec![DataFormat::VP9, DataFormat::H264],
        &Vec::new(),
        &Vec::new(),
    );
    assert_eq!(encode_run.next_request().unwrap().data_format, DataFormat::VP9);
}

#[test]
fn test_context_of_a_request() {
    let d = DynamicContext {
        device: Some(3),
        width: 1280,
        height: 720,
        kbitrate: 1000,
        framerate: 30,
        gop: i32::MAX,
    };
    let mut discovery = encode::discovery(&Vec::new(), &encoders(), &Vec::new());
    let request = discovery.next_request().unwrap();
    let ctx = encode::test_context(&request, d);
    assert_eq!(ctx.f, context(Driver::AMF, Driver::AMF, 0, DataFormat::H264));
    assert_eq!(ctx.d, d);
}

#[test]
fn exclusion_set_arrays() {
    let mut set = ExclusionSet::new();
    assert_eq!(set.len(), 0);
    assert!(!set.contains(0, 0));
    set.insert(100, 0);
    set.insert(-5, 1);
    set.insert(100, 1);
    assert_eq!(set.len(), 3);
    assert!(set.contains(100, 0) && set.contains(-5, 1) && set.contains(100, 1));
    assert!(!set.contains(-5, 0));
    assert!(!set.contains(1, 100));
    assert_eq!(set.unzip(), (vec![100, -5, 100], vec![0, 1, 1]));
    let (luids, formats) = set.unzip();
    assert_eq!(ExclusionSet::from_arrays(&luids, &formats), set);
    let short = ExclusionSet::from_arrays(&vec![1, 2, 3], &vec![0]);
    assert_eq!(short.unzip(), (vec![1], vec![0]));
    let short = ExclusionSet::from_arrays(&vec![1], &vec![0, 1, 1]);
    assert_eq!(short.unzip(), (vec![1], vec![0]));
}

#[test]
fn attempts_pass_within_the_timeout_only() {
    assert_eq!(PROBE_TIMEOUT_MS, 1000);
    assert!(encode_attempt_passed(0, 1, 0));
    assert!(encode_attempt_passed(0, 1, 999));
    assert!(!encode_attempt_passed(0, 1, 1000));
    assert!(!encode_attempt_passed(0, 0, 10));
    assert!(!encode_attempt_passed(0, 2, 10));
    assert!(!encode_attempt_passed(-1, 1, 10));
    assert!(decode_attempt_passed(0, 999));
    assert!(!decode_attempt_passed(0, 1000));
    assert!(!decode_attempt_passed(0, u64::MAX));
    assert!(!decode_attempt_passed(1, 0));
}

fn walk_all(mut walk: AdapterWalk, outcome: impl Fn(usize) -> bool) -> (Vec<usize>, ProbeResult) {
    let mut tried = Vec::new();
    while let Some(index) = walk.next_attempt() {
        tried.push(index);
        walk.report(outcome(index));
    }
    (tried, walk.finish())
}

#[test]
fn walk_skips_excluded_adapters() {
    let walk = AdapterWalk::new(
        Driver::AMF,
        DataFormat::H264,
        vec![10, 20, 30, 40],
        16,
        &vec![20, 40, 30],
        &vec![0, 1, 0],
    );
    let (tried, result) = walk_all(walk, |_| true);
    assert_eq!(tried, vec![0, 3]);
    assert_eq!(
        result,
        ProbeResult { code: 0, desc_count: 2, luids: vec![10, 40], vendors: vec![1, 1] }
    );
}

#[test]
fn walk_reports_what_passed_in_order() {
    let walk = AdapterWalk::new(Driver::MFX, DataFormat::H265, vec![5, 6, 7, 8], 16, &vec![], &vec![]);
    let (tried, result) = walk_all(walk, |index| index % 2 == 1);
    assert_eq!(tried, vec![0, 1, 2, 3]);
    assert_eq!(
        result,
        ProbeResult { code: 0, desc_count: 2, luids: vec![6, 8], vendors: vec![2, 2] }
    );
}

#[test]
fn walk_stops_when_the_report_is_full() {
    let walk = AdapterWalk::new(Driver::NV, DataFormat::H264, vec![1, 2, 3, 4, 5], 2, &vec![], &vec![]);
    let (tried, result) = walk_all(walk, |index| index != 1);
    assert_eq!(tried, vec![0, 1, 2]);
    assert_eq!(
        result,
        ProbeResult { code: 0, desc_count: 2, luids: vec![1, 3], vendors: vec![0, 0] }
    );
    for capacity in [0, -1, i32::MIN] {
        let walk = AdapterWalk::new(Driver::NV, DataFormat::H264, vec![1, 2], capacity, &vec![], &vec![]);
        let (tried, result) = walk_all(walk, |_| true);
        assert!(tried.is_empty());
        assert_eq!(result, ProbeResult { code: 0, desc_count: 0, luids: vec![], vendors: vec![] });
    }
}

#[test]
fn timeout_bound() {
    let adapters = vec![11, 22, 33];
    let mut walk = AdapterWalk::new(
        Driver::NV,
        DataFormat::H265,
        adapters.clone(),
        16,
        &adapters,
        &vec![1, 1, 1],
    );
    assert_eq!(walk.next_attempt(), None);
    walk.report(true);
    assert_eq!(walk.next_attempt(), None);
    assert_eq!(
        walk.finish(),
        ProbeResult { code: 0, desc_count: 0, luids: vec![], vendors: vec![] }
    );
    let mut empty = AdapterWalk::new(Driver::NV, DataFormat::H265, vec![], 16, &vec![], &vec![]);
    assert_eq!(empty.next_attempt(), None);
    assert_eq!(empty.finish().desc_count, 0);
}

#[test]
fn report_without_a_pending_adapter_is_ignored() {
    let mut walk = AdapterWalk::new(Driver::NV, DataFormat::H264, vec![1], 16, &vec![], &vec![]);
    walk.report(true);
    walk.report(true);
    walk.report(true);
    assert_eq!(
        walk.finish(),
        ProbeResult { code: 0, desc_count: 1, luids: vec![1], vendors: vec![0] }
    );
}

#[test]
fn walks_feed_discovery_without_duplicates() {
    let adapters: [(Driver, Vec<i64>); 3] =
        [(Driver::NV, vec![1, 2]), (Driver::AMF, vec![2, 3, 1]), (Driver::MFX, vec![3, 1, 4])];
    let mut discovery = encode::discovery(
        &encoders(),
        &amf::possible_support_encoders(0),
        &mfx::possible_support_encoders(0),
    );
    while let Some(request) = discovery.next_request() {
        let luids = adapters.iter().find(|(d, _)| *d == request.driver).unwrap().1.clone();
        let walk = AdapterWalk::new(
            request.driver,
            request.data_format,
            luids,
            request.capacity as i32,
            &request.excluded_luids,
            &request.exclude_formats,
        );
        let (_, result) = walk_all(walk, |_| true);
        discovery.absorb(&result);
    }
    let found = encode::available(discovery);
    assert!(!has_duplicate_claims(&found));
    assert_eq!(found.len(), 8);
    assert_eq!(found[0], context(Driver::NV, Driver::NV, 1, DataFormat::H264));
    assert_eq!(found[4], context(Driver::AMF, Driver::AMF, 3, DataFormat::H264));
    assert_eq!(found[5], context(Driver::AMF, Driver::AMF, 3, DataFormat::H265));
    assert_eq!(found[6], context(Driver::MFX, Driver::MFX, 4, DataFormat::H264));
}

#[test]
fn default_adapter_probes() {
    assert_eq!(DEFAULT_ADAPTER_LUID, 0);
    let one = |tag| ProbeResult { code: 0, desc_count: 1, luids: vec![0], vendors: vec![tag] };
    let none = ProbeResult { code: 0, desc_count: 0, luids: vec![], vendors: vec![] };
    assert_eq!(nv::nv_test_encode(true, 16, 0, &vec![], &vec![]), one(0));
    assert_eq!(nv::nv_test_decode(true, 16, 1, &vec![], &vec![]), one(0));
    assert_eq!(amf::amf_test_encode(true, 1, 0, &vec![], &vec![]), one(1));
    assert_eq!(amf::amf_test_decode(true, 1, 0, &vec![5], &vec![0]), one(1));
    assert_eq!(mfx::mfx_test_encode(true, 16, 1, &vec![0], &vec![0]), one(2));
    assert_eq!(mfx::mfx_test_decode(true, 16, 1, &vec![0, 0], &vec![0, 2]), one(2));

    assert_eq!(nv::nv_test_encode(false, 16, 0, &vec![], &vec![]), none);
    assert_eq!(nv::nv_test_decode(true, 0, 0, &vec![], &vec![]), none);
    assert_eq!(amf::amf_test_encode(true, -1, 0, &vec![], &vec![]), none);
    assert_eq!(amf::amf_test_decode(true, 16, 0, &vec![0], &vec![0]), none);
    assert_eq!(mfx::mfx_test_encode(true, 16, 1, &vec![7, 0], &vec![1, 1]), none);
    assert_eq!(mfx::mfx_test_decode(false, 16, 1, &vec![], &vec![]), none);
    assert_eq!(default_adapter_probe(Driver::AMF, true, 4, 9, &vec![0], &vec![8]), one(1));
    assert_eq!(default_adapter_probe(Driver::AMF, true, 4, 9, &vec![0, 0], &vec![8, 9]), none);
}

#[test]
fn default_adapter_backends_share_one_adapter() {
    let mut discovery = encode::discovery(
        &encoders(),
        &amf::possible_support_encoders(0),
        &mfx::possible_support_encoders(0),
    );
    while let Some(r) = discovery.next_request() {
        let format = r.data_format.to_i32();
        let capacity = r.capacity as i32;
        let result = match r.driver {
            Driver::NV => nv::nv_test_encode(false, capacity, format, &r.excluded_luids, &r.exclude_formats),
            Driver::AMF => amf::amf_test_encode(true, capacity, format, &r.excluded_luids, &r.exclude_formats),
            Driver::MFX => mfx::mfx_test_encode(true, capacity, format, &r.excluded_luids, &r.exclude_formats),
        };
        discovery.absorb(&result);
    }
    assert_eq!(
        encode::available(discovery),
        vec![
            context(Driver::AMF, Driver::AMF, 0, DataFormat::H264),
            context(Driver::AMF, Driver::AMF, 0, DataFormat::H265),
        ]
    );
}
