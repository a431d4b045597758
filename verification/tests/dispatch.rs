//! Choosing an encoder and a device.

use codec::config::EncoderConfig;
use codec::dispatch::{
    av1_encode_capable, backend_output_caps, build_output_caps, create_backend, encode_backends,
    ffmpeg_disable_flag, require_compiled, select_encoder, Attempt, BuildFeatures, Capability,
    CapabilityCache, EncoderBackend, Fallback, OutputCaps, Reach, SelectError, Selection,
};
use codec::gpu::{pick_vendor_device, vendor_index_of, GpuDevice, GpuVendor};

fn synth(index: u32, vendor: GpuVendor) -> GpuDevice {
    GpuDevice {
        index,
        vendor,
        name: format!("synthetic-{index}"),
        generation: String::new(),
        pci_id: String::new(),
        vram_mib: 0,
        serial: None,
        host_pci_address: String::new(),
        vendor_id_hex: String::new(),
        av1_encode: true,
    }
}

#[test]
fn pick_vendor_device_defaults_to_first_of_vendor_when_no_request() {
    let gpus =
        vec![synth(0, GpuVendor::Nvidia), synth(1, GpuVendor::Nvidia), synth(2, GpuVendor::Amd)];
    let nv = pick_vendor_device(&gpus, GpuVendor::Nvidia, None).unwrap();
    assert_eq!(nv.index, 0);
    let amd = pick_vendor_device(&gpus, GpuVendor::Amd, None).unwrap();
    assert_eq!(amd.index, 2);
}

#[test]
fn pick_vendor_device_honours_explicit_request() {
    let gpus = vec![
        synth(0, GpuVendor::Nvidia),
        synth(1, GpuVendor::Nvidia),
        synth(2, GpuVendor::Nvidia),
    ];
    let dev = pick_vendor_device(&gpus, GpuVendor::Nvidia, Some(1)).unwrap();
    assert_eq!(dev.index, 1);
    let dev2 = pick_vendor_device(&gpus, GpuVendor::Nvidia, Some(2)).unwrap();
    assert_eq!(dev2.index, 2);
}

#[test]
fn pick_vendor_device_returns_none_when_index_vendor_mismatch() {
    let gpus = vec![synth(0, GpuVendor::Nvidia), synth(2, GpuVendor::Amd)];
    assert!(pick_vendor_device(&gpus, GpuVendor::Nvidia, Some(2)).is_none());
    let dev = pick_vendor_device(&gpus, GpuVendor::Amd, Some(2)).unwrap();
    assert_eq!(dev.index, 2);
}

#[test]
fn pick_vendor_device_no_gpus_returns_none() {
    let gpus: Vec<GpuDevice> = vec![];
    assert!(pick_vendor_device(&gpus, GpuVendor::Nvidia, None).is_none());
    assert!(pick_vendor_device(&gpus, GpuVendor::Nvidia, Some(0)).is_none());
}

#[test]
fn encoder_config_default_has_no_gpu_pin() {
    let cfg = EncoderConfig::default();
    assert_eq!(cfg.gpu_index, None);
}

#[test]
fn vendor_indices_count_one_vendor_only() {
    let gpus = vec![
        synth(0, GpuVendor::Nvidia),
        synth(1, GpuVendor::Intel),
        synth(2, GpuVendor::Nvidia),
        synth(3, GpuVendor::Intel),
    ];
    assert_eq!(vendor_index_of(&gpus, 3), Some(1));
    assert_eq!(vendor_index_of(&gpus, 1), Some(0));
    assert_eq!(vendor_index_of(&gpus, 9), None);
}

fn all() -> BuildFeatures {
    BuildFeatures { nvidia: true, amd: true, qsv: true, ffmpeg: true }
}

fn none() -> BuildFeatures {
    BuildFeatures { nvidia: false, amd: false, qsv: false, ffmpeg: false }
}

#[test]
fn builds_say_what_they_can_produce() {
    let ten = OutputCaps { max_bit_depth: 10, hdr: true };
    for b in [EncoderBackend::Nvenc, EncoderBackend::Amf, EncoderBackend::Qsv] {
        assert_eq!(backend_output_caps(b), ten);
    }
    assert_eq!(build_output_caps(all()), ten);
    assert_eq!(build_output_caps(BuildFeatures { amd: true, ..none() }), ten);
    assert_eq!(build_output_caps(none()), OutputCaps { max_bit_depth: 8, hdr: false });
    assert_eq!(encode_backends(all()), ["nvenc", "amf", "qsv", "ffmpeg"]);
    assert_eq!(encode_backends(BuildFeatures { qsv: true, ..none() }), ["qsv"]);
    assert!(encode_backends(none()).is_empty());
    assert_eq!(require_compiled(all(), EncoderBackend::Amf), Ok(()));
    assert!(require_compiled(none(), EncoderBackend::Amf).unwrap_err().contains("`amd` feature"));
    assert!(require_compiled(none(), EncoderBackend::Qsv).unwrap_err().contains("`qsv` feature"));
    assert!(require_compiled(none(), EncoderBackend::Nvenc).unwrap_err().contains("`nvidia`"));
}

fn attempt(s: &Selection) -> (Attempt, Fallback) {
    match s {
        Selection::Attempting { attempt, fallback } => (*attempt, *fallback),
        Selection::Failed(e) => panic!("no attempt: {e:?}"),
    }
}

fn failure(s: Selection) -> SelectError {
    match s {
        Selection::Failed(e) => e,
        Selection::Attempting { attempt, .. } => panic!("still trying {attempt:?}"),
    }
}

fn hardware(backend: EncoderBackend, device: usize) -> Attempt {
    Attempt::Hardware { backend, device }
}

#[test]
fn the_chain_goes_from_libavcodec_through_the_vendors() {
    let gpus =
        vec![synth(0, GpuVendor::Intel), synth(1, GpuVendor::Amd), synth(2, GpuVendor::Nvidia)];
    let cfg = EncoderConfig::default();
    let mut s = select_encoder(&cfg, None, &gpus, true);
    for expected in [
        Attempt::Ffmpeg { reach: Reach::Any },
        hardware(EncoderBackend::Nvenc, 2),
        hardware(EncoderBackend::Amf, 1),
        hardware(EncoderBackend::Qsv, 0),
    ] {
        assert_eq!(attempt(&s).0, expected);
        s = s.after_failure(&cfg, &gpus, "no".to_string());
    }
    let e = failure(s);
    assert!(matches!(e, SelectError::NoEncoder));
    assert!(e.message(&gpus).starts_with("no AV1 GPU encoder available"));
}

#[test]
fn devices_without_the_silicon_are_passed_over() {
    let mut gpus = vec![synth(0, GpuVendor::Nvidia), synth(1, GpuVendor::Amd)];
    gpus[0].av1_encode = false;
    let cfg = EncoderConfig::default();
    let s = select_encoder(&cfg, None, &gpus, false);
    assert_eq!(attempt(&s).0, hardware(EncoderBackend::Amf, 1));
}

#[test]
fn a_pinned_vendor_is_never_left() {
    let gpus = vec![synth(0, GpuVendor::Nvidia), synth(1, GpuVendor::Amd)];
    let cfg = EncoderConfig { gpu_vendor: Some(GpuVendor::Amd), ..Default::default() };
    for ffmpeg in [true, false] {
        let s = select_encoder(&cfg, None, &gpus, ffmpeg);
        let pinned = (hardware(EncoderBackend::Amf, 1), Fallback::Pinned(GpuVendor::Amd));
        assert_eq!(attempt(&s), pinned, "libavcodec in use: {ffmpeg}");
    }
    let s = select_encoder(&cfg, None, &gpus, true);
    let e = failure(s.after_failure(&cfg, &gpus, "busy".to_string()));
    assert_eq!(
        e.message(&gpus),
        "vendor-pinned AV1 encoder init failed (vendor=Amd, gpu=synthetic-1, idx=1): busy"
    );

    let mut dull = gpus;
    dull[1].av1_encode = false;
    let e = failure(select_encoder(&cfg, None, &dull, true));
    assert_eq!(
        e.message(&dull),
        "vendor-pinned GPU lacks AV1 encode silicon (vendor=Amd, gpu=synthetic-1); GPU-only encode policy has no CPU fallback"
    );
    let cfg = EncoderConfig {
        gpu_vendor: Some(GpuVendor::Intel),
        gpu_index: Some(4),
        ..Default::default()
    };
    let e = failure(select_encoder(&cfg, None, &dull, true));
    assert_eq!(
        e.message(&dull),
        "vendor-pinned encoder requested (vendor=Intel, gpu_index=Some(4)) but no matching GPU found"
    );
}

#[test]
fn a_named_backend_is_tried_alone() {
    let gpus = vec![synth(0, GpuVendor::Nvidia), synth(1, GpuVendor::Intel)];
    let cfg = EncoderConfig::default();
    let s = select_encoder(&cfg, Some(EncoderBackend::Qsv), &gpus, true);
    assert_eq!(attempt(&s), (hardware(EncoderBackend::Qsv, 1), Fallback::Surface));
    let e = failure(s.after_failure(&cfg, &gpus, "init".to_string()));
    assert_eq!(e.message(&gpus), "init");

    let e = failure(create_backend(EncoderBackend::Amf, &cfg, &gpus));
    assert_eq!(e.message(&gpus), "AMF requested but no AMD GPU found");
    let cfg = EncoderConfig { gpu_index: Some(1), ..Default::default() };
    let e = failure(create_backend(EncoderBackend::Nvenc, &cfg, &gpus));
    assert_eq!(
        e.message(&gpus),
        "NVENC requested on GPU index 1 but no NVIDIA GPU with that index found"
    );
}

#[test]
fn a_device_is_probed_once() {
    let mut cache = CapabilityCache::new();
    let dev = synth(3, GpuVendor::Intel);
    match av1_encode_capable(&cache, &dev) {
        Capability::Probe(cfg) => {
            assert_eq!((cfg.width, cfg.height), (640, 480));
            assert_eq!(cfg.gpu_index, Some(3));
            assert_eq!(cfg.gpu_vendor, Some(GpuVendor::Intel));
        }
        Capability::Known(v) => panic!("never probed, yet {v}"),
    }
    cache.record(3, false);
    assert!(matches!(av1_encode_capable(&cache, &dev), Capability::Known(false)));
    assert!(matches!(
        av1_encode_capable(&cache, &synth(4, GpuVendor::Intel)),
        Capability::Probe(_)
    ));
}

#[test]
fn the_libavcodec_switch_reads_common_words() {
    for on in ["1", "true", "TRUE", "yes", "Yes"] {
        assert!(ffmpeg_disable_flag(Some(on)), "{on}");
    }
    for off in ["", "0", "false", "no", "2"] {
        assert!(!ffmpeg_disable_flag(Some(off)), "{off}");
    }
    assert!(!ffmpeg_disable_flag(None));
}

#[test]
fn libavcodec_is_bound_to_the_requested_device() {
    let gpus = vec![synth(7, GpuVendor::Nvidia), synth(2, GpuVendor::Intel)];
    let cfg = |i| EncoderConfig { gpu_index: Some(i), ..Default::default() };
    let first = |i| attempt(&select_encoder(&cfg(i), None, &gpus, true));
    assert_eq!(first(2), (Attempt::Ffmpeg { reach: Reach::Device(1) }, Fallback::Native));
    assert_eq!(first(7).0, Attempt::Ffmpeg { reach: Reach::Device(0) });
    assert_eq!(first(9).0, Attempt::Ffmpeg { reach: Reach::NoDevice });
    let s = select_encoder(&cfg(2), None, &gpus, true);
    let s = s.after_failure(&cfg(2), &gpus, "no".to_string());
    assert_eq!(attempt(&s).0, hardware(EncoderBackend::Qsv, 1));
}
