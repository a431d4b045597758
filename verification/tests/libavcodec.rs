//! The libavcodec path.

use bytes::Bytes;
use codec::config::EncoderConfig;
use codec::ffmpeg::options::{
    av1_encoder_preference, av_color_primaries, av_color_space, av_color_trc, binding_of,
    bound_encoder_preference, context_fields, encoder_input_fmt, encoder_named, set_quality_opts,
    tuning_rows, AvMatrix, AvPrimaries, AvTransfer, Binding, DeviceKind, LibavEncoder, OptionList,
    Probe, TuningRows, AV_PIX_FMT_NONE,
};
use codec::ffmpeg::session::{DrainAnswer, FfmpegEncoder, LibavError, PlanarBuffer};
use codec::frame::{transfer_to_cicp, PixelFormat, TransferFn, VideoFrame};
use codec::gpu::GpuVendor;
use codec::rate::FrameRate;
use codec::tuning::{
    libaom_cq_for_target, AmfAv1Params, AmfQualityPreset, AmfRateControl, NvencParams,
    NvencRateControl, QsvParams, QsvRateControl, QualityTarget, Rav1eParams, SpeedTier,
};

fn test_config() -> EncoderConfig {
    EncoderConfig {
        width: 320,
        height: 240,
        frame_rate: FrameRate { nanos: 24_000_000_000 },
        keyframe_interval: 48,
        ..Default::default()
    }
}

fn rows() -> TuningRows {
    TuningRows {
        nvenc: NvencParams {
            cq: 30,
            rc_mode: NvencRateControl::VbrTargetQuality,
            preset_guid: [0; 16],
            tuning_info: 1,
            lookahead_depth: 20,
            aq_strength: 8,
            num_tile_columns: 1,
            num_tile_rows: 1,
        },
        amf: AmfAv1Params {
            rc_mode: AmfRateControl::QualityVbr,
            quality_preset: AmfQualityPreset::Quality,
            q_index_intra: 120,
            q_index_inter: 128,
            qvbr_quality: 30,
            aq_mode: 1,
            tiles_per_frame: 1,
        },
        qsv: QsvParams {
            rc_mode: QsvRateControl::Icq,
            icq_quality: 26,
            qp_i: 128,
            qp_p: 136,
            target_usage: 4,
            low_power: 0,
            num_tile_columns: 1,
            num_tile_rows: 1,
        },
        rav1e: Rav1eParams { quantizer: 100, speed_preset: 6, tile_rows: 2, tile_cols: 4 },
        libaom_cq: libaom_cq_for_target(QualityTarget::Standard).unwrap(),
    }
}

fn value<'a>(l: &'a OptionList, key: &str) -> Option<&'a str> {
    l.items.iter().find(|o| o.key == key).map(|o| o.value.as_str())
}

#[test]
fn priority_list_starts_with_hw() {
    let preference = av1_encoder_preference(None);
    assert_eq!(preference[0], "av1_nvenc");
    assert_eq!(preference[1], "av1_amf");
    assert_eq!(preference[2], "av1_qsv");
    assert!(preference.contains(&"libsvtav1".to_string()));
    assert!(preference.contains(&"librav1e".to_string()));
}

#[test]
fn transfer_to_cicp_round_trip() {
    assert_eq!(transfer_to_cicp(TransferFn::Bt709), 1);
    assert_eq!(transfer_to_cicp(TransferFn::St2084), 16);
    assert_eq!(transfer_to_cicp(TransferFn::AribStdB67), 18);
}

#[test]
fn set_quality_opts_pulls_cq_from_tuning_adapter_for_nvenc() {
    let config = test_config();
    let expected = rows().nvenc;
    assert_eq!(expected.cq, 30);
    let l = set_quality_opts("av1_nvenc", &config, &rows());
    assert_eq!(value(&l, "cq"), Some("30"));
    assert_eq!(value(&l, "rc"), Some("vbr"));
}

#[test]
fn set_quality_opts_pulls_crf_from_libaom_cq_for_svt_and_libaom() {
    assert_eq!(libaom_cq_for_target(QualityTarget::VisuallyLossless), Some(20));
    assert_eq!(libaom_cq_for_target(QualityTarget::High), Some(27));
    assert_eq!(libaom_cq_for_target(QualityTarget::Standard), Some(32));
    assert_eq!(libaom_cq_for_target(QualityTarget::Low), Some(38));
    for name in ["libsvtav1", "libaom-av1"] {
        let l = set_quality_opts(name, &test_config(), &rows());
        assert_eq!(value(&l, "crf"), Some("32"), "{name}");
    }
}

#[test]
fn construct_encoder_smoke() {
    let preference = av1_encoder_preference(None);
    for opens in ["av1_nvenc", "libsvtav1", "librav1e"] {
        let mut probe = Probe::new(None);
        let name = loop {
            match probe.next() {
                Ok(n) if n == opens => break n.to_string(),
                Ok(_) => {}
                Err(e) => panic!("{e}"),
            }
            probe.failed("Encoder not found");
        };
        let enc = FfmpegEncoder::new(&name, 320, 240, PixelFormat::Yuv420p);
        let name = enc.engaged().to_string();
        assert!(preference.contains(&name), "engaged encoder {name} not in priority list");
    }
}

#[test]
fn encoder_env_override_forces_specific_backend() {
    let mut probe = Probe::new(Some("libsvtav1"));
    let name = probe.next().unwrap().to_string();
    let enc = FfmpegEncoder::new(&name, 320, 240, PixelFormat::Yuv420p);
    assert_eq!(enc.engaged(), "libsvtav1");
    probe.failed("not in this build");
    let e = probe.next().unwrap_err();
    assert!(e.ends_with("could open. Last error: libsvtav1: not in this build"), "{e}");
}

#[test]
fn every_encoder_has_its_options() {
    let cfg = test_config();
    let l = set_quality_opts("librav1e", &cfg, &rows());
    let all: Vec<(&str, &str)> = l.items.iter().map(|o| (o.key, o.value.as_str())).collect();
    assert_eq!(all, [("qp", "100"), ("speed", "6"), ("tile-rows", "2"), ("tile-columns", "4")]);
    let l = set_quality_opts("av1_vaapi", &cfg, &rows());
    assert_eq!(value(&l, "qp"), Some("128"), "small pictures use the QSV row");
    let wide = EncoderConfig { width: 1920, ..test_config() };
    assert_eq!(value(&set_quality_opts("av1_vaapi", &wide, &rows()), "qp"), Some("120"));
    let draft = EncoderConfig { tier: SpeedTier::Draft, ..test_config() };
    assert_eq!(value(&set_quality_opts("libsvtav1", &draft, &rows()), "preset"), Some("10"));
    assert_eq!(value(&set_quality_opts("libaom-av1", &draft, &rows()), "cpu-used"), Some("8"));
    assert!(!set_quality_opts("av1_qsv", &cfg, &rows()).items.is_empty());
    assert!(!set_quality_opts("av1_amf", &cfg, &rows()).items.is_empty());
    assert!(set_quality_opts("h264_nvenc", &cfg, &rows()).items.is_empty());
    assert_eq!(encoder_named("libaom-av1"), Some(LibavEncoder::Aom));
    assert_eq!(encoder_named("libaom"), None);
}

#[test]
fn contexts_follow_the_configuration() {
    let f = context_fields(&test_config());
    assert_eq!((f.width, f.height, f.framerate, f.gop_size), (320, 240, 24, 48));
    assert_eq!(f.bit_rate, 1_500_000);
    let big = EncoderConfig { width: 40_000, height: 30_000, ..test_config() };
    assert_eq!(context_fields(&big).bit_rate, 6_000_000);
    assert_eq!(av_color_primaries(9), AvPrimaries::Bt2020);
    assert_eq!(av_color_primaries(77), AvPrimaries::Bt709);
    assert_eq!(av_color_trc(TransferFn::St2084), AvTransfer::Smpte2084);
    assert_eq!(av_color_space(9), AvMatrix::Bt2020Ncl);
}

#[test]
fn the_wanted_format_is_kept_where_it_is_listed() {
    assert_eq!(encoder_input_fmt(None, 7), 7);
    assert_eq!(encoder_input_fmt(Some(&[3, 7]), 7), 7);
    assert_eq!(encoder_input_fmt(Some(&[3, 4]), 7), 3);
    assert_eq!(encoder_input_fmt(Some(&[]), 7), AV_PIX_FMT_NONE);
}

fn buffer() -> PlanarBuffer {
    PlanarBuffer {
        y: vec![0xee; 12],
        u: vec![0xee; 3],
        v: vec![0xee; 3],
        y_stride: 6,
        u_stride: 3,
        v_stride: 3,
    }
}

#[test]
fn pictures_are_copied_and_numbered() {
    let mut enc = FfmpegEncoder::new("libsvtav1", 4, 2, PixelFormat::Yuv420p);
    let f = VideoFrame::new(Bytes::from((1..=12).collect::<Vec<u8>>()), 4, 2, PixelFormat::Yuv420p, 90);
    let mut b = buffer();
    assert_eq!(enc.send_frame(&f, &mut b), Ok(0), "timestamps count pictures");
    assert_eq!(b.y, [1, 2, 3, 4, 0xee, 0xee, 5, 6, 7, 8, 0xee, 0xee]);
    assert_eq!(b.u, [9, 10, 0xee]);
    assert_eq!(b.v, [11, 12, 0xee]);
    assert_eq!(enc.send_frame(&f, &mut b), Ok(1));

    let short = VideoFrame::new(Bytes::from(vec![0u8; 11]), 4, 2, PixelFormat::Yuv420p, 0);
    let e = enc.send_frame(&short, &mut b).unwrap_err();
    assert_eq!(e, LibavError::TooSmall { have: 11, need: 12 });
    assert_eq!(e.message(), "FFmpeg encoder: frame buffer too small (11 < expected 12)");

    assert!(enc.needs_flush());
    enc.flushed();
    assert!(!enc.needs_flush() && enc.drain_first());
    let e = enc.send_frame(&f, &mut b).unwrap_err();
    assert_eq!(e.message(), "FFmpeg encoder: send_frame after flush");
}

#[test]
fn packets_keep_their_order_and_stamps() {
    let mut enc = FfmpegEncoder::new("libsvtav1", 4, 2, PixelFormat::Yuv420p);
    let f = VideoFrame::new(Bytes::from(vec![0u8; 12]), 4, 2, PixelFormat::Yuv420p, 0);
    enc.send_frame(&f, &mut buffer()).unwrap();
    let packet = |data: Option<Vec<u8>>, pts, is_key| DrainAnswer::Packet { data, pts, is_key };
    assert!(enc.drained(packet(Some(vec![1]), Some(5), true)));
    assert!(enc.drained(packet(Some(vec![2]), None, false)));
    assert!(enc.drained(packet(Some(vec![3]), Some(-4), false)));
    assert!(enc.drained(packet(Some(Vec::new()), Some(6), false)), "no bytes, no packet");
    assert!(enc.drained(packet(None, Some(7), false)));
    assert!(!enc.drained(DrainAnswer::Again));
    assert!(!enc.drained(DrainAnswer::Eof));
    assert!(!enc.needs_flush());
    let mut seen = Vec::new();
    while let Some(p) = enc.receive_packet() {
        seen.push((p.data[0], p.pts, p.is_keyframe));
    }
    assert_eq!(seen, [(1, 5, true), (2, 1, false), (3, 0, false)]);
}

#[test]
fn a_requested_device_leaves_out_what_cannot_run_on_it() {
    let software = ["libsvtav1", "libaom-av1", "librav1e"];
    for (device, hardware) in [
        (Some(GpuVendor::Nvidia), vec!["av1_nvenc"]),
        (Some(GpuVendor::Amd), vec!["av1_amf", "av1_vaapi"]),
        (Some(GpuVendor::Intel), vec!["av1_qsv", "av1_vaapi"]),
        (None, vec![]),
    ] {
        let mut expected = hardware;
        expected.extend(software);
        assert_eq!(bound_encoder_preference(None, device), expected);
        let mut probe = Probe::bound(None, device);
        for name in expected {
            assert_eq!(probe.next().unwrap(), name);
            probe.failed("no");
        }
        assert!(probe.next().is_err());
        assert_eq!(Probe::bound(Some("av1_nvenc"), device).next().unwrap(), "av1_nvenc");
    }
}

#[test]
fn encoders_are_bound_by_their_own_interface() {
    let amd = Some(GpuVendor::Amd);
    assert_eq!(binding_of("av1_nvenc", Some(GpuVendor::Nvidia)), Binding::By(DeviceKind::Cuda));
    assert_eq!(binding_of("av1_amf", amd), Binding::By(DeviceKind::D3d11));
    assert_eq!(binding_of("av1_qsv", Some(GpuVendor::Intel)), Binding::By(DeviceKind::Qsv));
    assert_eq!(binding_of("av1_vaapi", amd), Binding::By(DeviceKind::Vaapi));
    assert_eq!(binding_of("av1_nvenc", amd), Binding::Impossible);
    assert_eq!(binding_of("av1_vaapi", None), Binding::Impossible);
    assert_eq!(binding_of("librav1e", amd), Binding::Unbound);
    assert_eq!(binding_of("somebody_elses", amd), Binding::Unbound);
}

#[test]
fn the_reference_level_is_the_targets() {
    let r = rows();
    let level = |target| {
        let c = EncoderConfig { target, ..test_config() };
        tuning_rows(&c, r.nvenc, r.amf, r.qsv, r.rav1e, 55).libaom_cq
    };
    assert_eq!(level(QualityTarget::VisuallyLossless), 20);
    assert_eq!(level(QualityTarget::Low), 38);
    assert_eq!(level(QualityTarget::Vmaf(80)), 55);
}
