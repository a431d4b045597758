//! The properties an AMF component is configured with.

use std::collections::HashMap;

use codec::amf::api::AmfVariant;
use codec::amf::error::AmfError;
use codec::amf::properties::{
    av1_properties, av1_quality_preset, avc_properties, avc_quality_preset, check_h26x_format,
    effective_keyframe_interval, h264_level_for, h265_level_for, h26x_quant, hevc_properties,
    hevc_quality_preset, qvbr_bitrate_ceiling, Configured, H26xQuant,
};
use codec::amf::session::component_properties;
use codec::config::{EncoderConfig, AUTO_FROM_TARGET};
use codec::frame::{ColorMetadata, PixelFormat, TransferFn, VideoCodec};
use codec::rate::FrameRate;
use codec::tuning::{
    amf_h26x_params_with, AmfAv1Params, AmfH26xParams, AmfQualityPreset, AmfRateControl,
    QualityTarget, SpeedTier,
};

fn fps(f: f64) -> FrameRate {
    if f.is_finite() && f > 0.0 {
        FrameRate { nanos: (f * 1e9).round() as u64 }
    } else {
        FrameRate { nanos: 0 }
    }
}

fn config(codec: VideoCodec, pixel_format: PixelFormat) -> EncoderConfig {
    EncoderConfig {
        width: 1920,
        height: 1080,
        frame_rate: fps(30.0),
        codec,
        pixel_format,
        keyframe_interval: 120,
        ..Default::default()
    }
}

/// The table's quantiser for a target.
fn base_qp(target: QualityTarget) -> u8 {
    match target {
        QualityTarget::VisuallyLossless => 18,
        _ => 26,
    }
}

fn row(cfg: &EncoderConfig) -> AmfH26xParams {
    let target = cfg.overrides.quality_target.unwrap_or(cfg.target);
    amf_h26x_params_with(base_qp(target), target, cfg.tier, &cfg.overrides)
}

/// The table's AV1 row for `Standard` at 1080p.
fn av1_row() -> AmfAv1Params {
    AmfAv1Params {
        rc_mode: AmfRateControl::QualityVbr,
        quality_preset: AmfQualityPreset::Quality,
        q_index_intra: 120,
        q_index_inter: 128,
        qvbr_quality: 30,
        aq_mode: 1,
        tiles_per_frame: 4,
    }
}

fn quant(cfg: &EncoderConfig) -> H26xQuant {
    h26x_quant(cfg, &row(cfg))
}

struct Recorded {
    order: Vec<String>,
    map: HashMap<String, AmfVariant>,
    summary: String,
}

fn record(done: Configured) -> Recorded {
    let order = done.properties.items.iter().map(|p| p.name.to_string()).collect();
    let map = done.properties.items.iter().map(|p| (p.name.to_string(), p.value)).collect();
    Recorded { order, map, summary: done.summary }
}

fn run_avc(cfg: &EncoderConfig) -> Recorded {
    record(avc_properties(cfg, &row(cfg)).unwrap())
}

fn run_hevc(cfg: &EncoderConfig) -> Recorded {
    record(hevc_properties(cfg, &row(cfg)).unwrap())
}

fn run_av1(cfg: &EncoderConfig) -> Recorded {
    record(av1_properties(cfg, &av1_row()))
}

impl Recorded {
    fn get(&self, name: &str) -> AmfVariant {
        match self.map.get(name) {
            Some(v) => *v,
            None => panic!("property {name} was not set; set: {:?}", self.order),
        }
    }
    fn int64(&self, name: &str) -> i64 {
        self.get(name).as_int64().unwrap()
    }
    fn bool_(&self, name: &str) -> bool {
        self.get(name).as_bool().unwrap()
    }
    fn rate(&self, name: &str) -> (u32, u32) {
        self.get(name).as_rate().unwrap()
    }
    fn has(&self, name: &str) -> bool {
        self.map.contains_key(name)
    }
}

#[test]
fn h264_levels_by_size_and_rate() {
    assert_eq!(h264_level_for(1920, 1080, fps(30.0)).amf_value, 40);
    assert_eq!(h264_level_for(1920, 1080, fps(60.0)).amf_value, 42);
    assert_eq!(h264_level_for(3840, 2160, fps(30.0)).amf_value, 51);
    assert_eq!(h264_level_for(3840, 2160, fps(60.0)).amf_value, 52);
    assert_eq!(h264_level_for(1280, 720, fps(30.0)).amf_value, 31);
    assert_eq!(h264_level_for(640, 480, fps(30.0)).amf_value, 30, "the table starts at 3.0");
    assert_eq!(h264_level_for(7680, 4320, fps(120.0)).amf_value, 62, "8K120 tops out at 6.2");
    assert_eq!(h264_level_for(1920, 1080, fps(30.0)).max_bitrate, 25_000_000);
}

#[test]
fn h265_levels_by_size_and_rate() {
    assert_eq!(h265_level_for(1920, 1080, fps(30.0)).amf_value, 120);
    assert_eq!(h265_level_for(1920, 1080, fps(60.0)).amf_value, 123);
    assert_eq!(h265_level_for(3840, 2160, fps(30.0)).amf_value, 150);
    assert_eq!(h265_level_for(3840, 2160, fps(60.0)).amf_value, 153);
    assert_eq!(h265_level_for(1280, 720, fps(30.0)).amf_value, 93);
    assert_eq!(h265_level_for(7680, 4320, fps(120.0)).amf_value, 186, "8K120 tops out at 6.2");
    assert_eq!(h265_level_for(3840, 2160, fps(60.0)).max_bitrate, 40_000_000, "5.1 Main tier");
}

#[test]
fn pictures_past_the_table_get_its_last_row() {
    assert_eq!(h264_level_for(30_000, 30_000, fps(300.0)).amf_value, 62);
    assert_eq!(h265_level_for(30_000, 30_000, fps(300.0)).amf_value, 186);
}

#[test]
fn qvbr_ceiling_scales_floors_and_caps() {
    assert_eq!(qvbr_bitrate_ceiling(1920, 1080, fps(30.0), None), 15_552_000);
    assert_eq!(qvbr_bitrate_ceiling(320, 240, fps(15.0), None), 2_000_000, "floor");
    assert_eq!(qvbr_bitrate_ceiling(3840, 2160, fps(60.0), None), 124_416_000);
    assert_eq!(
        qvbr_bitrate_ceiling(3840, 2160, fps(60.0), Some(40_000_000)),
        40_000_000,
        "level cap"
    );
    assert_eq!(qvbr_bitrate_ceiling(1920, 1080, fps(f64::NAN), None), 15_552_000, "bad fps → 30");
}

#[test]
fn h26x_quant_from_target_and_tier() {
    let q = quant(&config(VideoCodec::H264, PixelFormat::Yuv420p));
    assert_eq!(q.rc, AmfRateControl::QualityVbr);
    assert_eq!((q.qp_i, q.qp_p, q.qvbr_level), (26, 28, 26));
    assert_eq!(q.preset, AmfQualityPreset::Quality);

    let mut cfg = config(VideoCodec::H265, PixelFormat::Yuv420p);
    cfg.target = QualityTarget::VisuallyLossless;
    cfg.tier = SpeedTier::Archive;
    let q = quant(&cfg);
    assert_eq!(q.rc, AmfRateControl::Cqp);
    assert_eq!((q.qp_i, q.qp_p, q.qvbr_level), (18, 20, 18));
    assert_eq!(q.preset, AmfQualityPreset::HighQuality);

    cfg.tier = SpeedTier::Draft;
    assert_eq!(quant(&cfg).preset, AmfQualityPreset::Balanced);
}

#[test]
fn h26x_quant_legacy_crf_and_constant_qp() {
    let mut cfg = config(VideoCodec::H264, PixelFormat::Yuv420p);
    cfg.quality = 20;
    let q = quant(&cfg);
    assert_eq!((q.qp_i, q.qp_p, q.qvbr_level), (20, 22, 20));
    assert_eq!(q.rc, AmfRateControl::QualityVbr, "a CRF alone does not change the mode");

    cfg.quality = 0;
    let q = quant(&cfg);
    assert_eq!((q.qp_i, q.qp_p, q.qvbr_level), (0, 2, 1), "QVBR level is 1-51, QP may be 0");

    cfg.quality = 80;
    assert_eq!(quant(&cfg).qp_i, 51, "clamped to the codec's scale");

    cfg.quality = AUTO_FROM_TARGET;
    cfg.constant_qp = true;
    assert_eq!(quant(&cfg).rc, AmfRateControl::Cqp);
}

#[test]
fn h26x_quant_applies_overrides() {
    let mut cfg = config(VideoCodec::H265, PixelFormat::Yuv420p);
    cfg.overrides.quality_delta = 4;
    let q = quant(&cfg);
    assert_eq!((q.qp_i, q.qp_p, q.qvbr_level), (30, 32, 30));
    cfg.overrides.quality_delta = -40;
    let q = quant(&cfg);
    assert_eq!((q.qp_i, q.qp_p, q.qvbr_level), (0, 0, 1), "clamped, QVBR floor is 1");
    cfg.overrides.quality_delta = 0;
    cfg.overrides.speed_tier = Some(SpeedTier::Archive);
    assert_eq!(quant(&cfg).preset, AmfQualityPreset::HighQuality);
}

#[test]
fn h26x_format_check_refuses_by_name() {
    assert!(check_h26x_format(VideoCodec::H264, PixelFormat::Yuv420p).is_ok());
    let e = check_h26x_format(VideoCodec::H264, PixelFormat::Yuv420p10le).unwrap_err();
    assert!(e.message().contains("8-bit"), "{}", e.message());
    assert!(check_h26x_format(VideoCodec::H265, PixelFormat::Yuv420p).is_ok());
    assert!(check_h26x_format(VideoCodec::H265, PixelFormat::Yuv420p10le).is_ok());
    assert!(check_h26x_format(VideoCodec::H265, PixelFormat::Yuv444p10le).is_err());
    assert!(check_h26x_format(VideoCodec::Av1, PixelFormat::Yuv420p).is_err());
}

#[test]
fn effective_keyframe_interval_defaults_zero_to_240() {
    assert_eq!(effective_keyframe_interval(0), 240);
    assert_eq!(effective_keyframe_interval(48), 48);
}

#[test]
fn quality_presets_are_numbered_per_codec() {
    let all = [
        AmfQualityPreset::HighQuality,
        AmfQualityPreset::Quality,
        AmfQualityPreset::Balanced,
        AmfQualityPreset::Speed,
    ];
    assert_eq!(all.map(avc_quality_preset), [3, 2, 0, 1]);
    assert_eq!(all.map(hevc_quality_preset), [15, 0, 5, 10]);
    assert_eq!(all.map(av1_quality_preset), [0, 30, 70, 100]);
}

#[test]
fn avc_property_sequence_matches_header() {
    let cfg = config(VideoCodec::H264, PixelFormat::Yuv420p);
    let r = run_avc(&cfg);

    assert_eq!(r.order[0], "Usage", "USAGE first: it fully configures the parameter set");
    assert_eq!(r.int64("Usage"), 0, "AMF_VIDEO_ENCODER_USAGE_TRANSCODING");
    assert_eq!(r.int64("Profile"), 100, "AMF_VIDEO_ENCODER_PROFILE_HIGH");
    assert_eq!(r.int64("ProfileLevel"), 40, "AMF_H264_LEVEL__4");
    assert_eq!(r.int64("QualityPreset"), 2, "AMF_VIDEO_ENCODER_QUALITY_PRESET_QUALITY");
    assert_eq!(r.int64("CABACEnable"), 1, "AMF_VIDEO_ENCODER_CABAC");
    assert_eq!(r.rate("FrameRate"), (30, 1));
    assert_eq!(r.int64("BPicturesPattern"), 0, "no B frames");
    assert_eq!(r.int64("IDRPeriod"), 120);
    assert_eq!(r.int64("OutputMode"), 0, "AMF_VIDEO_ENCODER_OUTPUT_MODE_FRAME");
    assert_eq!(r.int64("RateControlMethod"), 4, "AMF_VIDEO_ENCODER_RATE_CONTROL_METHOD_QUALITY_VBR");
    assert_eq!(r.int64("QvbrQualityLevel"), 26);
    assert_eq!(r.int64("TargetBitrate"), 15_552_000);
    assert_eq!(r.int64("PeakBitrate"), 15_552_000);
    assert_eq!(r.int64("VBVBufferSize"), 15_552_000);
    assert!(r.bool_("EnforceHRD"), "the ceiling is enforced");
    assert!(!r.bool_("FillerDataEnable"));
    assert_eq!((r.int64("QPI"), r.int64("QPP"), r.int64("QPB")), (26, 28, 28));
    assert_eq!(r.int64("ColorBitDepth"), 8, "AMF_COLOR_BIT_DEPTH_8 is the literal 8");
    assert!(!r.bool_("FullRangeColor"));
    assert_eq!(r.int64("InColorProfile"), 1, "AMF_VIDEO_CONVERTER_COLOR_PROFILE_709");
    assert_eq!(r.int64("OutColorProfile"), 1);
    assert_eq!(r.int64("InColorTransferChar"), 1);
    assert_eq!(r.int64("OutColorTransferChar"), 1);
    assert_eq!(r.int64("InColorPrimaries"), 1);
    assert_eq!(r.int64("OutColorPrimaries"), 1);
    assert!(!r.has("HevcUsage") && !r.has("Av1Usage"), "no other codec's names");
    assert!(r.summary.contains("level=40"), "{}", r.summary);
}

#[test]
fn avc_cqp_sets_no_bitrate_constraints() {
    let mut cfg = config(VideoCodec::H264, PixelFormat::Yuv420p);
    cfg.target = QualityTarget::VisuallyLossless;
    let r = run_avc(&cfg);
    assert_eq!(r.int64("RateControlMethod"), 0, "AMF_VIDEO_ENCODER_RATE_CONTROL_METHOD_CONSTANT_QP");
    assert!(!r.has("QvbrQualityLevel"));
    assert!(!r.has("TargetBitrate") && !r.has("PeakBitrate") && !r.has("VBVBufferSize"));
    assert!(!r.has("EnforceHRD"));
    assert_eq!((r.int64("QPI"), r.int64("QPP")), (18, 20));
}

#[test]
fn avc_refuses_ten_bit() {
    let cfg = config(VideoCodec::H264, PixelFormat::Yuv420p10le);
    let err = avc_properties(&cfg, &row(&cfg)).unwrap_err();
    assert!(err.message().contains("8-bit"), "{}", err.message());
}

#[test]
fn hevc_property_sequence_matches_header() {
    let cfg = config(VideoCodec::H265, PixelFormat::Yuv420p);
    let r = run_hevc(&cfg);

    assert_eq!(r.order[0], "HevcUsage");
    assert_eq!(r.int64("HevcUsage"), 0, "AMF_VIDEO_ENCODER_HEVC_USAGE_TRANSCODING");
    assert_eq!(r.int64("HevcProfile"), 1, "AMF_VIDEO_ENCODER_HEVC_PROFILE_MAIN");
    assert_eq!(r.int64("HevcTier"), 0, "AMF_VIDEO_ENCODER_HEVC_TIER_MAIN");
    assert_eq!(r.int64("HevcProfileLevel"), 120, "AMF_LEVEL_4");
    assert_eq!(r.int64("HevcQualityPreset"), 0, "AMF_VIDEO_ENCODER_HEVC_QUALITY_PRESET_QUALITY");
    assert_eq!(r.rate("HevcFrameRate"), (30, 1));
    assert_eq!(r.int64("HevcGOPSize"), 120);
    assert_eq!(r.int64("HevcGOPSPerIDR"), 1);
    assert_eq!(r.int64("HevcHeaderInsertionMode"), 2, "IDR_ALIGNED");
    assert_eq!(r.int64("HevcOutputMode"), 0);
    assert_eq!(
        r.int64("HevcRateControlMethod"),
        4,
        "AMF_VIDEO_ENCODER_HEVC_RATE_CONTROL_METHOD_QUALITY_VBR"
    );
    assert_eq!(r.int64("HevcQvbrQualityLevel"), 26);
    assert_eq!(r.int64("HevcTargetBitrate"), 12_000_000);
    assert_eq!(r.int64("HevcPeakBitrate"), 12_000_000);
    assert_eq!(r.int64("HevcVBVBufferSize"), 12_000_000);
    assert!(r.bool_("HevcEnforceHRD"));
    assert!(!r.bool_("HevcFillerDataEnable"));
    assert_eq!((r.int64("HevcQP_I"), r.int64("HevcQP_P")), (26, 28));
    assert_eq!(r.int64("HevcColorBitDepth"), 8);
    assert_eq!(r.int64("HevcNominalRange"), 0, "STUDIO");
    assert_eq!(r.int64("HevcInColorProfile"), 1);
    assert_eq!(r.int64("HevcOutColorProfile"), 1);
    assert_eq!(r.int64("HevcInColorTransferChar"), 1);
    assert_eq!(r.int64("HevcOutColorTransferChar"), 1);
    assert_eq!(r.int64("HevcInColorPrimaries"), 1);
    assert_eq!(r.int64("HevcOutColorPrimaries"), 1);
    assert!(!r.has("QPI") && !r.has("Usage"), "no AVC names");
    assert!(r.summary.contains("profile=Main "), "{}", r.summary);
}

#[test]
fn hevc_main10_hdr_property_sequence() {
    let mut cfg = config(VideoCodec::H265, PixelFormat::Yuv420p10le);
    cfg.width = 3840;
    cfg.height = 2160;
    cfg.frame_rate = fps(60.0);
    cfg.color_metadata = ColorMetadata {
        transfer: TransferFn::St2084,
        matrix_coefficients: 9,
        colour_primaries: 9,
        full_range: true,
        mastering_display: None,
        content_light_level: None,
    };
    let r = run_hevc(&cfg);
    assert_eq!(r.int64("HevcProfile"), 2, "AMF_VIDEO_ENCODER_HEVC_PROFILE_MAIN_10");
    assert_eq!(r.int64("HevcColorBitDepth"), 10);
    assert_eq!(r.int64("HevcProfileLevel"), 153, "AMF_LEVEL_5_1");
    assert_eq!(r.int64("HevcPeakBitrate"), 40_000_000);
    assert_eq!(r.int64("HevcNominalRange"), 1, "FULL");
    assert_eq!(r.int64("HevcOutColorProfile"), 8, "FULL_2020");
    assert_eq!(r.int64("HevcInColorProfile"), 8);
    assert_eq!(r.int64("HevcOutColorTransferChar"), 16, "ST 2084 / PQ");
    assert_eq!(r.int64("HevcOutColorPrimaries"), 9, "BT.2020");
    assert!(r.summary.contains("profile=Main10"), "{}", r.summary);
}

#[test]
fn av1_property_sequence_matches_header() {
    let cfg = config(VideoCodec::Av1, PixelFormat::Yuv420p);
    let r = run_av1(&cfg);
    assert_eq!(r.order[0], "Av1Usage");
    assert_eq!(r.int64("Av1Usage"), 0);
    assert_eq!(r.int64("Av1RateControlMethod"), 4, "QUALITY_VBR is 4, not 5");
    assert_eq!(r.int64("Av1QualityPreset"), 30, "QUALITY is 30");
    assert_eq!(r.int64("Av1QIndex_Intra"), 120, "the tuning table's Standard q-index");
    assert_eq!(r.int64("Av1QIndex_Inter"), 128);
    assert_eq!(r.int64("Av1QvbrQualityLevel"), 30, "1-51 scale: q-index / 4");
    assert_eq!(r.rate("Av1FrameRate"), (30, 1));
    assert_eq!(r.int64("Av1GOPSize"), 120);
    assert_eq!(r.int64("Av1AQMode"), 1, "CAQ");
    assert_eq!(r.int64("Av1NumTilesPerFrame"), 4, "2×2 at 1080p");
    assert_eq!(r.int64("AV1OutputMode"), 0, "capital AV1 in this one name");
    assert_eq!(r.int64("Av1ColorBitDepth"), 8);
    assert_eq!(r.int64("Av1OutputColorProfile"), 1);
    assert_eq!(r.int64("Av1OutputColorTransferChar"), 1);
    assert_eq!(r.int64("Av1OutputColorPrimaries"), 1);
    assert_eq!(r.int64("Av1InputColorPrimaries"), 1);
    assert!(r.has("Av1TargetBitrate") && r.has("Av1PeakBitrate") && r.has("Av1VBVBufferSize"));
    assert!(r.bool_("Av1EnforceHRD"));
    assert!(!r.has("Av1OutColorRange"), "no such property in the header");
}

#[test]
fn av1_q_index_floor_is_one() {
    let mut cfg = config(VideoCodec::Av1, PixelFormat::Yuv420p);
    cfg.quality = 0;
    let r = run_av1(&cfg);
    assert_eq!(r.int64("Av1QIndex_Intra"), 1);
    assert_eq!(r.int64("Av1QvbrQualityLevel"), 1);
}

#[test]
fn constant_quantisers_set_no_bitrate_on_any_component() {
    for codec in [VideoCodec::H264, VideoCodec::H265, VideoCodec::Av1] {
        let mut cfg = config(codec, PixelFormat::Yuv420p);
        cfg.constant_qp = true;
        let done = component_properties(&cfg, &av1_row(), &row(&cfg)).unwrap();
        let r = record(done);
        assert!(!r.order.iter().any(|n| n.ends_with("Bitrate")), "{codec:?}: {:?}", r.order);
    }
}

#[test]
fn component_properties_follow_the_codec() {
    let mut cfg = config(VideoCodec::H265, PixelFormat::Yuv422p);
    assert!(matches!(
        component_properties(&cfg, &av1_row(), &row(&cfg)),
        Err(AmfError::HevcFormat { format: PixelFormat::Yuv422p })
    ));
    cfg.pixel_format = PixelFormat::Yuv420p;
    let r = record(component_properties(&cfg, &av1_row(), &row(&cfg)).unwrap());
    assert_eq!(r.order[0], "HevcUsage");
}
