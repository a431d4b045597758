//! The wrapper backends.

use bytes::Bytes;
use codec::config::EncoderConfig;
use codec::dispatch::EncoderBackend;
use codec::frame::{PixelFormat, VideoFrame};
use codec::rate::{wrapper_frame_rate, FrameRate};
use codec::tuning::{
    AmfAv1Params, AmfQualityPreset, AmfRateControl, QsvParams, QsvRateControl, QualityTarget,
    SpeedTier,
};
use codec::upload::Plane;
use codec::wrapped::amf;
use codec::wrapped::nvcodec;
use codec::wrapped::nvcodec::{
    preset_for_tier, target_bitrate, NvBufferFormat, NvPreset, NvRateControl, NvcodecEncoder,
};
use codec::wrapped::session::{PictureKind, PlaneName, WrapperError};
use codec::wrapped::vpl;
use codec::wrapped::vpl::{vpl_frame_rate, VplEncoder};

fn rate(nanos: u64) -> FrameRate {
    FrameRate { nanos }
}

fn qsv_row() -> QsvParams {
    QsvParams {
        rc_mode: QsvRateControl::Icq,
        icq_quality: 26,
        qp_i: 128,
        qp_p: 136,
        target_usage: 4,
        low_power: 0,
        num_tile_columns: 1,
        num_tile_rows: 1,
    }
}

fn amf_row() -> AmfAv1Params {
    AmfAv1Params {
        rc_mode: AmfRateControl::Cqp,
        quality_preset: AmfQualityPreset::Quality,
        q_index_intra: 120,
        q_index_inter: 128,
        qvbr_quality: 30,
        aq_mode: 1,
        tiles_per_frame: 1,
    }
}

fn yuv(w: u32, h: u32, bytes: usize) -> VideoFrame {
    let data: Vec<u8> = (0..bytes).map(|i| i as u8 + 1).collect();
    VideoFrame::new(Bytes::from(data), w, h, PixelFormat::Yuv420p, 0)
}

#[test]
fn bits_follow_the_target_and_the_picture() {
    let fps = rate(30_000_000_000);
    let at = |t| target_bitrate(t, 1920, 1080, fps);
    assert_eq!(at(QualityTarget::Standard), 4_354_560);
    assert_eq!(at(QualityTarget::High), 6_220_800);
    assert_eq!(at(QualityTarget::VisuallyLossless), 9_953_280);
    assert_eq!(at(QualityTarget::Low), 2_799_360);
    assert_eq!(at(QualityTarget::Vmaf(70)), 6_220_800);
    assert_eq!(target_bitrate(QualityTarget::Low, 16, 16, fps), 100_000, "floor");
    assert_eq!(target_bitrate(QualityTarget::High, 20_000, 20_000, fps), 60_000_000, "ceiling");
}

#[test]
fn nvenc_settings_follow_the_configuration() {
    assert_eq!(preset_for_tier(SpeedTier::Draft), NvPreset::P5);
    assert_eq!(preset_for_tier(SpeedTier::Standard), NvPreset::P6);
    assert_eq!(preset_for_tier(SpeedTier::Archive), NvPreset::P7);
    let s = nvcodec::settings(&EncoderConfig::default(), 2).unwrap();
    assert_eq!((s.rate_control, s.average_bitrate), (NvRateControl::Vbr, Some(4_354_560)));
    assert_eq!((s.buffer_format, s.device_id), (NvBufferFormat::Nv12, 2));
    assert_eq!((s.framerate_num, s.framerate_den), (30, 1));
    let cfg = EncoderConfig { constant_qp: true, keyframe_interval: 0, ..Default::default() };
    let s = nvcodec::settings(&cfg, 0).unwrap();
    assert_eq!((s.rate_control, s.average_bitrate), (NvRateControl::ConstQp, None));
    assert_eq!((s.gop_length, s.idr_period), (1, 1));
    let bad = EncoderConfig { pixel_format: PixelFormat::Rgb24, ..Default::default() };
    let e = nvcodec::settings(&bad, 0).unwrap_err();
    assert_eq!(e.message(), "NVENC encoder expects Yuv420p or Yuv420p10le, got Rgb24");
}

#[test]
fn nvenc_pictures_are_staged_and_tagged() {
    let cfg = EncoderConfig { width: 2, height: 2, ..Default::default() };
    let mut enc = NvcodecEncoder::new(cfg);
    assert_eq!(enc.send_frame(&yuv(2, 2, 6)), Ok(0));
    assert_eq!(enc.staging_bytes(), [1, 2, 3, 4, 5, 6]);
    enc.accepted();
    assert_eq!(enc.send_frame(&yuv(2, 2, 6)), Ok(1));
    let e = enc.send_frame(&yuv(4, 2, 12)).unwrap_err();
    assert_eq!(e.message(), "NVENC encoder fixed at 2×2, received 4×2 (scale before encode)");
    let e = enc.send_frame(&yuv(2, 2, 5)).unwrap_err();
    assert_eq!(e.message(), "NVENC: Yuv420p frame too small for 2×2: have 5 need 6");
    let foreign = VideoFrame::new(Bytes::new(), 2, 2, PixelFormat::Nv12, 0);
    let e = enc.send_frame(&foreign).unwrap_err();
    assert_eq!(e.message(), "NVENC encoder configured for Yuv420p but received Nv12");

    enc.collect(vec![1], 0, PictureKind::Idr);
    enc.collect(vec![2], 1, PictureKind::P);
    assert!(enc.flush());
    assert!(!enc.flush(), "once only");
    let p = enc.receive_packet().unwrap();
    assert_eq!((p.data[0], p.pts, p.is_keyframe), (1, 0, true));
    let p = enc.receive_packet().unwrap();
    assert_eq!((p.data[0], p.pts, p.is_keyframe), (2, 1, false));
    assert!(enc.receive_packet().is_none());
}

#[test]
fn ten_bit_staging_interleaves_lifted_words() {
    let cfg = EncoderConfig {
        width: 2,
        height: 2,
        pixel_format: PixelFormat::Yuv420p10le,
        ..Default::default()
    };
    let mut enc = NvcodecEncoder::new(cfg);
    let words: [u16; 6] = [1, 2, 3, 4, 5, 6];
    let data: Vec<u8> = words.iter().flat_map(|w| w.to_le_bytes()).collect();
    let f = VideoFrame::new(Bytes::from(data), 2, 2, PixelFormat::Yuv420p10le, 0);
    assert_eq!(enc.send_frame(&f), Ok(0));
    let expected: Vec<u8> = words.iter().flat_map(|w| (w << 6).to_le_bytes()).collect();
    assert_eq!(enc.staging_bytes(), expected);
}

#[test]
fn qsv_settings_follow_the_configuration() {
    let cfg = EncoderConfig { width: 1918, height: 1080, ..Default::default() };
    let s = vpl::settings(&cfg, &qsv_row()).unwrap();
    assert_eq!((s.coded_width, s.coded_height), (1920, 1088));
    assert_eq!((s.icq_quality, s.target_usage, s.gop_pic_size), (26, 4, 240));
    let crf = EncoderConfig { quality: 60, keyframe_interval: 100_000, ..cfg };
    let s = vpl::settings(&crf, &qsv_row()).unwrap();
    assert_eq!((s.icq_quality, s.gop_pic_size), (51, 65535));
    let ten = EncoderConfig { pixel_format: PixelFormat::Yuv420p10le, ..cfg };
    let e = vpl::settings(&ten, &qsv_row()).unwrap_err();
    assert_eq!(e, WrapperError::TenBitUnavailable);
    assert!(e.message().contains("not exposed by shiguredo_vpl"));
    let rgb = EncoderConfig { pixel_format: PixelFormat::Rgb24, ..cfg };
    let e = vpl::settings(&rgb, &qsv_row()).unwrap_err();
    assert_eq!(e.message(), "QSV encoder expects Yuv420p / Yuv420p10le, got Rgb24");
    assert_eq!(vpl_frame_rate(rate(30_000_000_000)), (30, 1));
    assert_eq!(vpl_frame_rate(rate(29_970_000_000)), (29_970, 1000));
    assert_eq!(wrapper_frame_rate(rate(29_970_000_000)), (29_970, 1000));
}

#[test]
fn qsv_pictures_are_padded_with_black() {
    let cfg = EncoderConfig { width: 2, height: 2, ..Default::default() };
    let mut enc = VplEncoder::new(cfg);
    assert_eq!(enc.send_frame(&yuv(2, 2, 6)), Ok(()));
    let s = enc.staging_bytes();
    assert_eq!(s.len(), 16 * 16 * 3 / 2);
    assert_eq!((s[0], s[1], s[2]), (1, 2, 16));
    assert_eq!((s[16], s[17], s[18]), (3, 4, 16));
    assert_eq!((s[256], s[257], s[258]), (5, 6, 128));
    assert_eq!(s[255], 16);
    assert_eq!(s[383], 128);
    let e = enc.send_frame(&yuv(20, 2, 60)).unwrap_err();
    assert_eq!(e.message(), "QSV encoder: frame 20×2 larger than coded surface 16×16");
    let e = enc.send_frame(&yuv(2, 2, 5)).unwrap_err();
    assert_eq!(
        e.message(),
        "QSV encoder: Yuv420p frame too small for 2×2: have 5 bytes need 6"
    );
    enc.accepted();
    enc.collect(vec![7], 70, PictureKind::I);
    assert!(enc.flush());
    let p = enc.receive_packet().unwrap();
    assert_eq!((p.data[0], p.pts, p.is_keyframe), (7, 70, true));
}

#[test]
fn amf_settings_and_planes() {
    let s = amf::settings(&EncoderConfig::default(), &amf_row()).unwrap();
    assert_eq!((s.qpi, s.qpp, s.qpb, s.gop_pic_size), (120, 128, 128, 240));
    let cfg = EncoderConfig { width: 2, height: 2, ..Default::default() };
    assert_eq!(amf::check(&cfg, &yuv(2, 2, 6)), Ok(()));
    assert!(matches!(
        amf::check(&cfg, &yuv(2, 4, 12)),
        Err(WrapperError::SizeMismatch { backend: EncoderBackend::Amf, .. })
    ));
    let plane = |null: bool, pitch: usize| Plane { null, pitch, bytes: vec![0; 2 * pitch] };
    let (mut y, mut uv) = (plane(false, 3), plane(false, 3));
    assert_eq!(amf::fill_surface(&mut y, &mut uv, &yuv(2, 2, 6)), Ok(()));
    assert_eq!(y.bytes, [1, 2, 0, 3, 4, 0]);
    assert_eq!(uv.bytes, [5, 6, 0, 0, 0, 0]);
    let e = amf::fill_surface(&mut plane(true, 3), &mut uv, &yuv(2, 2, 6)).unwrap_err();
    assert_eq!(e.message(), "AMF: bad Y plane (null=true, pitch=3, w=2)");
    let e = amf::fill_surface(&mut y, &mut plane(false, 1), &yuv(2, 2, 6)).unwrap_err();
    assert!(matches!(e, WrapperError::BadPlane { plane: PlaneName::Chroma, .. }));
    assert_eq!(e.message(), "AMF: bad UV plane (null=false, pitch=1, need=2)");
    let e = amf::fill_surface(&mut y, &mut uv, &yuv(2, 2, 5)).unwrap_err();
    assert_eq!(e.message(), "AMF: Yuv420p frame too small for 2×2: have 5 need 6");
}
