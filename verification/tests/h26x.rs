//! Software H.264 and H.265.

use std::collections::VecDeque;

use bytes::Bytes;
use codec::config::EncoderConfig;
use codec::frame::{
    transfer_to_h273, ColorMetadata, ContentLightLevel, MasteringDisplay, PixelFormat, TransferFn,
    VideoCodec, VideoFrame,
};
use codec::h26x::{
    colour_description, encoder_bps, mastering_display, rate_refusal, Access, H26xConfig,
    H26xEncoder, H26xError, RateControl,
};
use codec::rate::FrameRate;
use codec::tuning::{EncodeOverrides, H26xSwParams, QualityTarget, SpeedTier};

fn fps(f: f64) -> FrameRate {
    if f.is_finite() && f > 0.0 {
        FrameRate { nanos: (f * 1e9).round() as u64 }
    } else {
        FrameRate { nanos: 0 }
    }
}

/// The tuning table's row for the standard target.
fn row(codec: VideoCodec, tier: SpeedTier) -> H26xSwParams {
    H26xSwParams {
        qp: 26,
        transform_8x8: true,
        subparts: tier != SpeedTier::Draft,
        sao: codec == VideoCodec::H265,
        aq_strength_tenths: 0,
        weighted_pred: true,
        max_cu_depth: match (codec, tier) {
            (VideoCodec::H265, SpeedTier::Standard) => 2,
            (VideoCodec::H265, SpeedTier::Archive) => 3,
            _ => 0,
        },
        bitrate: None,
        buffer_ms: 0,
        lookahead: 0,
    }
}

/// A picture coder: decides on a picture once the lookahead is full, and puts
/// the tools it was given in front of a keyframe.
struct Coder {
    cfg: H26xConfig,
    held: VecDeque<(u64, Vec<u8>)>,
    pushed: u64,
    since_key: u32,
    force: bool,
}

impl Coder {
    fn new(cfg: &H26xConfig) -> Coder {
        Coder { cfg: *cfg, held: VecDeque::new(), pushed: 0, since_key: 0, force: false }
    }

    fn frame_bytes(&self) -> usize {
        let (w, h) = (self.cfg.width as usize, self.cfg.height as usize);
        w * h + 2 * w.div_ceil(2) * h.div_ceil(2)
    }

    fn offer(&mut self) -> Access {
        let (display, picture) = self.held.pop_front().unwrap();
        let keyframe = display == 0 || self.force || self.since_key >= self.cfg.gop;
        self.force = false;
        self.since_key = if keyframe { 1 } else { self.since_key + 1 };
        let mut data = Vec::new();
        if keyframe {
            data.push(self.cfg.weighted_pred as u8);
            data.push(self.cfg.aq_strength_tenths);
            data.push(self.cfg.max_cu_depth as u8);
        }
        data.extend(picture.iter().step_by(64));
        Access { data, display, keyframe }
    }

    fn push(&mut self, picture: &[u8]) -> Vec<Access> {
        self.held.push_back((self.pushed, picture.to_vec()));
        self.pushed += 1;
        if self.held.len() > self.cfg.lookahead as usize {
            vec![self.offer()]
        } else {
            Vec::new()
        }
    }

    fn flush(&mut self) -> Vec<Access> {
        let mut out = Vec::new();
        while !self.held.is_empty() {
            out.push(self.offer());
        }
        out
    }
}

/// An encoder with its coder, as a caller sees the two.
struct Rig {
    enc: H26xEncoder,
    coder: Coder,
}

impl Rig {
    fn new(cfg: &EncoderConfig) -> Result<Rig, H26xError> {
        let enc = H26xEncoder::new(cfg, &row(cfg.codec, cfg.tier), 8)?;
        let coder = Coder::new(enc.config());
        Ok(Rig { enc, coder })
    }

    fn send(&mut self, f: &VideoFrame) -> Result<(), H26xError> {
        let push = self.enc.send_frame(f, self.coder.frame_bytes())?;
        if push.force_idr {
            self.coder.force = true;
        }
        let units = self.coder.push(&f.data[..push.bytes]);
        self.enc.collect(units)
    }

    fn flush(&mut self) -> Result<(), H26xError> {
        if self.enc.flush()? {
            self.coder.force = true;
        }
        let units = self.coder.flush();
        self.enc.collect(units)
    }

    fn config(&self) -> H26xConfig {
        *self.enc.config()
    }
}

fn config_at(codec: VideoCodec, tier: SpeedTier, overrides: EncodeOverrides) -> EncoderConfig {
    EncoderConfig {
        width: 64,
        height: 64,
        frame_rate: fps(30.0),
        quality: u8::MAX,
        speed_preset: u8::MAX,
        keyframe_interval: 30,
        target: QualityTarget::Standard,
        tier,
        threads: 1,
        pixel_format: PixelFormat::Yuv420p,
        color_metadata: ColorMetadata::default(),
        gpu_index: None,
        gpu_vendor: None,
        codec,
        constant_qp: false,
        overrides,
    }
}

fn test_picture(i: u64) -> Vec<u8> {
    let mut data: Vec<u8> = (0..64 * 64)
        .map(|p| {
            let (x, y) = (p % 64, p / 64);
            ((if x < 24 { 20 } else { ((x ^ y) & 0x1f) * 3 + 90 }) + i as usize * 12) as u8
        })
        .collect();
    data.extend(vec![128u8; 2 * 32 * 32]);
    data
}

fn encode_at(
    codec: VideoCodec,
    tier: SpeedTier,
    overrides: EncodeOverrides,
) -> (H26xConfig, Vec<Bytes>) {
    let mut rig = Rig::new(&config_at(codec, tier, overrides)).unwrap();
    let mut packets = Vec::new();
    for i in 0..4u64 {
        let frame = VideoFrame::new(test_picture(i).into(), 64, 64, PixelFormat::Yuv420p, i);
        rig.send(&frame).unwrap();
        while let Some(p) = rig.enc.receive_packet() {
            packets.push(p.data);
        }
    }
    rig.flush().unwrap();
    while let Some(p) = rig.enc.receive_packet() {
        packets.push(p.data);
    }
    (rig.config(), packets)
}

fn encode_with(codec: VideoCodec, overrides: EncodeOverrides) -> (H26xConfig, Vec<Bytes>) {
    encode_at(codec, SpeedTier::Draft, overrides)
}

fn strength(cfg: &H26xConfig) -> f32 {
    f32::from(cfg.aq_strength_tenths) / 10.0
}

#[test]
fn transfer_codes_round_trip_through_from_h273() {
    for tf in [
        TransferFn::Bt709,
        TransferFn::Bt470Bg,
        TransferFn::Linear,
        TransferFn::St2084,
        TransferFn::AribStdB67,
    ] {
        assert_eq!(TransferFn::from_h273(transfer_to_h273(tf)), tf, "{tf:?}");
    }
    assert_eq!(
        TransferFn::from_h273(transfer_to_h273(TransferFn::Unspecified)),
        TransferFn::Bt709
    );
}

#[test]
fn hdr10_metadata_becomes_the_bt2020_pq_codes() {
    let hdr10 = ColorMetadata {
        transfer: TransferFn::St2084,
        matrix_coefficients: 9,
        colour_primaries: 9,
        full_range: false,
        ..ColorMetadata::default()
    };
    let c = colour_description(&hdr10);
    assert_eq!((c.primaries, c.transfer, c.matrix, c.full_range), (9, 16, 9, false));
    let sdr = colour_description(&ColorMetadata::default());
    assert_eq!((sdr.primaries, sdr.transfer, sdr.matrix, sdr.full_range), (1, 1, 1, false));
}

#[test]
fn the_opt_in_tools_reach_the_encoder_config_and_the_stream() {
    let aq = EncodeOverrides { aq_strength_tenths: Some(10), ..Default::default() };
    let wp_off = EncodeOverrides { weighted_pred: Some(false), ..Default::default() };
    for codec in [VideoCodec::H265, VideoCodec::H264] {
        let (on_cfg, on) = encode_with(codec, EncodeOverrides::default());
        let (aq_cfg, aq_out) = encode_with(codec, aq);
        let (off_cfg, off) = encode_with(codec, wp_off);
        assert_eq!(
            (strength(&on_cfg), on_cfg.weighted_pred, on_cfg.lookahead),
            (0.0, true, 0),
            "{codec:?} table row"
        );
        assert_eq!((strength(&aq_cfg), aq_cfg.weighted_pred), (1.0, true), "{codec:?} aq");
        assert_eq!((strength(&off_cfg), off_cfg.weighted_pred), (0.0, false), "{codec:?} wp=off");
        assert_ne!(aq_out, on, "aq=1.0 left the stream as it was");
        assert_ne!(off, on, "wp=off left the stream as it was");
        assert_ne!(aq_out, off, "the two tools wrote the same stream");
    }
}

#[test]
fn the_tables_weighted_prediction_reaches_both_encoders() {
    let wp = |on: bool| EncodeOverrides { weighted_pred: Some(on), ..Default::default() };
    for tier in [SpeedTier::Draft, SpeedTier::Standard, SpeedTier::Archive] {
        for codec in [VideoCodec::H264, VideoCodec::H265] {
            let want = row(codec, tier).weighted_pred;
            let (cfg, packets) = encode_at(codec, tier, EncodeOverrides::default());
            assert_eq!(cfg.weighted_pred, want, "{codec:?} {tier:?}");
            let (_, same) = encode_at(codec, tier, wp(want));
            let (_, other) = encode_at(codec, tier, wp(!want));
            assert_eq!(packets, same, "{codec:?} {tier:?}: the default is not wp={want}'s stream");
            assert_ne!(packets, other, "{codec:?} {tier:?}: wp={} coded the same", !want);
        }
    }
}

#[test]
fn the_tables_cu_depth_reaches_the_h265_encoder() {
    let direct = |cfg: &H26xConfig, depth: u32| -> Vec<Bytes> {
        let mut e = Coder::new(&H26xConfig { max_cu_depth: depth, ..*cfg });
        let mut out = Vec::new();
        for i in 0..4 {
            out.extend(e.push(&test_picture(i)).into_iter().map(|a| Bytes::from(a.data)));
        }
        out.extend(e.flush().into_iter().map(|a| Bytes::from(a.data)));
        out
    };
    for tier in [SpeedTier::Draft, SpeedTier::Standard, SpeedTier::Archive] {
        let want = row(VideoCodec::H265, tier).max_cu_depth;
        let (cfg, packets) = encode_at(VideoCodec::H265, tier, EncodeOverrides::default());
        assert_eq!(cfg.max_cu_depth, want, "{tier:?}: not the table's depth");
        assert_eq!(packets, direct(&cfg, want), "{tier:?}: not the table depth's stream");
        let other = if want == 0 { 2 } else { 0 };
        assert_ne!(direct(&cfg, want), direct(&cfg, other), "{tier:?}: {want} and {other}");
    }
    let (h264, _) = encode_at(VideoCodec::H264, SpeedTier::Archive, EncodeOverrides::default());
    assert_eq!(h264.max_cu_depth, 0, "H.264 has no quadtree");
}

#[test]
fn a_cu_depth_override_reaches_the_h265_encoder_and_h264_refuses_it() {
    let depth = |d: u8| EncodeOverrides { cu_depth: Some(d), ..Default::default() };
    let standard = SpeedTier::Standard;
    let (table, table_out) = encode_at(VideoCodec::H265, standard, EncodeOverrides::default());
    let (std0, std0_out) = encode_at(VideoCodec::H265, standard, depth(0));
    let (draft2, _) = encode_at(VideoCodec::H265, SpeedTier::Draft, depth(2));
    assert_eq!(table.max_cu_depth, 2, "the Standard row");
    assert_eq!(std0.max_cu_depth, 0, "cu_depth=0 at Standard");
    assert_eq!(draft2.max_cu_depth, 2, "cu_depth=2 at Draft");
    assert_ne!(std0_out, table_out, "cu_depth=0 coded the table depth's stream");

    let err = Rig::new(&config_at(VideoCodec::H264, standard, depth(1))).err().unwrap();
    let msg = err.message();
    assert!(msg.contains("cu_depth=1") && msg.contains("H.264"), "{msg}");
    let (h264, _) = encode_at(VideoCodec::H264, standard, depth(0));
    assert_eq!(h264.max_cu_depth, 0, "cu_depth=0 on H.264");
}

const CLIP: (u32, u32, f64) = (96, 64, 30.0);

fn clip_picture(i: u32) -> Vec<u8> {
    let (w, h, _) = CLIP;
    let hash = |x: u32, y: u32| -> u32 {
        let mut v = x.wrapping_mul(0x9E37_79B1) ^ y.wrapping_mul(0x85EB_CA77);
        v ^= v >> 15;
        v.wrapping_mul(0xC2B2_AE3D) >> 24
    };
    let mut data: Vec<u8> = (0..w * h)
        .map(|p| (((p % w) + 2 * i) / 4 * 3 + p / w + hash((p % w) + 2 * i, p / w) / 3) as u8)
        .collect();
    let (cw, ch) = (w / 2, h / 2);
    data.extend((0..cw * ch).map(|p| (96 + ((p % cw) + i) % 64) as u8));
    data.extend((0..cw * ch).map(|p| (160 - (p / cw + i) % 48) as u8));
    data
}

fn clip_config(codec: VideoCodec, overrides: EncodeOverrides, frame_rate: f64) -> EncoderConfig {
    let (w, h, _) = CLIP;
    EncoderConfig {
        width: w,
        height: h,
        frame_rate: fps(frame_rate),
        ..config_at(codec, SpeedTier::Draft, overrides)
    }
}

fn bitrate(bps: u32) -> EncodeOverrides {
    EncodeOverrides { bitrate: Some(bps), ..Default::default() }
}

fn unbuffered(bps: u32) -> EncodeOverrides {
    EncodeOverrides { buffer_ms: Some(0), ..bitrate(bps) }
}

#[test]
fn a_bitrate_reaches_the_encoder_and_none_stays_constant_qp() {
    for codec in [VideoCodec::H264, VideoCodec::H265] {
        let (cqp, _) = encode_at(codec, SpeedTier::Draft, Default::default());
        let qp = row(codec, SpeedTier::Draft).qp;
        assert_eq!(
            (cqp.rate, cqp.cpb_ms, cqp.lookahead),
            (RateControl::ConstantQp(qp), 0, 0),
            "{codec:?}"
        );
        let (abr, _) = encode_at(codec, SpeedTier::Draft, bitrate(250_000));
        assert_eq!(
            (abr.rate, abr.cpb_ms),
            (RateControl::Bitrate { bps: 250_000 }, 1000),
            "{codec:?}"
        );
        let o = EncodeOverrides { buffer_ms: Some(500), ..bitrate(250_000) };
        let (buffered, _) = encode_at(codec, SpeedTier::Draft, o);
        assert_eq!(buffered.cpb_ms, 500, "{codec:?}");
        let (none, _) = encode_at(codec, SpeedTier::Draft, unbuffered(250_000));
        assert_eq!(none.cpb_ms, 0, "{codec:?}");
    }
}

#[test]
fn the_encoder_rate_follows_the_real_frame_rate() {
    assert_eq!(encoder_bps(3_000_000, fps(30.0), 30), 3_000_000);
    assert_eq!(encoder_bps(3_000_000, fps(25.0), 25), 3_000_000);
    assert_eq!(encoder_bps(3_000_000, fps(30_000.0 / 1001.0), 30), 3_003_000);
    assert_eq!(encoder_bps(3_000_000, fps(24_000.0 / 1001.0), 24), 3_003_000);
    assert_eq!(encoder_bps(1_000_000, fps(12.5), 13), 1_040_000);
    assert_eq!(encoder_bps(1_000_000, fps(0.0), 1), 1_000_000, "an unknown rate is left alone");
    let cfg = clip_config(VideoCodec::H264, bitrate(1_000_000), 30_000.0 / 1001.0);
    let cfg = Rig::new(&cfg).unwrap().config();
    assert_eq!((cfg.fps, cfg.rate), (30, RateControl::Bitrate { bps: 1_001_000 }));
}

#[test]
fn a_lookahead_reaches_h265_bitrate_rungs_only() {
    let la = |o: EncodeOverrides| EncodeOverrides { lookahead_frames: Some(8), ..o };
    let (h265, _) = encode_at(VideoCodec::H265, SpeedTier::Draft, la(bitrate(250_000)));
    let (h264, _) = encode_at(VideoCodec::H264, SpeedTier::Draft, la(bitrate(250_000)));
    let (cqp, _) = encode_at(VideoCodec::H265, SpeedTier::Draft, la(EncodeOverrides::default()));
    assert_eq!((h265.lookahead, h264.lookahead, cqp.lookahead), (8, 0, 0));
}

#[test]
fn a_forced_keyframe_lands_on_the_next_frame_sent_under_a_lookahead() {
    let (w, h, rate) = CLIP;
    let frame = |i: u32| {
        VideoFrame::new(clip_picture(i).into(), w, h, PixelFormat::Yuv420p, u64::from(i))
    };
    for lookahead in [0u32, 4] {
        let o = EncodeOverrides { lookahead_frames: Some(lookahead), ..bitrate(300_000) };
        let mut rig = Rig::new(&clip_config(VideoCodec::H265, o, rate)).unwrap();
        let mut keyframes = Vec::new();
        for i in 0..20u32 {
            if i == 10 {
                rig.enc.force_keyframe_next();
            }
            rig.send(&frame(i)).unwrap();
            while let Some(p) = rig.enc.receive_packet() {
                if p.is_keyframe {
                    keyframes.push(p.pts);
                }
            }
        }
        rig.flush().unwrap();
        while let Some(p) = rig.enc.receive_packet() {
            if p.is_keyframe {
                keyframes.push(p.pts);
            }
        }
        assert_eq!(keyframes, vec![0, 10], "lookahead {lookahead}: keyframes at {keyframes:?}");
    }
    let o = EncodeOverrides { lookahead_frames: Some(4), ..bitrate(300_000) };
    let mut rig = Rig::new(&clip_config(VideoCodec::H265, o, rate)).unwrap();
    for i in 0..12u32 {
        if i == 10 {
            rig.enc.force_keyframe_next();
        }
        rig.send(&frame(i)).unwrap();
    }
    let err = rig.flush().unwrap_err();
    assert!(err.message().contains("cannot be placed"), "{}", err.message());
    assert_eq!(err, H26xError::Unplaceable { at: 10, lookahead: 4, first: 8 });
}

#[test]
fn a_keyframe_owed_at_the_end_is_placed_by_the_flush() {
    let (w, h, rate) = CLIP;
    let o = EncodeOverrides { lookahead_frames: Some(4), ..bitrate(300_000) };
    let mut rig = Rig::new(&clip_config(VideoCodec::H265, o, rate)).unwrap();
    for i in 0..14u32 {
        if i == 10 {
            rig.enc.force_keyframe_next();
        }
        let f = VideoFrame::new(clip_picture(i).into(), w, h, PixelFormat::Yuv420p, u64::from(i));
        rig.send(&f).unwrap();
    }
    rig.flush().unwrap();
    let mut keyframes = Vec::new();
    while let Some(p) = rig.enc.receive_packet() {
        if p.is_keyframe {
            keyframes.push(p.pts);
        }
    }
    assert_eq!(keyframes, [0, 10]);
}

#[test]
fn impossible_rate_requests_are_refused_by_name() {
    let refuse = |cfg: EncoderConfig, words: &[&str]| {
        let msg = Rig::new(&cfg).err().unwrap().message();
        assert!(words.iter().all(|w| msg.contains(w)), "{words:?} not all in: {msg}");
    };
    let at = |codec, o| config_at(codec, SpeedTier::Draft, o);
    refuse(
        EncoderConfig { quality: 28, ..at(VideoCodec::H264, bitrate(500_000)) },
        &["crf=28", "bitrate=500000"],
    );
    refuse(
        EncoderConfig { constant_qp: true, ..at(VideoCodec::H265, bitrate(500_000)) },
        &["constqp", "bitrate=500000"],
    );
    refuse(
        at(VideoCodec::H264, EncodeOverrides { buffer_ms: Some(500), ..Default::default() }),
        &["buffer=500ms", "no bitrate"],
    );
    refuse(
        at(VideoCodec::H265, EncodeOverrides { lookahead_frames: Some(251), ..bitrate(500_000) }),
        &["lookahead=251"],
    );
    refuse(
        at(VideoCodec::H265, EncodeOverrides { buffer_ms: Some(1000), ..bitrate(20_000_000) }),
        &["bitrate=20000000", "Level 4.0", "buffer=0"],
    );
    refuse(at(VideoCodec::H265, bitrate(0)), &["bitrate=0"]);
    refuse(
        at(VideoCodec::H265, bitrate(20_000_000)),
        &["buffer=1000ms (the default", "buffer=0"],
    );
    let av1 = rate_refusal(VideoCodec::Av1, &bitrate(500_000), None, false).unwrap();
    assert!(av1.contains("AV1") && av1.contains("--codec h264"), "{av1}");
    assert_eq!(rate_refusal(VideoCodec::H265, &unbuffered(20_000_000), None, false), None);
    let zero = EncodeOverrides { buffer_ms: Some(0), ..Default::default() };
    assert_eq!(rate_refusal(VideoCodec::H264, &zero, Some(28), true), None);
}

#[test]
fn the_level_refusal_is_spelled_out() {
    assert_eq!(
        rate_refusal(VideoCodec::H265, &bitrate(20_000_000), None, false).unwrap(),
        "bitrate=20000000 with buffer=1000ms (the default for a bitrate rung) declares a 20000000-bit buffer at 20000000 bit/s, and the native H.265 encoder labels every stream Level 4.0, whose limits are 13200000 bit/s and 13200000 bits: lower the rate or the buffer, or declare none (`buffer=0`)"
    );
    let at_limit = EncodeOverrides { buffer_ms: Some(1000), ..bitrate(13_200_000) };
    assert_eq!(rate_refusal(VideoCodec::H265, &at_limit, None, false), None);
    let past = EncodeOverrides { buffer_ms: Some(1001), ..bitrate(13_200_000) };
    assert!(rate_refusal(VideoCodec::H265, &past, None, false).is_some());
    assert_eq!(rate_refusal(VideoCodec::H264, &past, None, false), None, "no level on H.264");
}

#[test]
fn configurations_carry_depth_metadata_and_defaults() {
    let display = MasteringDisplay {
        primaries_r_x: 1,
        primaries_r_y: 2,
        primaries_g_x: 3,
        primaries_g_y: 4,
        primaries_b_x: 5,
        primaries_b_y: 6,
        white_point_x: 7,
        white_point_y: 8,
        max_luminance: 9,
        min_luminance: 10,
    };
    let v = mastering_display(&display);
    assert_eq!((v.red, v.green, v.blue), ((1, 2), (3, 4), (5, 6)));
    assert_eq!((v.white_point, v.max_luminance, v.min_luminance), ((7, 8), 9, 10));
    let light = ContentLightLevel { max_cll: 1000, max_fall: 400 };
    let cfg = EncoderConfig {
        pixel_format: PixelFormat::Yuv420p10le,
        keyframe_interval: 0,
        threads: 0,
        quality: 60,
        color_metadata: ColorMetadata {
            mastering_display: Some(display),
            content_light_level: Some(light),
            ..ColorMetadata::default()
        },
        ..config_at(VideoCodec::H265, SpeedTier::Standard, Default::default())
    };
    let c = Rig::new(&cfg).unwrap().config();
    assert_eq!((c.bit_depth, c.gop, c.threads, c.max_refs), (10, 250, 8, 1));
    assert_eq!(c.rate, RateControl::ConstantQp(51), "a quantiser is held to the scale");
    assert_eq!(c.mastering_display, Some(v));
    assert_eq!(c.content_light, Some(light));
}

#[test]
fn unusable_configurations_and_pictures_are_named() {
    let at = |codec, pixel_format| EncoderConfig {
        pixel_format,
        ..config_at(codec, SpeedTier::Draft, Default::default())
    };
    let e = Rig::new(&at(VideoCodec::Av1, PixelFormat::Yuv420p)).err().unwrap();
    assert_eq!(e.message(), "the native h26x encoders produce H.264 and H.265, not Av1");
    let e = Rig::new(&at(VideoCodec::H264, PixelFormat::Yuv444p)).err().unwrap();
    assert!(e.message().contains("got Yuv444p. Convert with the colorspace filter"));

    let mut rig = Rig::new(&at(VideoCodec::H264, PixelFormat::Yuv420p)).unwrap();
    let frame = |w: u32, h: u32, n: usize, format| {
        VideoFrame::new(vec![0u8; n].into(), w, h, format, 0)
    };
    let e = rig.send(&frame(64, 64, 6144, PixelFormat::Nv12)).unwrap_err();
    assert!(e.message().contains("configured for Yuv420p and got a Nv12 frame"));
    let e = rig.send(&frame(32, 64, 6144, PixelFormat::Yuv420p)).unwrap_err();
    assert_eq!(e.message(), "frame is 32x64 but the encoder was configured for 64x64");
    let e = rig.send(&frame(64, 64, 6143, PixelFormat::Yuv420p)).unwrap_err();
    assert_eq!(
        e.message(),
        "frame buffer is 6143 bytes, too short for 64x64 Yuv420p (6144 expected)"
    );
    let unit = Access { data: vec![1], display: 3, keyframe: false };
    let e = rig.enc.collect(vec![unit]).unwrap_err();
    assert_eq!(
        e.message(),
        "h26x coded picture claims display index 3 but only 0 frames were pushed"
    );
}

#[test]
fn reordered_units_keep_their_own_stamps() {
    let cfg = config_at(VideoCodec::H264, SpeedTier::Draft, Default::default());
    let mut rig = Rig::new(&cfg).unwrap();
    for pts in [100u64, 200, 300] {
        let f = VideoFrame::new(test_picture(0).into(), 64, 64, PixelFormat::Yuv420p, pts);
        let push = rig.enc.send_frame(&f, 6144).unwrap();
        assert_eq!((push.bytes, push.force_idr), (6144, false));
    }
    let unit = |display: u64| Access { data: vec![display as u8], display, keyframe: display == 0 };
    rig.enc.collect(vec![unit(0), unit(2), unit(1)]).unwrap();
    let mut seen = Vec::new();
    while let Some(p) = rig.enc.receive_packet() {
        seen.push((p.data[0], p.pts));
    }
    assert_eq!(seen, [(0, 100), (2, 300), (1, 200)]);
    rig.enc.reset();
    assert!(rig.enc.collect(vec![unit(0)]).is_err(), "a new stream knows no old pictures");
    assert!(H26xEncoder::supports(VideoCodec::H264) && !H26xEncoder::supports(VideoCodec::Av1));
}
