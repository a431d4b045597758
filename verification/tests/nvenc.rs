//! The NVENC session: planning, opening, coding.

use codec::config::EncoderConfig;
use codec::frame::{transfer_to_h273, ColorMetadata, PixelFormat, TransferFn, VideoCodec};
use codec::guid::{guid_from_bytes, guid_to_bytes, Guid};
use codec::nvenc::api::{
    nvenc_codec_guid, nvenc_profile_guid, preset_p5_guid, preset_p6_guid, preset_p7_guid,
    struct_version, AV1_CHROMA_FORMAT_IDC_420, MAX_BITSTREAM_BYTES, NV_ENC_BUFFER_FORMAT_IYUV,
    NV_ENC_BUFFER_FORMAT_YUV420_10BIT, NV_ENC_ERR_ENCODER_NOT_INITIALIZED,
    NV_ENC_ERR_INVALID_PARAM, NV_ENC_ERR_LOCK_BUSY, NV_ENC_ERR_NEED_MORE_INPUT,
    NV_ENC_PIC_FLAG_EOS, NV_ENC_PIC_FLAG_FORCEIDR, NV_ENC_PIC_TYPE_IDR, NV_ENC_PIC_TYPE_P,
    NV_ENC_SUCCESS, RC_FLAG_ENABLE_LOOKAHEAD, RC_FLAG_ZERO_REORDER_DELAY, RING_SIZE,
};
use codec::nvenc::encoder::{
    drain_bitstream, first_free_slot, FlushStep, LockAnswer, NvencEncoder, NvencError, SlotStep,
    SubmitStep,
};
use codec::nvenc::plan::{
    check_capabilities, check_driver_version, nvenc_buffer_format_for, pixel_bit_depth_minus8_for,
    plan_session, Av1Config, CodecOverride, DriverReport, PlanError, PresetSeed, RcParams, SessionPlan,
};
use codec::nvenc::session::{close, next_stage, unwind, OpenError, Release, Stage};
use codec::rate::{fps_to_rational, FrameRate};
use codec::tuning::{NvencParams, NvencRateControl, QualityTarget};

fn fps(f: f64) -> FrameRate {
    FrameRate { nanos: (f * 1e9).round() as u64 }
}

#[test]
fn test_fps_rational_mapping() {
    assert_eq!(fps_to_rational(fps(23.976)), (24_000, 1001));
    assert_eq!(fps_to_rational(fps(24.0)), (24, 1));
    assert_eq!(fps_to_rational(fps(25.0)), (25, 1));
    assert_eq!(fps_to_rational(fps(29.97)), (30_000, 1001));
    assert_eq!(fps_to_rational(fps(30.0)), (30, 1));
    assert_eq!(fps_to_rational(fps(48.0)), (48, 1));
    assert_eq!(fps_to_rational(fps(50.0)), (50, 1));
    assert_eq!(fps_to_rational(fps(59.94)), (60_000, 1001));
    assert_eq!(fps_to_rational(fps(60.0)), (60, 1));
}

#[test]
fn test_fps_rational_1001_family_detection() {
    let (n, d) = fps_to_rational(fps(23.9760239760));
    assert_eq!(d, 1001);
    assert_eq!(n, 24_000);

    let (n, d) = fps_to_rational(fps(29.9700299700));
    assert_eq!(d, 1001);
    assert_eq!(n, 30_000);

    let (n, d) = fps_to_rational(fps(59.9400599400));
    assert_eq!(d, 1001);
    assert_eq!(n, 60_000);
}

#[test]
fn test_fps_rational_generic_fallback() {
    assert_eq!(fps_to_rational(fps(100.0)), (100, 1));
    assert_eq!(fps_to_rational(fps(120.0)), (120, 1));
    assert_eq!(fps_to_rational(fps(23.5)), (23_500, 1000));
}

fn row() -> NvencParams {
    NvencParams {
        cq: 30,
        rc_mode: NvencRateControl::VbrTargetQuality,
        preset_guid: guid_to_bytes(preset_p5_guid()),
        tuning_info: 1,
        lookahead_depth: 0,
        aq_strength: 8,
        num_tile_columns: 2,
        num_tile_rows: 1,
    }
}

fn seed() -> PresetSeed {
    PresetSeed {
        rc: RcParams {
            version: 0,
            rate_control_mode: 0,
            const_qp_intra: 0,
            const_qp_inter_p: 0,
            const_qp_inter_b: 0,
            target_quality: 0,
            target_quality_lsb: 0,
            lookahead_depth: 0,
            multi_pass: 0,
            flags: 0,
        },
        av1: Av1Config {
            flags: 0,
            idr_period: 0,
            num_fwd_refs: 0,
            max_num_ref_frames_in_dpb: 0,
            num_tile_columns: 0,
            num_tile_rows: 0,
            output_bit_depth: 0,
            input_bit_depth: 0,
            color_primaries: 0,
            transfer_characteristics: 0,
            matrix_coefficients: 0,
            color_range: 0,
        },
    }
}

fn plan(cfg: &EncoderConfig) -> SessionPlan {
    plan_session(cfg, &row(), &seed()).unwrap()
}

#[test]
fn test_nvenc_cq_clamps_to_51() {
    let clamped = |q: u8| {
        plan(&EncoderConfig { quality: q, codec: VideoCodec::H264, ..Default::default() })
            .rc
            .target_quality
    };
    assert_eq!(clamped(75), 51);
    assert_eq!(clamped(40), 40);
    assert_eq!(clamped(51), 51);
}

#[test]
fn a_slot_the_encoder_still_holds_is_never_reused() {
    let mut in_flight = [false; RING_SIZE];
    in_flight[0] = true;
    in_flight[1] = true;

    let chosen = first_free_slot(&in_flight);

    assert_eq!(chosen, Some(2), "selection must skip every slot still held");
    assert_eq!(first_free_slot(&[true; RING_SIZE]), None);
}

#[test]
fn the_pool_is_deeper_than_the_lookahead_it_allows() {
    assert!(RING_SIZE >= 8, "a pool this shallow cannot carry any lookahead");

    let cap = RING_SIZE - 4;
    assert!(cap > 0, "no lookahead budget at all");
    assert!(cap < RING_SIZE, "lookahead must leave slots free to submit into");

    let mut cfg = EncoderConfig::default();
    cfg.overrides.lookahead_frames = Some(1000);
    let rc = plan(&cfg).rc;
    assert_eq!(rc.lookahead_depth as usize, cap);
    assert_ne!(rc.flags & RC_FLAG_ENABLE_LOOKAHEAD, 0);
    assert_eq!(rc.flags & RC_FLAG_ZERO_REORDER_DELAY, 0);
}

#[test]
fn without_overrides_a_picture_in_is_a_packet_out() {
    let rc = plan(&EncoderConfig::default()).rc;
    assert_eq!(rc.lookahead_depth, 0);
    assert_eq!(rc.flags & RC_FLAG_ENABLE_LOOKAHEAD, 0);
    assert_ne!(rc.flags & RC_FLAG_ZERO_REORDER_DELAY, 0);
}

#[test]
fn visually_lossless_is_constant_qp_in_a_narrow_band() {
    let cfg = EncoderConfig { target: QualityTarget::VisuallyLossless, ..Default::default() };
    let tp = NvencParams { rc_mode: NvencRateControl::ConstQp, ..row() };
    let rc = plan_session(&cfg, &tp, &seed()).unwrap().rc;
    assert_eq!(rc.rate_control_mode, 0);
    assert!((8..=12).contains(&rc.const_qp_intra), "{}", rc.const_qp_intra);
    assert!(rc.const_qp_intra <= rc.const_qp_inter_p);
}

#[test]
fn test_nvenc_buffer_format_dispatch_10bit() {
    let fmt_8 = nvenc_buffer_format_for(PixelFormat::Yuv420p).unwrap();
    let fmt_10 = nvenc_buffer_format_for(PixelFormat::Yuv420p10le).unwrap();
    assert_eq!(fmt_8, NV_ENC_BUFFER_FORMAT_IYUV);
    assert_eq!(fmt_10, NV_ENC_BUFFER_FORMAT_YUV420_10BIT);
    assert_ne!(fmt_8, fmt_10, "10-bit must select a different SDK constant from 8-bit");
}

#[test]
fn test_nvenc_buffer_format_dispatch_rejects_4_2_2_and_4_4_4() {
    for unsupported in [
        PixelFormat::Yuv422p,
        PixelFormat::Yuv422p10le,
        PixelFormat::Yuv444p,
        PixelFormat::Yuv444p10le,
        PixelFormat::Yuva444p10le,
        PixelFormat::Nv12,
        PixelFormat::Rgb24,
    ] {
        assert!(
            nvenc_buffer_format_for(unsupported).is_err(),
            "{unsupported:?} must be rejected by NVENC dispatch"
        );
    }
}

#[test]
fn test_nvenc_pixel_bit_depth_dispatch() {
    assert_eq!(pixel_bit_depth_minus8_for(PixelFormat::Yuv420p), 0);
    assert_eq!(pixel_bit_depth_minus8_for(PixelFormat::Yuv420p10le), 2);
}

#[test]
fn test_nvenc_transfer_to_h273_codes() {
    assert_eq!(transfer_to_h273(TransferFn::Bt709), 1);
    assert_eq!(transfer_to_h273(TransferFn::Bt470Bg), 4);
    assert_eq!(transfer_to_h273(TransferFn::Linear), 8);
    assert_eq!(transfer_to_h273(TransferFn::St2084), 16, "HDR10 PQ");
    assert_eq!(transfer_to_h273(TransferFn::AribStdB67), 18, "HLG");
    assert_eq!(
        transfer_to_h273(TransferFn::Unspecified),
        1,
        "Unspecified collapses to canonical Bt709"
    );
}

fn av1_of(p: SessionPlan) -> Av1Config {
    match p.codec {
        CodecOverride::Av1(a) => a,
        other => panic!("not an AV1 plan: {other:?}"),
    }
}

#[test]
fn test_nvenc_av1_config_10bit_hdr_layout() {
    let cm = ColorMetadata {
        transfer: TransferFn::St2084,
        matrix_coefficients: 9,
        colour_primaries: 9,
        full_range: true,
        mastering_display: None,
        content_light_level: None,
    };
    let cfg = av1_of(plan(&EncoderConfig {
        pixel_format: PixelFormat::Yuv420p10le,
        color_metadata: cm,
        ..Default::default()
    }));
    assert_eq!(cfg.output_bit_depth, 10, "NV_ENC_BIT_DEPTH_10");
    assert_eq!(cfg.input_bit_depth, 10, "NV_ENC_BIT_DEPTH_10 input");
    assert_eq!(cfg.color_primaries, 9, "BT.2020");
    assert_eq!(cfg.transfer_characteristics, 16, "ST 2084 / PQ");
    assert_eq!(cfg.matrix_coefficients, 9, "BT.2020 NCL");
    assert_eq!(cfg.color_range, 1, "full range");
    assert_eq!(
        cfg.flags & AV1_CHROMA_FORMAT_IDC_420,
        AV1_CHROMA_FORMAT_IDC_420,
        "chromaFormatIDC=1 (4:2:0) packed into flags bits 7-8"
    );
}

#[test]
fn test_nvenc_av1_config_8bit_sdr_layout() {
    let cfg = av1_of(plan(&EncoderConfig::default()));
    assert_eq!(cfg.output_bit_depth, 8, "NV_ENC_BIT_DEPTH_8");
    assert_eq!(cfg.color_primaries, 1, "BT.709 default");
    assert_eq!(cfg.transfer_characteristics, 1, "BT.709 default");
    assert_eq!(cfg.matrix_coefficients, 1, "BT.709 default");
    assert_eq!(cfg.color_range, 0, "studio range default");
}

#[test]
fn other_codecs_keep_the_drivers_settings() {
    let h264 = EncoderConfig { codec: VideoCodec::H264, ..Default::default() };
    assert_eq!(plan(&h264).codec, CodecOverride::Untouched);
    let main10 = EncoderConfig {
        codec: VideoCodec::H265,
        pixel_format: PixelFormat::Yuv420p10le,
        ..Default::default()
    };
    assert!(matches!(plan(&main10).codec, CodecOverride::HevcBitDepth(_)));
    let bad = EncoderConfig { pixel_format: PixelFormat::Rgb24, ..Default::default() };
    assert!(matches!(
        plan_session(&bad, &row(), &seed()),
        Err(PlanError::UnsupportedFormat { format: PixelFormat::Rgb24 })
    ));
}

#[test]
fn test_guid_roundtrip() {
    let bytes: [u8; 16] = [
        0xb4, 0xe6, 0xc6, 0x21, 0x7a, 0x29, 0xba, 0x4c, 0x99, 0x8f, 0xb6, 0xcb, 0xde, 0x72, 0xad,
        0xe3,
    ];
    let g = guid_from_bytes(bytes);
    assert_eq!(g.data1, preset_p5_guid().data1);
    assert_eq!(g.data2, preset_p5_guid().data2);
    assert_eq!(g.data3, preset_p5_guid().data3);
    assert_eq!(g.data4, preset_p5_guid().data4);
    assert_eq!(guid_to_bytes(g), bytes);
}

#[test]
fn guids_tell_codecs_profiles_and_presets_apart() {
    let codecs = [VideoCodec::Av1, VideoCodec::H264, VideoCodec::H265];
    let ids: Vec<[u8; 16]> = codecs.iter().map(|&c| guid_to_bytes(nvenc_codec_guid(c))).collect();
    assert!(ids[0] != ids[1] && ids[1] != ids[2] && ids[0] != ids[2]);
    let main = guid_to_bytes(nvenc_profile_guid(VideoCodec::H265, false));
    let main10 = guid_to_bytes(nvenc_profile_guid(VideoCodec::H265, true));
    assert_ne!(main, main10);
    assert_ne!(guid_to_bytes(preset_p6_guid()), guid_to_bytes(preset_p7_guid()));
}

#[test]
fn version_words_carry_the_marker() {
    assert_eq!(struct_version(1), 13 | (1 << 16) | (7 << 28));
}

#[test]
fn drivers_older_than_twelve_are_refused() {
    assert_eq!(check_driver_version(0xd0), Ok((13, 0)));
    assert_eq!(check_driver_version(0xc2), Ok((12, 2)));
    let e = check_driver_version(0xb1).unwrap_err();
    assert_eq!(e, PlanError::DriverTooOld { major: 11, minor: 1 });
    assert_eq!(e.message(), "NVENC driver API < 12 does not support AV1 (got 11.1)");
}

#[test]
fn capabilities_are_held_against_the_request() {
    let all = [nvenc_codec_guid(VideoCodec::H264), nvenc_codec_guid(VideoCodec::Av1)];
    let cfg = EncoderConfig::default();
    let check = |cfg: &EncoderConfig, listed: &[Guid], max_width: i32, max_height: i32, ten: i32| {
        let guids = listed.to_vec();
        let report = DriverReport::Listed { guids, max_width, max_height, ten_bit: ten };
        check_capabilities(cfg, 3, &report)
    };
    assert_eq!(check(&cfg, &all, 8192, 8192, 1), Ok(()));
    assert_eq!(check(&cfg, &all, -1, -1, 1), Ok(()), "a device that does not say is believed");
    assert_eq!(
        check(&cfg, &all[..1], 8192, 8192, 1),
        Err(PlanError::CodecUnsupported { gpu_index: 3, codec: VideoCodec::Av1, advertised: 1 })
    );
    let e = check(&cfg, &all, 1280, 720, 1).unwrap_err();
    assert_eq!(e.message(), "NVENC Av1 on GPU 3 maxes at 1280x720, requested 1920x1080");
    let ten = EncoderConfig { pixel_format: PixelFormat::Yuv420p10le, ..Default::default() };
    assert_eq!(
        check(&ten, &all, 8192, 8192, 0),
        Err(PlanError::NoTenBit { gpu_index: 3, codec: VideoCodec::Av1 })
    );
    assert_eq!(
        check_capabilities(&cfg, 3, &DriverReport::GuidCountFailed),
        Err(PlanError::GuidCountFailed { gpu_index: 3 })
    );
    assert_eq!(
        check_capabilities(&cfg, 3, &DriverReport::GuidsFailed),
        Err(PlanError::GuidsFailed { gpu_index: 3 })
    );
}

#[test]
fn a_session_opens_stage_by_stage() {
    let mut stage = Stage::CudaInit;
    let mut calls = 0;
    while stage != Stage::Ready {
        stage = next_stage(stage);
        calls += 1;
    }
    assert_eq!(calls, 7 + 2 * RING_SIZE);
}

#[test]
fn failures_give_back_what_was_acquired() {
    assert!(unwind(&OpenError::CudaInit).is_empty());
    assert!(unwind(&OpenError::Device { gpu_index: 0 }).is_empty());
    assert!(unwind(&OpenError::CudaContext).is_empty());
    assert_eq!(unwind(&OpenError::Open { status: 1 }), [Release::Context]);
    for e in [
        OpenError::Capabilities { why: PlanError::GuidsFailed { gpu_index: 0 } },
        OpenError::Preset { status: 1 },
        OpenError::Initialize { status: 1 },
        OpenError::Input { slot: 0, status: 1 },
    ] {
        assert_eq!(unwind(&e), [Release::Encoder, Release::Context], "{e:?}");
    }
    assert_eq!(
        unwind(&OpenError::Bitstream { slot: 1, status: 10 }),
        [
            Release::Input { slot: 1 },
            Release::Input { slot: 0 },
            Release::Bitstream { slot: 0 },
            Release::Encoder,
            Release::Context,
        ]
    );
    let all = close();
    assert_eq!(all.len(), 2 * RING_SIZE + 2);
    assert_eq!(all[0], Release::Input { slot: RING_SIZE - 1 });
    assert_eq!(all[all.len() - 1], Release::Context);
}

#[test]
fn opening_errors_name_the_call() {
    assert_eq!(OpenError::CudaInit.message(), "cuInit failed");
    assert_eq!(OpenError::Device { gpu_index: 2 }.message(), "cuDeviceGet failed for GPU 2");
    assert_eq!(OpenError::CudaContext.message(), "cuCtxCreate failed");
    assert_eq!(OpenError::Open { status: 5 }.message(), "NvEncOpenEncodeSessionEx failed: 5");
    assert_eq!(
        OpenError::Preset { status: 8 }.message(),
        "NvEncGetEncodePresetConfigEx failed: 8"
    );
    assert_eq!(
        OpenError::Initialize { status: 8 }.message(),
        "NvEncInitializeEncoder failed: 8"
    );
    assert_eq!(
        OpenError::Input { slot: 3, status: 10 }.message(),
        "NvEncCreateInputBuffer (slot 3) failed: 10"
    );
    assert_eq!(
        OpenError::Bitstream { slot: 3, status: 10 }.message(),
        "NvEncCreateBitstreamBuffer (slot 3) failed: 10"
    );
}

fn granted(frame_idx: u32, pts: u64, key: bool) -> LockAnswer {
    LockAnswer::Granted {
        size: 2,
        bytes: vec![frame_idx as u8, 0x77],
        picture_type: if key { NV_ENC_PIC_TYPE_IDR } else { NV_ENC_PIC_TYPE_P },
        time_stamp: pts,
        frame_idx,
        unlock_status: NV_ENC_SUCCESS,
    }
}

#[test]
fn lock_answers_are_packets_waits_or_errors() {
    for status in [NV_ENC_ERR_NEED_MORE_INPUT, NV_ENC_ERR_LOCK_BUSY, NV_ENC_ERR_INVALID_PARAM] {
        assert!(drain_bitstream(&LockAnswer::Refused { status }).unwrap().is_none());
    }
    let fatal = NV_ENC_ERR_ENCODER_NOT_INITIALIZED;
    let e = drain_bitstream(&LockAnswer::Refused { status: fatal }).unwrap_err();
    assert_eq!(e.message(), "NvEncLockBitstream failed (fatal): 11");
    let e = drain_bitstream(&LockAnswer::Refused { status: 20 }).unwrap_err();
    assert_eq!(e.message(), "NvEncLockBitstream failed: 20");

    let with = |size: u32, unlock_status: u32| LockAnswer::Granted {
        size,
        bytes: Vec::new(),
        picture_type: 0,
        time_stamp: 0,
        frame_idx: 0,
        unlock_status,
    };
    let e = drain_bitstream(&with(MAX_BITSTREAM_BYTES as u32 + 1, 0)).unwrap_err();
    assert_eq!(e, NvencError::ImplausibleSize { size: 16_777_217 });
    assert!(e.message().contains("16777217 bytes (max 16777216)"), "{}", e.message());
    let e = drain_bitstream(&with(1, 4)).unwrap_err();
    assert_eq!(e.message(), "NvEncUnlockBitstream failed: 4");
    assert!(drain_bitstream(&with(0, 0)).unwrap().is_none());

    let d = drain_bitstream(&granted(9, 1234, true)).unwrap().unwrap();
    assert_eq!((d.frame_idx, d.packet.pts, d.packet.is_keyframe), (9, 1234, true));
    assert_eq!(&d.packet.data[..], [9, 0x77]);
}

fn send(enc: &mut NvencEncoder, pts: u64, status: u32) -> u32 {
    let slot = match enc.begin_frame(PixelFormat::Yuv420p).unwrap() {
        SlotStep::Upload(slot) => slot,
        SlotStep::Collect(slot) => panic!("slot {slot} is still held"),
    };
    let pic = enc.picture(slot, pts);
    match enc.submitted(slot, status).unwrap() {
        SubmitStep::Drain => {
            let key = pic.flags & NV_ENC_PIC_FLAG_FORCEIDR != 0;
            enc.drained(slot, &granted(pic.frame_idx, pts, key)).unwrap();
        }
        SubmitStep::Held => {}
    }
    pic.flags
}

#[test]
fn every_picture_in_is_a_packet_out() {
    let cfg = EncoderConfig { keyframe_interval: 4, ..Default::default() };
    let mut enc = NvencEncoder::new(cfg);
    for i in 0..10u64 {
        let flags = send(&mut enc, 100 + i, NV_ENC_SUCCESS);
        assert_eq!(flags & NV_ENC_PIC_FLAG_FORCEIDR != 0, i % 4 == 0, "picture {i}");
    }
    assert!(matches!(enc.flush_begin(), FlushStep::Done), "nothing is held back");
    enc.flush_end();
    let mut pts = Vec::new();
    while let Some(p) = enc.receive_packet() {
        assert_eq!(p.is_keyframe, (p.pts - 100) % 4 == 0);
        pts.push(p.pts);
    }
    assert_eq!(pts, (100..110).collect::<Vec<u64>>());
}

#[test]
fn a_full_ring_collects_its_oldest_first() {
    let mut enc = NvencEncoder::new(EncoderConfig::default());
    for i in 0..RING_SIZE as u64 {
        send(&mut enc, i, NV_ENC_ERR_NEED_MORE_INPUT);
    }
    let step = enc.begin_frame(PixelFormat::Yuv420p).unwrap();
    assert_eq!(step, SlotStep::Collect(0), "the slot that has waited longest");
    let e = enc.collected(0, &LockAnswer::Refused { status: NV_ENC_ERR_LOCK_BUSY }).unwrap_err();
    assert_eq!(e, NvencError::HeldForever { slot: 0 });
    let gap = " ".repeat(29);
    assert_eq!(
        e.message(),
        format!(
            "NVENC slot 0 yielded no packet on a blocking lock. The {gap}encoder is holding 16 frames and will not release one; {gap}overwriting a held surface would emit the wrong picture."
        )
    );

    let mut enc = NvencEncoder::new(EncoderConfig::default());
    for i in 0..RING_SIZE as u64 {
        send(&mut enc, i, NV_ENC_ERR_NEED_MORE_INPUT);
    }
    assert_eq!(enc.begin_frame(PixelFormat::Yuv420p).unwrap(), SlotStep::Collect(0));
    enc.collected(0, &granted(0, 0, true)).unwrap();
    assert_eq!(enc.begin_frame(PixelFormat::Yuv420p).unwrap(), SlotStep::Upload(0));
    assert_eq!(enc.receive_packet().unwrap().pts, 0);
}

#[test]
fn flushing_walks_the_ring_and_skips_repeats() {
    let mut enc = NvencEncoder::new(EncoderConfig::default());
    send(&mut enc, 0, NV_ENC_SUCCESS);
    send(&mut enc, 1, NV_ENC_ERR_NEED_MORE_INPUT);
    match enc.flush_begin() {
        FlushStep::EndOfStream { flags, walk, .. } => {
            assert_eq!(flags, NV_ENC_PIC_FLAG_EOS);
            assert_eq!(walk.len(), RING_SIZE);
            for slot in walk {
                let answer = match slot {
                    0 => granted(1, 1, false),
                    1 => LockAnswer::Refused { status: NV_ENC_ERR_INVALID_PARAM },
                    _ => LockAnswer::Refused { status: NV_ENC_ERR_INVALID_PARAM },
                };
                enc.flushed_slot(slot, &answer).unwrap();
                // The driver hands the same packet out again.
                enc.flushed_slot(slot, &answer).unwrap();
            }
        }
        FlushStep::Done => panic!("a picture is still held"),
    }
    enc.flush_end();
    assert_eq!(enc.receive_packet().unwrap().pts, 0);
    assert_eq!(enc.receive_packet().unwrap().pts, 1);
    assert!(enc.receive_packet().is_none(), "a repeat is not queued");
}

#[test]
fn a_restart_prefixes_the_headers_once() {
    let cfg = EncoderConfig { codec: VideoCodec::H264, ..Default::default() };
    let mut enc = NvencEncoder::new(cfg);
    send(&mut enc, 0, NV_ENC_SUCCESS);
    assert_eq!(enc.reset_check(true, true), Ok(()));
    assert_eq!(enc.reset_check(false, true), Err(NvencError::ResetUnsupported));
    assert_eq!(enc.reset_check(true, false), Err(NvencError::ResetUnsupported));
    assert_eq!(enc.reconfigured(0), Ok(true), "H.264 has to be asked for its parameter sets");
    let refused = enc.reconfigured(8).unwrap_err();
    assert_eq!(
        refused.message(),
        "NvEncReconfigureEncoder (resetEncoder=1, forceIDR=1) failed: 8"
    );
    enc.reset_done(vec![1, 2, 3]);
    assert!(enc.receive_packet().is_none(), "the old stream is gone");
    let flags = send(&mut enc, 7, NV_ENC_SUCCESS);
    assert_ne!(flags & NV_ENC_PIC_FLAG_FORCEIDR, 0, "a stream opens on a keyframe");
    send(&mut enc, 8, NV_ENC_SUCCESS);
    let first = enc.receive_packet().unwrap();
    assert_eq!(&first.data[..], [1, 2, 3, 1, 0x77]);
    let second = enc.receive_packet().unwrap();
    assert_eq!(&second.data[..], [2, 0x77]);
}

#[test]
fn coding_errors_are_named() {
    let mut enc = NvencEncoder::new(EncoderConfig::default());
    let e = enc.begin_frame(PixelFormat::Nv12).unwrap_err();
    assert_eq!(e.message(), "NVENC session was initialized with Yuv420p but frame is Nv12");
    let slot = match enc.begin_frame(PixelFormat::Yuv420p).unwrap() {
        SlotStep::Upload(slot) => slot,
        SlotStep::Collect(_) => panic!("the ring is empty"),
    };
    let e = enc.submitted(slot, 20).unwrap_err();
    assert_eq!(e.message(), "NvEncEncodePicture failed: 20");
    assert_eq!(NvencError::NoneRecorded.message(), "every NVENC slot busy but none recorded");
}
