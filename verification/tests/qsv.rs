//! The QSV session: parameters, surfaces, coding.

use bytes::Bytes;
use codec::config::EncoderConfig;
use codec::frame::{
    transfer_to_h273, ColorMetadata, PixelFormat, TransferFn, VideoCodec, VideoFrame,
};
use codec::qsv::api::{
    ASYNC_DEPTH, MAX_BITSTREAM_BYTES, MFX_CHROMAFORMAT_YUV420, MFX_CODEC_AV1, MFX_CODEC_HEVC,
    MFX_ERR_MORE_DATA, MFX_ERR_MORE_SURFACE, MFX_ERR_NONE, MFX_ERR_NOT_ENOUGH_BUFFER,
    MFX_EXTBUFF_AV1_BITSTREAM_PARAM, MFX_EXTBUFF_AV1_TILE_PARAM, MFX_EXTBUFF_CODING_OPTION3,
    MFX_EXTBUFF_VIDEO_SIGNAL_INFO, MFX_FOURCC_NV12, MFX_FOURCC_P010, MFX_FRAMETYPE_I,
    MFX_FRAMETYPE_IDR, MFX_FRAMETYPE_REF, MFX_PICSTRUCT_PROGRESSIVE, MFX_PROFILE_AV1_MAIN,
    MFX_PROFILE_HEVC_MAIN10, MFX_RATECONTROL_CQP, MFX_RATECONTROL_ICQ, MFX_WRN_DEVICE_BUSY,
    MFX_WRN_PARTIAL_ACCELERATION, MFX_WRN_VIDEO_PARAM_CHANGED, POOL_SIZE,
};
use codec::qsv::encoder::{
    first_free_slot, Attempt, FlushStep, PoolStep, QsvEncoder, QsvError, SubmitStep, SyncAnswer,
};
use codec::qsv::params::{
    align_up, apply_query, build_video_param, check_init, check_session, clamp_target_usage,
    coding_option3_ten_bit, crf_to_icq, crf_to_qp, inter_qp, neutral_surface, qsv_bit_depth_triple,
    qsv_codec_ids, qsv_fourcc_for, query_verdict, rate_slots_for_rc, signal_info_for,
    surface_shape, zeroed_video_param, MfxFrameInfo, MfxInfoMfx, QsvPlanError, QueryLog,
    QueryVerdict,
};
use codec::rate::FrameRate;
use codec::tuning::{QsvParams, QsvRateControl, QualityTarget, SpeedTier};

fn row(rc_mode: QsvRateControl) -> QsvParams {
    QsvParams {
        rc_mode,
        icq_quality: 26,
        qp_i: 128,
        qp_p: 136,
        target_usage: 4,
        low_power: 0,
        num_tile_columns: 2,
        num_tile_rows: 1,
    }
}

#[test]
fn test_qsv_icq_quality_lands_on_correct_struct_field() {
    let slots = rate_slots_for_rc(QsvRateControl::Icq, 0, 0, 28);
    assert_eq!(slots.slot1_qpp_or_kbps_or_icq, 28, "ICQ quality must land in slot 1");
    assert_eq!(slots.slot0_qpi_or_delay, 0, "slot 0 is InitialDelayInKB/QPI/Accuracy");
    assert_eq!(slots.slot2_qpb_or_maxkbps, 0, "slot 2 is MaxKbps/QPB/Convergence");
}

#[test]
fn test_qsv_cqp_slots_mirror_qpi_qpp_qpb() {
    let slots = rate_slots_for_rc(QsvRateControl::Cqp, 72, 96, 0);
    assert_eq!(slots.slot0_qpi_or_delay, 72);
    assert_eq!(slots.slot1_qpp_or_kbps_or_icq, 96);
    assert_eq!(slots.slot2_qpb_or_maxkbps, 96);
}

#[test]
fn test_qsv_target_usage_maps_from_speed_tier() {
    let cases = [
        (SpeedTier::Archive, 1u16, "1 = BEST_QUALITY per mfxdefs.h:91"),
        (SpeedTier::Standard, 4u16, "4 = BALANCED per mfxdefs.h:92"),
        (SpeedTier::Draft, 6u16, "6 = one step from BEST_SPEED (7)"),
    ];
    for (tier, expected, reason) in cases {
        let tp = QsvParams { target_usage: expected, ..row(QsvRateControl::Icq) };
        let got = clamp_target_usage(tp.target_usage);
        assert_eq!(got, expected, "{tier:?} → {got} (want {expected}, {reason})");
        assert!((1..=7).contains(&got), "TargetUsage must be 1..7");
        let cfg = EncoderConfig { width: 1920, height: 1080, tier, ..Default::default() };
        assert_eq!(build_video_param(&cfg, &tp).unwrap().mfx.target_usage, expected);
    }
}

#[test]
fn test_qsv_target_usage_clamps_out_of_range() {
    assert_eq!(clamp_target_usage(0), 1, "0 clamps up to 1");
    assert_eq!(clamp_target_usage(8), 7, "8 clamps down to 7");
    assert_eq!(clamp_target_usage(255), 7, "255 clamps down to 7");
    assert_eq!(clamp_target_usage(4), 4, "4 passes through");
}

#[test]
fn a_slot_the_runtime_holds_is_never_chosen() {
    let slots = [(true, 1u16), (true, 2), (false, 0), (true, 0), (true, 0)];
    let syncs = slots.map(|(drained, _)| if drained { None } else { Some(7) });
    let locked = slots.map(|(_, locked)| locked);
    assert_eq!(
        first_free_slot(&syncs, &locked),
        Some(3),
        "must skip both held slots and the one with a pending sync point"
    );
}

#[test]
fn the_pool_is_larger_than_the_async_depth() {
    assert_eq!(ASYNC_DEPTH, 4, "upstream sample_encode's recommendation");
    assert!(POOL_SIZE > ASYNC_DEPTH, "there must be a free surface for the next frame");
}

fn small() -> EncoderConfig {
    EncoderConfig { width: 16, height: 16, codec: VideoCodec::H265, ..Default::default() }
}

fn picture(pts: u64) -> VideoFrame {
    VideoFrame::new(Bytes::from(vec![pts as u8; 16 * 16 * 3 / 2]), 16, 16, PixelFormat::Yuv420p, pts)
}

fn chosen(enc: &mut QsvEncoder, f: &VideoFrame) -> usize {
    match enc.begin_frame(f, &[0; POOL_SIZE]).unwrap() {
        PoolStep::Upload(slot) => slot,
        PoolStep::Sync(due) => panic!("surface {} is still due", due.slot),
    }
}

#[test]
fn test_qsv_more_data_on_encode_returns_no_packet() {
    let simulate = |rc: i32, sync: Option<u64>| {
        let mut enc = QsvEncoder::new(small());
        let f = picture(0);
        let slot = chosen(&mut enc, &f);
        enc.upload(slot, &f);
        let step = enc.submitted(slot, Attempt::First, rc, sync);
        (step, enc.receive_packet().is_none())
    };
    assert_eq!(simulate(MFX_ERR_MORE_DATA, None), (Ok(SubmitStep::NoPacket), true));
    assert_eq!(simulate(MFX_ERR_NONE, Some(5)), (Ok(SubmitStep::Queued), true));
    assert!(simulate(-1, None).0.is_err(), "unknown negative = hard error");
    assert_eq!(
        simulate(-1, None).0.unwrap_err().message(),
        "MFXVideoENCODE_EncodeFrameAsync failed: -1"
    );
}

#[test]
fn test_qsv_eof_drain_ends_cleanly() {
    assert_eq!(
        QsvEncoder::flush_status(MFX_ERR_MORE_DATA, None).unwrap(),
        FlushStep::End,
        "clean EOF: flush terminates on MORE_DATA without error"
    );
    assert_eq!(
        QsvEncoder::flush_status(MFX_ERR_NONE, Some(9)).unwrap(),
        FlushStep::Sync(9),
        "NONE: flush has more output to drain"
    );
    assert_eq!(
        QsvEncoder::flush_status(MFX_WRN_VIDEO_PARAM_CHANGED, None).unwrap(),
        FlushStep::Again,
        "warning: flush keeps looping to drain the bitstream"
    );
    let e = QsvEncoder::flush_status(-5, None);
    assert!(e.is_err(), "hard negative error bails");
    assert_eq!(
        e.unwrap_err().message(),
        "MFXVideoENCODE_EncodeFrameAsync(flush) failed: -5"
    );
}

#[test]
fn test_qsv_more_data_and_more_surface_are_distinct() {
    assert_eq!(MFX_ERR_MORE_DATA, -10);
    assert_eq!(MFX_ERR_MORE_SURFACE, -11);
    assert_ne!(MFX_ERR_MORE_DATA, MFX_ERR_MORE_SURFACE);
}

#[test]
fn test_qsv_fourcc_literals_match_macro() {
    fn make(a: u8, b: u8, c: u8, d: u8) -> u32 {
        (a as u32) | ((b as u32) << 8) | ((c as u32) << 16) | ((d as u32) << 24)
    }
    assert_eq!(MFX_CODEC_AV1, make(b'A', b'V', b'1', b' '));
    assert_eq!(MFX_FOURCC_NV12, make(b'N', b'V', b'1', b'2'));
    assert_eq!(MFX_EXTBUFF_AV1_TILE_PARAM, make(b'A', b'1', b'T', b'L'));
    assert_eq!(MFX_EXTBUFF_AV1_BITSTREAM_PARAM, make(b'A', b'V', b'1', b'B'));
}

#[test]
fn test_qsv_profile_main_equals_one() {
    assert_eq!(MFX_PROFILE_AV1_MAIN, 1);
}

#[test]
fn test_qsv_chroma_format_yuv420_equals_one() {
    assert_eq!(MFX_CHROMAFORMAT_YUV420, 1);
}

#[test]
fn test_qsv_rc_mode_values_match_spec() {
    assert_eq!(MFX_RATECONTROL_CQP, 3);
    assert_eq!(MFX_RATECONTROL_ICQ, 9);
}

#[test]
fn test_qsv_mfx_info_fields_from_slots() {
    let slots = rate_slots_for_rc(QsvRateControl::Icq, 0, 0, 33);
    let mfx = MfxInfoMfx {
        low_power: 0,
        brc_param_multiplier: 0,
        frame_info: MfxFrameInfo {
            bit_depth_luma: 8,
            bit_depth_chroma: 8,
            shift: 0,
            fourcc: MFX_FOURCC_NV12,
            width: 1920,
            height: 1080,
            crop_x: 0,
            crop_y: 0,
            crop_w: 1920,
            crop_h: 1080,
            frame_rate_ext_n: 30000,
            frame_rate_ext_d: 1000,
            aspect_ratio_w: 1,
            aspect_ratio_h: 1,
            pic_struct: MFX_PICSTRUCT_PROGRESSIVE,
            chroma_format: MFX_CHROMAFORMAT_YUV420,
        },
        codec_id: MFX_CODEC_AV1,
        codec_profile: MFX_PROFILE_AV1_MAIN,
        codec_level: 0,
        num_thread: 0,
        target_usage: 4,
        gop_pic_size: 240,
        gop_ref_dist: 1,
        gop_opt_flag: 0,
        idr_interval: 0,
        rate_control_method: MFX_RATECONTROL_ICQ,
        qpi_or_delay: slots.slot0_qpi_or_delay,
        buffer_size_kb: 0,
        qpp_or_kbps_or_icq: slots.slot1_qpp_or_kbps_or_icq,
        qpb_or_maxkbps: slots.slot2_qpb_or_maxkbps,
        num_slice: 0,
        num_ref_frame: 1,
        encoded_order: 0,
    };
    assert_eq!(mfx.qpp_or_kbps_or_icq, 33, "ICQQuality lives at slot 1");
    assert_eq!(mfx.qpi_or_delay, 0, "slot 0 must be zero in ICQ mode");
    assert_eq!(mfx.qpb_or_maxkbps, 0, "slot 2 must be zero in ICQ mode");
    assert_eq!(mfx.rate_control_method, MFX_RATECONTROL_ICQ);
}

#[test]
fn test_qsv_zeroed_video_param_is_all_zero() {
    let z = zeroed_video_param();
    assert_eq!(z.mfx.codec_id, 0);
    assert_eq!(z.mfx.codec_profile, 0);
    assert_eq!(z.mfx.rate_control_method, 0);
    assert_eq!(z.mfx.qpi_or_delay, 0);
    assert_eq!(z.mfx.qpp_or_kbps_or_icq, 0);
    assert_eq!(z.mfx.qpb_or_maxkbps, 0);
    assert_eq!(z.mfx.frame_info.width, 0);
    assert_eq!(z.mfx.frame_info.height, 0);
    assert!(z.tiles.is_none() && z.signal_info.is_none() && z.coding_option3.is_none());
    assert_eq!((z.async_depth, z.io_pattern, z.mfx.low_power, z.mfx.num_ref_frame), (0, 0, 0, 0));
}

#[test]
fn test_qsv_align_up_power_of_two() {
    assert_eq!(align_up(1u32, 16u32), 16);
    assert_eq!(align_up(16u32, 16u32), 16);
    assert_eq!(align_up(17u32, 16u32), 32);
    assert_eq!(align_up(1920u32, 64u32), 1920);
    assert_eq!(align_up(1921u32, 64u32), 1984);
}

#[test]
fn test_qsv_icq_flow_preserves_tuning_adapter_value() {
    for (w, h) in [(640, 360), (1920, 1080), (3840, 2160)] {
        for (target, icq_quality) in [
            (QualityTarget::Low, 31),
            (QualityTarget::Standard, 26),
            (QualityTarget::High, 22),
        ] {
            let tp = QsvParams { icq_quality, ..row(QsvRateControl::Icq) };
            let slots = rate_slots_for_rc(tp.rc_mode, 0, 0, tp.icq_quality);
            assert_eq!(
                slots.slot1_qpp_or_kbps_or_icq, tp.icq_quality,
                "ICQ quality value must reach slot 1 end-to-end — {target:?}/{w}x{h}"
            );
            assert_eq!(slots.slot0_qpi_or_delay, 0);
            assert_eq!(slots.slot2_qpb_or_maxkbps, 0);
            let cfg = EncoderConfig { width: w, height: h, target, ..Default::default() };
            let mfx = build_video_param(&cfg, &tp).unwrap().mfx;
            assert_eq!(mfx.qpp_or_kbps_or_icq, tp.icq_quality);
            assert_eq!(mfx.rate_control_method, MFX_RATECONTROL_ICQ);
        }
    }
}

#[test]
fn test_qsv_fourcc_dispatch_10bit() {
    assert_eq!(qsv_fourcc_for(PixelFormat::Yuv420p).unwrap(), MFX_FOURCC_NV12);
    assert_eq!(qsv_fourcc_for(PixelFormat::Yuv420p10le).unwrap(), MFX_FOURCC_P010);
    assert_eq!(MFX_FOURCC_P010, 0x30313050, "P010 FOURCC = 'P','0','1','0' LE");
}

#[test]
fn test_qsv_fourcc_dispatch_rejects_4_2_2_and_4_4_4() {
    for unsupported in [
        PixelFormat::Yuv422p,
        PixelFormat::Yuv422p10le,
        PixelFormat::Yuv444p,
        PixelFormat::Yuv444p10le,
        PixelFormat::Yuva444p10le,
        PixelFormat::Nv12,
        PixelFormat::Rgb24,
    ] {
        assert!(
            qsv_fourcc_for(unsupported).is_err(),
            "{unsupported:?} must be rejected by QSV dispatch"
        );
    }
}

#[test]
fn test_qsv_bit_depth_triple_dispatch() {
    let (luma8, chroma8, shift8) = qsv_bit_depth_triple(PixelFormat::Yuv420p);
    assert_eq!((luma8, chroma8, shift8), (8, 8, 0), "NV12: 8-bit, no shift");

    let (luma10, chroma10, shift10) = qsv_bit_depth_triple(PixelFormat::Yuv420p10le);
    assert_eq!(
        (luma10, chroma10, shift10),
        (10, 10, 1),
        "P010: 10-bit + Shift=1 (upper-10-bit convention)"
    );
}

#[test]
fn test_qsv_transfer_to_h273_codes() {
    assert_eq!(transfer_to_h273(TransferFn::Bt709), 1);
    assert_eq!(transfer_to_h273(TransferFn::Bt470Bg), 4);
    assert_eq!(transfer_to_h273(TransferFn::Linear), 8);
    assert_eq!(transfer_to_h273(TransferFn::St2084), 16, "HDR10 PQ");
    assert_eq!(transfer_to_h273(TransferFn::AribStdB67), 18, "HLG");
    assert_eq!(transfer_to_h273(TransferFn::Unspecified), 1);
}

#[test]
fn test_qsv_frame_info_p010_layout() {
    let cfg = EncoderConfig {
        width: 1920,
        height: 1080,
        frame_rate: FrameRate { nanos: 30_000_000_000 },
        pixel_format: PixelFormat::Yuv420p10le,
        ..Default::default()
    };
    let fi = build_video_param(&cfg, &row(QsvRateControl::Icq)).unwrap().mfx.frame_info;
    assert_eq!(fi.bit_depth_luma, 10);
    assert_eq!(fi.bit_depth_chroma, 10);
    assert_eq!(fi.shift, 1, "P010 must set Shift=1");
    assert_eq!(fi.fourcc, MFX_FOURCC_P010);
    assert_eq!(fi.chroma_format, MFX_CHROMAFORMAT_YUV420, "still 4:2:0 sub-sampling");
    assert_eq!((fi.width, fi.height), (1920, 1088));
    assert_eq!((fi.crop_w, fi.crop_h), (1920, 1080));
    assert_eq!((fi.frame_rate_ext_n, fi.frame_rate_ext_d), (30000, 1000));
}

#[test]
fn test_qsv_coding_option3_10bit_layout() {
    let co3 = coding_option3_ten_bit();
    assert_eq!(co3.target_bit_depth_luma, 10, "AV1 BitDepth=10 in seq header");
    assert_eq!(co3.target_bit_depth_chroma, 10, "AV1 BitDepth=10 in seq header");
    assert_eq!(co3.target_chroma_format_plus1, 2, "MFX_CHROMAFORMAT_YUV420 (1) + 1 = 2");
    assert_eq!(MFX_EXTBUFF_CODING_OPTION3, 0x334f4443);
}

#[test]
fn test_qsv_signal_info_hdr10_layout() {
    let cm = ColorMetadata {
        transfer: TransferFn::St2084,
        matrix_coefficients: 9,
        colour_primaries: 9,
        full_range: true,
        mastering_display: None,
        content_light_level: None,
    };
    let signal_info = signal_info_for(&cm);
    assert_eq!(signal_info.video_format, 5);
    assert_eq!(signal_info.colour_description_present, 1, "must be set so codes emit");
    assert_eq!(signal_info.colour_primaries, 9, "BT.2020");
    assert_eq!(signal_info.transfer_characteristics, 16, "ST 2084 / PQ");
    assert_eq!(signal_info.matrix_coefficients, 9, "BT.2020 NCL");
    assert_eq!(signal_info.video_full_range, 1, "full range");
    assert_eq!(
        MFX_EXTBUFF_VIDEO_SIGNAL_INFO, 0x4e495356,
        "ext buffer ID must match upstream MFX_MAKE_FOURCC('V','S','I','N')"
    );
}

#[test]
fn test_qsv_8bit_sdr_layout_unchanged() {
    let (bdl, bdc, shift) = qsv_bit_depth_triple(PixelFormat::Yuv420p);
    assert_eq!((bdl, bdc, shift), (8, 8, 0), "8-bit dispatch unchanged");

    let signal_info = signal_info_for(&ColorMetadata::default());
    assert_eq!(signal_info.colour_primaries, 1, "BT.709 default");
    assert_eq!(signal_info.transfer_characteristics, 1, "BT.709 default");
    assert_eq!(signal_info.matrix_coefficients, 1, "BT.709 default");
    assert_eq!(signal_info.video_full_range, 0, "studio range default");
}

#[test]
fn crf_reads_on_each_codecs_own_native_scale() {
    for c in [VideoCodec::H265, VideoCodec::H264] {
        assert_eq!(crf_to_icq(c, 22), 22, "{c:?} CRF is already on the ICQ scale");
        assert_eq!(crf_to_qp(c, 22), 22, "{c:?} CRF is already on the QP scale");
        assert_eq!(crf_to_qp(c, 200), 51);
        assert_eq!(crf_to_icq(c, 200), 51);
        assert_eq!(crf_to_icq(c, 0), 1);
    }

    assert_eq!(crf_to_qp(VideoCodec::Av1, 32), 128);
    assert_eq!(crf_to_qp(VideoCodec::Av1, 63), 252);
    assert_eq!(crf_to_qp(VideoCodec::Av1, 200), 252, "clamped to the 0..63 scale first");
    assert_eq!(crf_to_icq(VideoCodec::Av1, 63), 51, "top of scale maps to top of ICQ");
    assert!(
        (25..=27).contains(&crf_to_icq(VideoCodec::Av1, 32)),
        "libaom cq 32 should land near ICQ 26, got {}",
        crf_to_icq(VideoCodec::Av1, 32)
    );
}

#[test]
fn crf_is_monotonic_so_a_higher_number_really_is_lower_quality() {
    for c in [VideoCodec::Av1, VideoCodec::H265, VideoCodec::H264] {
        for crf in 1u8..50 {
            assert!(
                crf_to_icq(c, crf) <= crf_to_icq(c, crf + 1),
                "{c:?} ICQ not monotonic at {crf}"
            );
            assert!(
                crf_to_qp(c, crf) <= crf_to_qp(c, crf + 1),
                "{c:?} QP not monotonic at {crf}"
            );
        }
    }
}

#[test]
fn inter_qp_steps_coarser_within_the_codecs_range() {
    assert_eq!(inter_qp(VideoCodec::H265, 22), 24);
    assert_eq!(inter_qp(VideoCodec::Av1, 128), 136);
    assert_eq!(inter_qp(VideoCodec::H265, 51), 51);
    assert_eq!(inter_qp(VideoCodec::Av1, 255), 255);
}

#[test]
fn cqp_slots_carry_the_qp_that_cqp_actually_reads() {
    let cqp = rate_slots_for_rc(QsvRateControl::Cqp, 22, 24, 0);
    assert_eq!(cqp.slot0_qpi_or_delay, 22, "QPI must be in slot 0 under CQP");
    assert_eq!(cqp.slot1_qpp_or_kbps_or_icq, 24);

    let icq = rate_slots_for_rc(QsvRateControl::Icq, 0, 0, 22);
    assert_eq!(icq.slot0_qpi_or_delay, 0, "slot 0 is InitialDelayInKB under ICQ");
    assert_eq!(icq.slot1_qpp_or_kbps_or_icq, 22, "ICQQuality must be in slot 1");

    assert_ne!(cqp, icq);
}

#[test]
fn a_forced_constant_quantiser_reaches_the_slots_it_reads() {
    let cfg = EncoderConfig {
        codec: VideoCodec::H265,
        constant_qp: true,
        quality: 22,
        ..Default::default()
    };
    let mfx = build_video_param(&cfg, &row(QsvRateControl::Icq)).unwrap().mfx;
    assert_eq!(mfx.rate_control_method, MFX_RATECONTROL_CQP);
    assert_eq!((mfx.qpi_or_delay, mfx.qpp_or_kbps_or_icq, mfx.qpb_or_maxkbps), (22, 24, 24));
}

#[test]
fn only_av1_asks_for_tiles_and_only_ten_bit_for_depth() {
    let av1 = build_video_param(&EncoderConfig::default(), &row(QsvRateControl::Icq)).unwrap();
    assert_eq!(av1.tiles.map(|t| (t.num_tile_columns, t.num_tile_rows)), Some((2, 1)));
    assert!(av1.coding_option3.is_none());
    let main10 = EncoderConfig {
        codec: VideoCodec::H265,
        pixel_format: PixelFormat::Yuv420p10le,
        ..Default::default()
    };
    let p = build_video_param(&main10, &row(QsvRateControl::Icq)).unwrap();
    assert!(p.tiles.is_none());
    assert_eq!(p.coding_option3, Some(coding_option3_ten_bit()));
    assert_eq!(
        qsv_codec_ids(VideoCodec::H265, PixelFormat::Yuv420p10le),
        (MFX_CODEC_HEVC, MFX_PROFILE_HEVC_MAIN10)
    );
    let bad = EncoderConfig { pixel_format: PixelFormat::Rgb24, ..Default::default() };
    let e = build_video_param(&bad, &row(QsvRateControl::Icq)).unwrap_err();
    assert_eq!(e, QsvPlanError::UnsupportedFormat { format: PixelFormat::Rgb24 });
    assert!(e.message().contains("Rgb24"));
}

#[test]
fn queries_adjust_and_sessions_are_checked() {
    assert_eq!(query_verdict(MFX_ERR_NONE), QueryVerdict::Accepted);
    assert_eq!(query_verdict(MFX_WRN_VIDEO_PARAM_CHANGED), QueryVerdict::Rewritten);
    assert_eq!(query_verdict(MFX_WRN_PARTIAL_ACCELERATION), QueryVerdict::Partial);
    assert_eq!(query_verdict(-3), QueryVerdict::Refused);

    let p = build_video_param(&EncoderConfig::default(), &row(QsvRateControl::Icq)).unwrap();
    let mut out = zeroed_video_param();
    out.mfx.frame_info.width = 2048;
    let adjusted = apply_query(p, MFX_WRN_VIDEO_PARAM_CHANGED, &out);
    assert_eq!(adjusted.mfx.frame_info.width, 2048);
    assert_eq!(adjusted.mfx.frame_info.height, p.mfx.frame_info.height);
    assert_eq!(adjusted.mfx.qpp_or_kbps_or_icq, p.mfx.qpp_or_kbps_or_icq);
    assert_eq!(apply_query(p, MFX_ERR_NONE, &out), p);

    assert_eq!(check_session(Some(1), 0, true), Ok(()));
    assert_eq!(
        check_session(Some(1), -9, true).unwrap_err().message(),
        "MFXCreateSession failed on adapter 1: -9 (no Intel HW implementation for this codec on that card?)"
    );
    assert_eq!(
        check_session(None, -9, false).unwrap_err().message(),
        "MFXInit(HARDWARE_ANY) failed: -9 (no Intel HW implementation for this codec on any card?)"
    );
    assert_eq!(check_init(4), Ok(()));
    assert_eq!(check_init(-3), Err(QsvPlanError::InitFailed { status: -3 }));
    assert!(check_init(-3).unwrap_err().message().starts_with("MFXVideoENCODE_Init failed: -3"));

    let mut log = QueryLog::new();
    assert!(log.first_query_rejection(1, 2, 3));
    assert!(!log.first_query_rejection(1, 2, 3));
    assert!(log.first_query_rejection(1, 2, 4));
}

#[test]
fn surfaces_start_black() {
    let cfg = EncoderConfig { width: 20, height: 18, ..Default::default() };
    let shape = surface_shape(&cfg);
    assert_eq!((shape.pitch, shape.rows), (64, 32));
    assert_eq!((shape.luma_bytes, shape.bytes), (64 * 32, 64 * 48));
    assert_eq!(shape.bitstream_capacity, 2_097_152);
    let v = neutral_surface(&shape, false);
    assert_eq!((v.len(), v[0], v[64 * 32]), (64 * 48, 16, 128));
}

fn sync(enc: &mut QsvEncoder, pts: u64, frame_type: u16) -> Result<(), QsvError> {
    enc.synced(&SyncAnswer {
        status: MFX_ERR_NONE,
        data: vec![pts as u8],
        frame_type,
        time_stamp: pts,
        keyframe_in_bitstream: false,
    })
}

#[test]
fn packets_are_collected_oldest_first() {
    let mut enc = QsvEncoder::new(small());
    for i in 0..POOL_SIZE as u64 {
        let f = picture(i);
        let slot = chosen(&mut enc, &f);
        let s = enc.upload(slot, &f);
        assert_eq!((s.slot, s.frame_order as u64), (slot, i));
        assert_eq!(s.time_stamp, i * 333_333);
        assert_eq!(enc.surface(slot)[0], i as u8);
        let step = enc.submitted(slot, Attempt::First, MFX_ERR_NONE, Some(100 + i)).unwrap();
        assert_eq!(step, SubmitStep::Queued);
        enc.finish_frame();
    }
    let f = picture(9);
    match enc.begin_frame(&f, &[0; POOL_SIZE]).unwrap() {
        PoolStep::Sync(due) => assert_eq!((due.slot, due.sync), (0, 100)),
        PoolStep::Upload(slot) => panic!("surface {slot} is in flight"),
    }
    sync(&mut enc, 0, MFX_FRAMETYPE_I | MFX_FRAMETYPE_IDR).unwrap();
    match enc.begin_frame(&f, &[0; POOL_SIZE]).unwrap() {
        PoolStep::Upload(slot) => assert_eq!(slot, 0),
        PoolStep::Sync(due) => panic!("surface {} was collected", due.slot),
    }
    let mut n = 1;
    while let Some(due) = enc.next_due() {
        assert_eq!(due.sync, 100 + n);
        sync(&mut enc, n, MFX_FRAMETYPE_REF).unwrap();
        n += 1;
    }
    assert!(enc.needs_flush());
    enc.flush_end();
    assert!(!enc.needs_flush());
    let mut seen = Vec::new();
    while let Some(p) = enc.receive_packet() {
        seen.push((p.pts, p.is_keyframe));
    }
    assert_eq!(seen.len(), POOL_SIZE);
    assert_eq!(seen[0], (0, true));
    assert_eq!(seen[1], (1, false));
}

#[test]
fn a_locked_surface_is_passed_over() {
    let mut enc = QsvEncoder::new(small());
    let mut locked = [0u16; POOL_SIZE];
    locked[0] = 1;
    match enc.begin_frame(&picture(0), &locked).unwrap() {
        PoolStep::Upload(slot) => assert_eq!(slot, 1),
        PoolStep::Sync(_) => panic!("nothing is due"),
    }
    let e = enc.begin_frame(&picture(0), &[1; POOL_SIZE]).unwrap_err();
    assert_eq!(e, QsvError::NothingInFlight);
    assert_eq!(e.message(), "ring full but inflight queue empty");
}

#[test]
fn a_keyframe_is_asked_of_one_picture() {
    let mut enc = QsvEncoder::new(small());
    enc.force_keyframe_next();
    let slot = chosen(&mut enc, &picture(0));
    let s = enc.upload(slot, &picture(0));
    let ctrl = s.ctrl.unwrap();
    assert_eq!(ctrl.frame_type, MFX_FRAMETYPE_I | MFX_FRAMETYPE_IDR | MFX_FRAMETYPE_REF);
    assert_eq!(ctrl.qp, 0);
    enc.finish_frame();
    let s = enc.upload(slot, &picture(1));
    assert!(s.ctrl.is_none());
}

#[test]
fn a_small_output_buffer_is_drained_then_grown() {
    let mut enc = QsvEncoder::new(small());
    let slot = chosen(&mut enc, &picture(0));
    enc.upload(slot, &picture(0));
    let full = MFX_ERR_NOT_ENOUGH_BUFFER;
    assert_eq!(enc.submitted(slot, Attempt::First, MFX_WRN_DEVICE_BUSY, None), Ok(SubmitStep::Wait));
    assert_eq!(enc.submitted(slot, Attempt::First, full, None), Ok(SubmitStep::DrainAll));
    let mut size = 2_097_152;
    loop {
        match enc.submitted(slot, Attempt::Drained, full, None) {
            Ok(SubmitStep::Grow(n)) => {
                assert_eq!(n, size * 2);
                size = n;
            }
            other => {
                assert_eq!(other, Err(QsvError::FrameTooLarge { width: 16, height: 16 }));
                let text = other.unwrap_err().message();
                assert!(text.ends_with("exceeds the 64 MiB bitstream ceiling at 16x16"), "{text}");
                break;
            }
        }
    }
    assert_eq!(size, MAX_BITSTREAM_BYTES);
}

#[test]
fn foreign_and_short_pictures_are_refused() {
    let mut enc = QsvEncoder::new(small());
    let foreign = VideoFrame::new(Bytes::from(vec![0u8; 384]), 16, 16, PixelFormat::Nv12, 0);
    let e = enc.begin_frame(&foreign, &[0; POOL_SIZE]).unwrap_err();
    assert_eq!(
        e.message(),
        "QSV session was initialized with Yuv420p but frame is Nv12 — pipeline must reinit the encoder if pixel format changes"
    );
    let short = VideoFrame::new(Bytes::from(vec![0u8; 383]), 16, 16, PixelFormat::Yuv420p, 0);
    let e = enc.begin_frame(&short, &[0; POOL_SIZE]).unwrap_err();
    assert_eq!(e.message(), "frame data too small for 16x16 Yuv420p: need 384 bytes, got 383");
    let failed = SyncAnswer {
        status: -17,
        data: Vec::new(),
        frame_type: 0,
        time_stamp: 0,
        keyframe_in_bitstream: false,
    };
    let e = enc.synced(&failed).unwrap_err();
    assert_eq!(e.message(), "MFXVideoCORE_SyncOperation failed: -17");
}
