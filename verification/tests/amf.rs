//! The AMF session: submitting, draining, properties, opening and closing.

use bytes::Bytes;
use codec::amf::api::{
    amf_iid_buffer, amf_iid_context1, amf_make_version, result_name, wide, wide16, AmfVariant, AMF_EOF,
    AMF_FAIL, AMF_INPUT_FULL, AMF_NEED_MORE_INPUT, AMF_NOT_SUPPORTED, AMF_OK, AMF_REPEAT,
    AMF_SURFACE_NV12, AMF_SURFACE_P010, AMF_VARIANT_BOOL, AMF_VARIANT_INT64, AMF_VARIANT_RATE,
    AMF_VERSION, INPUT_FULL_MAX_RETRIES, RING_SIZE,
};
use codec::amf::encoder::{
    check_surface, upload_frame, AmfEncoder, DrainEnd, QueryAnswer, Submission, SubmitStep,
};
use codec::amf::error::AmfError;
use codec::amf::properties::{
    amf_color_bit_depth_for, amf_color_profile_for, amf_surface_format_for, is_keyframe,
    mark_key_frame, plan_for, PropertyList,
};
use codec::amf::session::{close, open, opened, Release, Stage};
use codec::config::EncoderConfig;
use codec::frame::{transfer_to_h273, PixelFormat, TransferFn, VideoCodec, VideoFrame};
use codec::guid::guid_to_bytes;
use codec::rate::{frame_rate_rational, FrameRate};
use codec::upload::Plane;

fn fps(f: f64) -> FrameRate {
    if f.is_finite() && f > 0.0 {
        FrameRate { nanos: (f * 1e9).round() as u64 }
    } else {
        FrameRate { nanos: 0 }
    }
}

/// A runtime that answers from a script, and counts.
struct Mock {
    submit: Vec<i32>,
    query: Vec<i32>,
    submits: usize,
    queries: usize,
    references: i64,
    pauses: Vec<u64>,
}

impl Mock {
    fn new(submit: &[i32], query: &[i32]) -> Mock {
        Mock {
            submit: submit.to_vec(),
            query: query.to_vec(),
            submits: 0,
            queries: 0,
            references: 1,
            pauses: Vec::new(),
        }
    }

    fn submit_input(&mut self) -> i32 {
        let rc = self.submit.get(self.submits).copied().unwrap_or(AMF_OK);
        self.submits += 1;
        rc
    }

    fn query_output(&mut self) -> i32 {
        let rc = self.query.get(self.queries).copied().unwrap_or(AMF_REPEAT);
        self.queries += 1;
        rc
    }

    fn release(&mut self) {
        assert!(self.references > 0, "surface released when no reference is left");
        self.references -= 1;
    }
}

fn drain(enc: &mut AmfEncoder, mock: &mut Mock) -> Result<DrainEnd, AmfError> {
    loop {
        let rc = mock.query_output();
        if let Some(end) = enc.queried(rc, &QueryAnswer::NoData)? {
            return Ok(end);
        }
    }
}

fn offer(enc: &mut AmfEncoder, mock: &mut Mock, s: &mut Submission) -> Result<(), AmfError> {
    loop {
        let rc = mock.submit_input();
        match s.submitted(rc)? {
            SubmitStep::Accepted => {
                mock.release();
                return Ok(());
            }
            SubmitStep::Retry { pause_ms } => {
                drain(enc, mock)?;
                mock.pauses.push(pause_ms);
            }
        }
    }
}

fn session() -> AmfEncoder {
    AmfEncoder::new(EncoderConfig { codec: VideoCodec::H264, ..Default::default() })
}

fn packets(enc: &mut AmfEncoder) -> usize {
    let mut n = 0;
    while enc.receive_packet().is_some() {
        n += 1;
    }
    n
}

#[test]
fn test_amf_input_full_does_not_release_surface_before_retry() {
    let mut mock = Mock::new(&[AMF_INPUT_FULL, AMF_OK], &[AMF_REPEAT]);
    let mut enc = session();
    let mut s = Submission::new();
    assert_eq!(s.submitted(mock.submit_input()), Ok(SubmitStep::Retry { pause_ms: 0 }));
    assert_eq!(mock.references, 1, "the reference stays across the retry");
    assert_eq!(drain(&mut enc, &mut mock), Ok(DrainEnd::Repeat));
    let result = offer(&mut enc, &mut mock, &mut s);
    assert!(result.is_ok(), "submit failed: {result:?}");
    assert_eq!(mock.submits, 2, "SubmitInput must retry exactly once on INPUT_FULL");
    assert_eq!(mock.references, 0, "exactly one release after success (no leak, no double-release)");
    assert!(!s.finish(), "nothing is left to release");
}

#[test]
fn test_amf_need_more_input_returns_no_packet() {
    let mut mock = Mock::new(&[], &[AMF_NEED_MORE_INPUT]);
    let mut enc = session();
    let result = drain(&mut enc, &mut mock);
    assert_eq!(result.unwrap(), DrainEnd::NeedMoreInput);
    assert_eq!(packets(&mut enc), 0);
    assert_eq!(mock.queries, 1);
}

#[test]
fn test_amf_eof_ends_drain_cleanly() {
    let mut mock = Mock::new(&[], &[AMF_EOF]);
    let mut enc = session();
    let result = drain(&mut enc, &mut mock);
    assert_eq!(result.unwrap(), DrainEnd::Eof, "EOF is reported so the flush loop can stop");
    assert_eq!(packets(&mut enc), 0);
    assert_eq!(mock.queries, 1);
}

#[test]
fn test_amf_ok_null_data_keeps_draining() {
    let mut mock = Mock::new(&[], &[AMF_OK, AMF_OK, AMF_REPEAT]);
    let mut enc = session();
    let end = drain(&mut enc, &mut mock).unwrap();
    assert_eq!(end, DrainEnd::Repeat);
    assert_eq!(mock.queries, 3);
    assert_eq!(packets(&mut enc), 0);
}

#[test]
fn test_amf_ring_buffer_index_cycles() {
    let mut idx = 0usize;
    let mut seen = Vec::new();
    for _ in 0..(RING_SIZE * 3) {
        seen.push(idx);
        idx = (idx + 1) % RING_SIZE;
    }
    assert_eq!(seen, vec![0, 1, 2, 3, 0, 1, 2, 3, 0, 1, 2, 3]);
}

#[test]
fn test_amf_ring_size_is_four() {
    assert_eq!(RING_SIZE, 4);
}

#[test]
fn test_amf_repeat_on_submit_retries_same_surface() {
    let mut mock = Mock::new(&[AMF_REPEAT, AMF_OK], &[AMF_REPEAT]);
    let mut enc = session();
    let mut s = Submission::new();
    let result = offer(&mut enc, &mut mock, &mut s);
    assert!(result.is_ok());
    assert_eq!(mock.submits, 2);
    assert_eq!(mock.references, 0);
    assert!(!s.finish());
}

#[test]
fn test_amf_submit_hard_error_releases_through_guard() {
    let mut mock = Mock::new(&[AMF_FAIL], &[AMF_REPEAT]);
    let mut enc = session();
    let mut s = Submission::new();
    let result = offer(&mut enc, &mut mock, &mut s);
    assert!(result.is_err(), "hard error must propagate as Err");
    let msg = result.unwrap_err().message();
    assert!(msg.contains("AMF_FAIL"), "error names the result code: {msg}");
    if s.finish() {
        mock.release();
    }
    assert_eq!(mock.references, 0, "hard-error path must release exactly once via the guard");
}

#[test]
fn test_amf_submit_bounded_retry_budget() {
    let n = INPUT_FULL_MAX_RETRIES as usize + 2;
    let mut mock = Mock::new(&vec![AMF_INPUT_FULL; n], &vec![AMF_REPEAT; n]);
    let mut enc = session();
    let mut s = Submission::new();
    let result = offer(&mut enc, &mut mock, &mut s);
    assert!(result.is_err(), "stuck backpressure must eventually bail (not spin)");
    assert_eq!(mock.submits as u32, INPUT_FULL_MAX_RETRIES + 1);
    if s.finish() {
        mock.release();
    }
    assert_eq!(mock.references, 0);
}

#[test]
fn pauses_double_up_to_a_limit() {
    let n = INPUT_FULL_MAX_RETRIES as usize + 2;
    let mut mock = Mock::new(&vec![AMF_INPUT_FULL; n], &vec![AMF_REPEAT; n]);
    let mut enc = session();
    let mut s = Submission::new();
    let result = offer(&mut enc, &mut mock, &mut s);
    assert_eq!(
        result,
        Err(AmfError::SubmitStuck { status: AMF_INPUT_FULL, attempts: INPUT_FULL_MAX_RETRIES + 1 })
    );
    assert_eq!(mock.pauses[..7], [0, 1, 2, 4, 8, 16, 16]);
    assert!(mock.pauses.iter().sum::<u64>() <= 256);
}

#[test]
fn test_amf_variant_layout_and_arms() {
    assert_eq!(AmfVariant::empty().to_memory().len(), 24);
    assert_eq!(std::mem::align_of::<AmfVariant>(), 8);

    let v = AmfVariant::int64(0x0123_4567_89ab_cdef);
    assert_eq!(v.ty(), AMF_VARIANT_INT64);
    assert_eq!(v.as_int64(), Some(0x0123_4567_89ab_cdef));
    let bytes = v.to_memory();
    assert_eq!(&bytes[8..16], &0x0123_4567_89ab_cdefi64.to_le_bytes());
    assert_eq!(&bytes[16..24], &[0u8; 8], "unused tail of the union stays zero");

    let b = AmfVariant::bool_(true);
    assert_eq!(b.ty(), AMF_VARIANT_BOOL);
    assert_eq!(b.as_bool(), Some(true));
    assert_eq!(b.as_int64(), None, "tag mismatch reads as None");
    let bytes = b.to_memory();
    assert_eq!(bytes[8], 1, "amf_bool is one byte at the union start");

    let r = AmfVariant::rate(30000, 1001);
    assert_eq!(r.ty(), AMF_VARIANT_RATE);
    assert_eq!(r.as_rate(), Some((30000, 1001)));
    let bytes = r.to_memory();
    assert_eq!(&bytes[8..12], &30000u32.to_le_bytes(), "AMFRate.num at 8");
    assert_eq!(&bytes[12..16], &1001u32.to_le_bytes(), "AMFRate.den at 12");

    let e = AmfVariant::empty();
    assert_eq!(e.ty(), 0);
    assert_eq!(e.as_int64(), None);
}

#[test]
fn negative_integers_keep_their_sign_in_memory() {
    let v = AmfVariant::int64(-2);
    assert_eq!(&v.to_memory()[8..16], &(-2i64).to_le_bytes());
    assert_eq!(&v.to_memory()[0..4], &2u32.to_le_bytes());
}

#[test]
fn test_amf_iid_byte_layout() {
    let bytes = guid_to_bytes(amf_iid_buffer());
    assert_eq!(&bytes[0..4], &0xb04b_7248u32.to_le_bytes(), "IID_AMFBuffer data1 (Buffer.h:135)");
    assert_eq!(&bytes[4..6], &0xb6f0u16.to_le_bytes());
    assert_eq!(&bytes[6..8], &0x4321u16.to_le_bytes());
    assert_eq!(&bytes[8..16], &[0xb6, 0x91, 0xba, 0xa4, 0x74, 0x0f, 0x9f, 0xcb]);

    let bytes = guid_to_bytes(amf_iid_context1());
    assert_eq!(&bytes[0..4], &0xd9e9_f868u32.to_le_bytes(), "IID_AMFContext1 data1 (Context.h:278)");
    assert_eq!(&bytes[4..6], &0x6220u16.to_le_bytes());
    assert_eq!(&bytes[6..8], &0x44c6u16.to_le_bytes());
    assert_eq!(&bytes[8..16], &[0xa2, 0x2f, 0x7c, 0xd6, 0xda, 0xc6, 0x86, 0x46]);
}

#[test]
fn test_amf_wide_encoding() {
    let w = wide("HevcQP_I");
    assert_eq!(w.len(), "HevcQP_I".len() + 1);
    assert_eq!(*w.last().unwrap(), 0);
    assert_eq!(std::mem::size_of_val(&w[0]), 4);
    let back: String = w.iter().take_while(|&&u| u != 0).map(|&u| char::from_u32(u).unwrap()).collect();
    assert_eq!(back, "HevcQP_I");
    let w = wide16("HevcQP_I");
    assert_eq!(w.len(), "HevcQP_I".len() + 1);
    assert_eq!(*w.last().unwrap(), 0);
    assert_eq!(std::mem::size_of_val(&w[0]), 2);
    assert_eq!(String::from_utf16(&w[..8]).unwrap(), "HevcQP_I");
}

#[test]
fn characters_past_one_unit_take_two() {
    let s = "a\u{ffff}\u{10000}\u{1f600}\u{10ffff}z";
    let mut expected: Vec<u16> = s.encode_utf16().collect();
    expected.push(0);
    assert_eq!(wide16(s), expected);
    assert_eq!(wide(s).len(), 7);
    assert_eq!(wide16(""), [0]);
}

#[test]
fn versions_pack_four_words() {
    assert_eq!(amf_make_version(1, 4, 30, 0), AMF_VERSION);
    assert_eq!(amf_make_version(1, 2, 3, 4), 0x0001_0002_0003_0004);
}

#[test]
fn result_names_cover_the_common_statuses() {
    assert_eq!(result_name(AMF_OK), "AMF_OK");
    assert_eq!(result_name(AMF_FAIL), "AMF_FAIL");
    assert_eq!(result_name(AMF_NOT_SUPPORTED), "AMF_NOT_SUPPORTED");
    assert_ne!(result_name(9999), "AMF_OK");
}

#[test]
fn test_amf_surface_format_dispatch() {
    assert_eq!(amf_surface_format_for(PixelFormat::Yuv420p).unwrap(), AMF_SURFACE_NV12);
    assert_eq!(amf_surface_format_for(PixelFormat::Yuv420p10le).unwrap(), AMF_SURFACE_P010);
    assert!(amf_surface_format_for(PixelFormat::Yuv422p).is_err());
    assert!(amf_surface_format_for(PixelFormat::Rgb24).is_err());
    assert!(amf_surface_format_for(PixelFormat::Yuv444p10le).is_err());
}

#[test]
fn test_amf_color_bit_depth_is_literal_depth() {
    assert_eq!(amf_color_bit_depth_for(PixelFormat::Yuv420p), 8);
    assert_eq!(amf_color_bit_depth_for(PixelFormat::Yuv420p10le), 10);
}

#[test]
fn test_amf_transfer_to_h273_codes() {
    assert_eq!(transfer_to_h273(TransferFn::Bt709), 1);
    assert_eq!(transfer_to_h273(TransferFn::St2084), 16);
    assert_eq!(transfer_to_h273(TransferFn::AribStdB67), 18);
    assert_eq!(transfer_to_h273(TransferFn::Linear), 8);
    assert_eq!(transfer_to_h273(TransferFn::Bt470Bg), 4);
    assert_eq!(transfer_to_h273(TransferFn::Unspecified), 1);
}

#[test]
fn test_amf_color_profile_mapping() {
    assert_eq!(amf_color_profile_for(1, false), 1);
    assert_eq!(amf_color_profile_for(1, true), 7);
    assert_eq!(amf_color_profile_for(9, false), 2);
    assert_eq!(amf_color_profile_for(10, true), 8);
    assert_eq!(amf_color_profile_for(6, false), 1, "BT.601 has no AMF profile of its own; 709");
}

#[test]
fn test_amf_frame_rate_rational() {
    assert_eq!(frame_rate_rational(fps(30.0)), (30, 1));
    assert_eq!(frame_rate_rational(fps(60.0)), (60, 1));
    assert_eq!(frame_rate_rational(fps(29.97)), (29970, 1000));
    assert_eq!(frame_rate_rational(fps(23.976)), (23976, 1000));
    assert_eq!(frame_rate_rational(fps(0.0)), (30, 1), "nonsense falls back to 30");
    assert_eq!(frame_rate_rational(fps(f64::NAN)), (30, 1));
}

#[test]
fn test_amf_set_int_property_reaches_surface_slot() {
    let mut rec = PropertyList::new();
    rec.set_int("ForcePictureType", 2);
    assert_eq!(rec.items.len(), 1);
    assert_eq!(rec.items[0].name, "ForcePictureType");
    assert_eq!(rec.items[0].value.as_int64(), Some(2));
}

fn plan_names(codec: VideoCodec) -> (&'static str, &'static str, &'static str) {
    let p = plan_for(codec);
    (p.component_id, p.key.items[0].name, p.output_type)
}

fn key_extras(codec: VideoCodec) -> Vec<&'static str> {
    plan_for(codec).key.items[1..].iter().map(|p| p.name).collect()
}

#[test]
fn test_codec_plans_match_headers() {
    assert_eq!(
        plan_names(VideoCodec::H264),
        ("AMFVideoEncoderVCE_AVC", "ForcePictureType", "OutputDataType")
    );
    assert_eq!(plan_for(VideoCodec::H264).key.items[0].value, AmfVariant::Int64(2));
    assert_eq!(key_extras(VideoCodec::H264), &["InsertSPS", "InsertPPS"]);
    assert!(is_keyframe(0) && !is_keyframe(1) && !is_keyframe(2));

    assert_eq!(
        plan_names(VideoCodec::H265),
        ("AMFVideoEncoderHW_HEVC", "HevcForcePictureType", "HevcOutputDataType")
    );
    assert_eq!(plan_for(VideoCodec::H265).key.items[0].value, AmfVariant::Int64(2));
    assert_eq!(key_extras(VideoCodec::H265), &["HevcInsertHeader"]);
    assert!(is_keyframe(0) && !is_keyframe(1));

    assert_eq!(
        plan_names(VideoCodec::Av1),
        ("AMFVideoEncoderHW_AV1", "Av1ForceFrameType", "Av1OutputFrameType")
    );
    assert_eq!(plan_for(VideoCodec::Av1).key.items[0].value, AmfVariant::Int64(1));
    assert!(key_extras(VideoCodec::Av1).is_empty());
    assert!(is_keyframe(0) && !is_keyframe(1) && !is_keyframe(2));
}

#[test]
fn test_mark_key_frame_sets_plan_properties() {
    let rec = mark_key_frame(VideoCodec::H264).items;
    let names: Vec<&str> = rec.iter().map(|p| p.name).collect();
    assert_eq!(names, ["ForcePictureType", "InsertSPS", "InsertPPS"]);
    assert_eq!(rec[0].value.as_int64(), Some(2));
    assert_eq!(rec[1].value.as_bool(), Some(true));
    assert_eq!(rec[2].value.as_bool(), Some(true));

    let rec = mark_key_frame(VideoCodec::H265).items;
    let names: Vec<&str> = rec.iter().map(|p| p.name).collect();
    assert_eq!(names, ["HevcForcePictureType", "HevcInsertHeader"]);

    let rec = mark_key_frame(VideoCodec::Av1).items;
    assert_eq!(rec.len(), 1);
    assert_eq!(rec[0].name, "Av1ForceFrameType");
    assert_eq!(rec[0].value.as_int64(), Some(1));
}

#[test]
fn test_amf_encoder_new_on_this_machine_fails_or_succeeds_cleanly() {
    for codec in [VideoCodec::H264, VideoCodec::H265, VideoCodec::Av1] {
        let cfg = EncoderConfig {
            width: 640,
            height: 480,
            frame_rate: fps(30.0),
            codec,
            ..Default::default()
        };
        for direct3d in [false, true] {
            for fail_at in 0..8 {
                let mut held: Vec<Release> = Vec::new();
                let mut stage = open(&cfg).unwrap();
                let mut calls = 0;
                loop {
                    if stage == Stage::Ready {
                        for r in close() {
                            if r == Release::ReleaseContext || r == Release::ReleaseEncoder {
                                held.retain(|&h| h != r);
                            }
                        }
                        break;
                    }
                    let ok = calls != fail_at;
                    if ok {
                        match stage {
                            Stage::Context => held.push(Release::ReleaseContext),
                            Stage::Context1 => held.push(Release::Context1),
                            Stage::Component => held.push(Release::ReleaseEncoder),
                            _ => {}
                        }
                    }
                    let rc = if ok { AMF_OK } else { AMF_FAIL };
                    let step = opened(&cfg, 0, direct3d, stage, rc, !ok);
                    for r in step.release {
                        held.retain(|&h| h != r);
                    }
                    calls += 1;
                    match step.next {
                        Ok(next) => stage = next,
                        Err(e) => {
                            let msg = e.message();
                            assert!(msg.contains("AMF"), "the error names AMF: {msg}");
                            break;
                        }
                    }
                }
                assert!(held.is_empty(), "{codec:?} leaks {held:?} after call {fail_at}");
            }
        }
    }
}

#[test]
fn opening_refuses_formats_before_any_call() {
    let cfg = |codec, pixel_format| EncoderConfig { codec, pixel_format, ..Default::default() };
    assert_eq!(
        open(&cfg(VideoCodec::Av1, PixelFormat::Yuv444p)),
        Err(AmfError::UnsupportedFormat { format: PixelFormat::Yuv444p })
    );
    assert_eq!(
        open(&cfg(VideoCodec::H264, PixelFormat::Yuv420p10le)),
        Err(AmfError::AvcFormat { format: PixelFormat::Yuv420p10le })
    );
    assert_eq!(open(&cfg(VideoCodec::H265, PixelFormat::Yuv420p10le)), Ok(Stage::Factory));
}

fn small(codec: VideoCodec, pixel_format: PixelFormat) -> EncoderConfig {
    EncoderConfig { width: 3, height: 3, codec, pixel_format, ..Default::default() }
}

#[test]
fn a_picture_lands_on_both_planes() {
    let cfg = small(VideoCodec::H264, PixelFormat::Yuv420p);
    let data: Vec<u8> = (1..=17).collect();
    let f = VideoFrame::new(Bytes::from(data), 3, 3, PixelFormat::Yuv420p, 0);
    let mut y = Plane { null: false, pitch: 4, bytes: vec![0xee; 12] };
    let mut uv = Plane { null: false, pitch: 5, bytes: vec![0xee; 10] };
    assert_eq!(upload_frame(&cfg, &mut y, &mut uv, &f), Ok(()));
    assert_eq!(y.bytes, [1, 2, 3, 0xee, 4, 5, 6, 0xee, 7, 8, 9, 0xee]);
    assert_eq!(uv.bytes, [10, 14, 11, 15, 0xee, 12, 16, 13, 17, 0xee]);
}

#[test]
fn ten_bit_samples_sit_in_the_upper_bits() {
    let mut cfg = small(VideoCodec::H265, PixelFormat::Yuv420p10le);
    cfg.width = 2;
    cfg.height = 2;
    let words: [u16; 6] = [1, 2, 3, 1023, 5, 6];
    let data: Vec<u8> = words.iter().flat_map(|w| w.to_le_bytes()).collect();
    let f = VideoFrame::new(Bytes::from(data), 2, 2, PixelFormat::Yuv420p10le, 0);
    let mut y = Plane { null: false, pitch: 4, bytes: vec![0; 8] };
    let mut uv = Plane { null: false, pitch: 4, bytes: vec![0; 4] };
    assert_eq!(upload_frame(&cfg, &mut y, &mut uv, &f), Ok(()));
    let word = |b: &[u8], i: usize| u16::from_le_bytes([b[2 * i], b[2 * i + 1]]);
    assert_eq!([word(&y.bytes, 0), word(&y.bytes, 1)], [1 << 6, 2 << 6]);
    assert_eq!([word(&y.bytes, 2), word(&y.bytes, 3)], [3 << 6, 1023 << 6]);
    assert_eq!([word(&uv.bytes, 0), word(&uv.bytes, 1)], [5 << 6, 6 << 6]);
}

#[test]
fn short_pictures_and_unmapped_planes_are_refused() {
    let cfg = small(VideoCodec::H264, PixelFormat::Yuv420p);
    let short = VideoFrame::new(Bytes::from(vec![0u8; 16]), 3, 3, PixelFormat::Yuv420p, 0);
    let full = VideoFrame::new(Bytes::from(vec![0u8; 17]), 3, 3, PixelFormat::Yuv420p, 0);
    let mapped = || Plane { null: false, pitch: 6, bytes: vec![0; 18] };
    let unmapped = || Plane { null: true, pitch: 0, bytes: Vec::new() };
    let e = upload_frame(&cfg, &mut mapped(), &mut mapped(), &short).unwrap_err();
    assert_eq!(e, AmfError::TooSmall { width: 3, height: 3, ten_bit: false, need: 17, have: 16 });
    assert!(matches!(
        upload_frame(&cfg, &mut unmapped(), &mut mapped(), &full),
        Err(AmfError::NullPlane { chroma: false, ten_bit: false })
    ));
    assert!(matches!(
        upload_frame(&cfg, &mut mapped(), &mut unmapped(), &full),
        Err(AmfError::NullPlane { chroma: true, ten_bit: false })
    ));
}

#[test]
fn surfaces_are_checked_before_use() {
    let cfg = small(VideoCodec::H264, PixelFormat::Yuv420p);
    assert_eq!(check_surface(&cfg, AMF_OK, false, false), Ok(()));
    assert!(matches!(
        check_surface(&cfg, AMF_FAIL, false, false),
        Err(AmfError::AllocSurface { width: 3, height: 3, surface_format: 1, status: 1 })
    ));
    assert!(matches!(
        check_surface(&cfg, AMF_OK, true, false),
        Err(AmfError::AllocSurface { .. })
    ));
    assert!(matches!(
        check_surface(&cfg, AMF_OK, false, true),
        Err(AmfError::MissingPlane { surface_format: 1 })
    ));
}

#[test]
fn unreadable_answers_are_errors() {
    let mut enc = session();
    assert_eq!(
        enc.queried(AMF_FAIL, &QueryAnswer::NoData),
        Err(AmfError::QueryOutput { status: AMF_FAIL })
    );
    let refused = QueryAnswer::Buffer {
        query_status: AMF_FAIL,
        null: true,
        native_null: true,
        data: Vec::new(),
        ticks: 0,
        output_type: None,
    };
    assert_eq!(enc.queried(AMF_OK, &refused), Err(AmfError::QueryBuffer { status: AMF_FAIL }));
    assert_eq!(AmfEncoder::drain_requested(AMF_OK), Ok(()));
    assert_eq!(AmfEncoder::drain_requested(AMF_REPEAT), Ok(()));
    assert_eq!(
        AmfEncoder::drain_requested(AMF_FAIL),
        Err(AmfError::Drain { status: AMF_FAIL })
    );
}

#[test]
fn a_foreign_format_is_refused_by_the_session() {
    let enc = session();
    let f = VideoFrame::new(Bytes::new(), 2, 2, PixelFormat::Nv12, 0);
    let e = enc.begin_frame(&f).unwrap_err();
    assert_eq!(
        e,
        AmfError::FormatMismatch { configured: PixelFormat::Yuv420p, got: PixelFormat::Nv12 }
    );
    assert!(e.message().contains("Nv12"), "{}", e.message());
}

/// NAL unit types in an Annex-B access unit, in order.
fn annexb_nal_types(data: &[u8], hevc: bool) -> Vec<u8> {
    let mut out = Vec::new();
    let mut i = 0;
    while i + 3 <= data.len() {
        if data[i] == 0 && data[i + 1] == 0 && data[i + 2] == 1 {
            if let Some(&hdr) = data.get(i + 3) {
                out.push(if hevc { (hdr >> 1) & 0x3f } else { hdr & 0x1f });
            }
            i += 3;
        } else {
            i += 1;
        }
    }
    out
}

/// What a component makes of a surface's properties.
fn coded(plan: &PropertyList, hevc: bool) -> (Vec<u8>, i64) {
    let set = |name: &str| plan.items.iter().any(|p| p.name == name);
    let nal = |t: u8| [0, 0, 1, if hevc { t << 1 } else { t }, 0x80];
    let mut data = Vec::new();
    if hevc {
        if set("HevcInsertHeader") {
            for t in [32, 33, 34] {
                data.extend(nal(t));
            }
        }
        let idr = set("HevcForcePictureType");
        data.extend(nal(if idr { 19 } else { 1 }));
        (data, if idr { 0 } else { 2 })
    } else {
        if set("InsertSPS") {
            data.extend(nal(7));
        }
        if set("InsertPPS") {
            data.extend(nal(8));
        }
        let idr = set("ForcePictureType");
        data.extend(nal(if idr { 5 } else { 1 }));
        (data, if idr { 0 } else { 2 })
    }
}

fn h26x_roundtrip(codec: VideoCodec) {
    let (w, h) = (320u32, 240u32);
    let cfg = EncoderConfig {
        width: w,
        height: h,
        frame_rate: fps(30.0),
        codec,
        keyframe_interval: 12,
        ..Default::default()
    };
    let mut enc = AmfEncoder::new(cfg);
    let hevc = codec == VideoCodec::H265;
    let n = 30u64;
    let forced_at = 7u64;
    let mut held: Vec<QueryAnswer> = Vec::new();
    for i in 0..n {
        let mut data = vec![0u8; (w * h * 3 / 2) as usize];
        for y in 0..h as usize {
            for x in 0..w as usize {
                data[y * w as usize + x] = ((x + y + i as usize * 4) & 0xff) as u8;
            }
        }
        for c in data[(w * h) as usize..].iter_mut() {
            *c = 128;
        }
        let frame = VideoFrame::new(Bytes::from(data), w, h, PixelFormat::Yuv420p, i);
        if i == forced_at {
            enc.force_keyframe_next();
        }
        let plan = enc.begin_frame(&frame).unwrap();
        let (data, output_type) = coded(&plan.properties, hevc);
        held.push(QueryAnswer::Buffer {
            query_status: AMF_OK,
            null: false,
            native_null: false,
            data,
            ticks: plan.ticks,
            output_type: Some(output_type),
        });
        let mut s = Submission::new();
        assert_eq!(s.submitted(AMF_OK), Ok(SubmitStep::Accepted));
        enc.frame_done();
        // The component keeps two pictures back.
        while held.len() > 2 {
            assert_eq!(enc.queried(AMF_OK, &held.remove(0)), Ok(None));
        }
        assert_eq!(
            enc.queried(AMF_REPEAT, &QueryAnswer::NoData),
            Ok(Some(DrainEnd::Repeat))
        );
    }
    assert!(enc.needs_flush());
    assert_eq!(AmfEncoder::drain_requested(AMF_OK), Ok(()));
    while !held.is_empty() {
        assert_eq!(enc.queried(AMF_OK, &held.remove(0)), Ok(None));
        let end = enc.queried(AMF_REPEAT, &QueryAnswer::NoData).unwrap().unwrap();
        assert!(!AmfEncoder::flush_complete(end));
    }
    let end = enc.queried(AMF_EOF, &QueryAnswer::NoData).unwrap().unwrap();
    assert!(AmfEncoder::flush_complete(end));
    enc.flush_end();
    assert!(!enc.needs_flush());

    let mut packets = Vec::new();
    while let Some(p) = enc.receive_packet() {
        packets.push(p);
    }
    assert_eq!(packets.len(), n as usize, "one access unit per frame, none lost at the flush");
    let (sps, pps, idr_types, p_types): (u8, u8, &[u8], &[u8]) = if hevc {
        (33, 34, &[19, 20], &[0, 1])
    } else {
        (7, 8, &[5], &[1])
    };
    for (i, p) in packets.iter().enumerate() {
        assert_eq!(p.pts, i as u64, "pts is the frame's own timestamp");
        let types = annexb_nal_types(&p.data, hevc);
        assert!(!types.is_empty(), "packet {i} is Annex-B");
        let expect_idr = i == 0 || i as u64 == forced_at || (i as u64) % 12 == 0;
        let has_idr = types.iter().any(|t| idr_types.contains(t));
        let has_ps = types.contains(&sps) && types.contains(&pps);
        assert_eq!(p.is_keyframe, expect_idr, "packet {i} keyframe tag; NALs {types:?}");
        assert_eq!(has_idr, expect_idr, "packet {i} IDR slice; NALs {types:?}");
        if expect_idr {
            assert!(has_ps, "packet {i} carries SPS+PPS in band; NALs {types:?}");
            if hevc {
                assert!(types.contains(&32), "packet {i} carries the VPS; NALs {types:?}");
            }
        } else {
            assert!(types.iter().any(|t| p_types.contains(t)), "packet {i} is a P slice; NALs {types:?}");
        }
    }
}

#[test]
fn h264_roundtrip_on_this_machine() {
    h26x_roundtrip(VideoCodec::H264);
}

#[test]
fn h265_roundtrip_on_this_machine() {
    h26x_roundtrip(VideoCodec::H265);
}
