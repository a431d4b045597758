//! What each codec's component is configured with: component names, the
//! properties that force and recognise a keyframe, level tables, quantisers,
//! and the ordered property sequences set before a session is initialised.
//!
//! Property names are case-sensitive, and a name the runtime does not know is
//! ignored without an error: the sequences are stated name by name.

use vstd::prelude::*;

use super::api::{
    AmfVariant, AMF_COLOR_BIT_DEPTH_10, AMF_COLOR_BIT_DEPTH_8, AMF_COLOR_PROFILE_2020,
    AMF_COLOR_PROFILE_709, AMF_COLOR_PROFILE_FULL_2020, AMF_COLOR_PROFILE_FULL_709,
    AMF_SURFACE_NV12, AMF_SURFACE_P010,
};
use super::error::AmfError;
use crate::config::{EncoderConfig, AUTO_FROM_TARGET};
use crate::frame::{transfer_to_h273, ColorMetadata, PixelFormat, VideoCodec};
use crate::rate::{self, frame_rate_rational, FrameRate};
use crate::text::{self, push_dec, push_dec_int};
use crate::tuning::{AmfAv1Params, AmfH26xParams, AmfQualityPreset, AmfRateControl};

verus! {

/// The name of a codec's component.
pub open spec fn component_label(codec: VideoCodec) -> Seq<char> {
    match codec {
        VideoCodec::Av1 => "AMFVideoEncoderHW_AV1"@,
        VideoCodec::H264 => "AMFVideoEncoderVCE_AVC"@,
        VideoCodec::H265 => "AMFVideoEncoderHW_HEVC"@,
    }
}

/// The name of a codec's component.
pub fn component_id(codec: VideoCodec) -> (s: &'static str)
    ensures
        s@ == component_label(codec),
{
    match codec {
        VideoCodec::Av1 => "AMFVideoEncoderHW_AV1",
        VideoCodec::H264 => "AMFVideoEncoderVCE_AVC",
        VideoCodec::H265 => "AMFVideoEncoderHW_HEVC",
    }
}

/// A property and its value.
#[derive(Debug, Clone, Copy)]
pub struct Property {
    pub name: &'static str,
    pub value: AmfVariant,
}

/// Properties in the order they are set.
#[derive(Debug)]
pub struct PropertyList {
    pub items: Vec<Property>,
}

impl View for PropertyList {
    type V = Seq<(Seq<char>, AmfVariant)>;

    open spec fn view(&self) -> Seq<(Seq<char>, AmfVariant)> {
        self.items@.map_values(|p: Property| (p.name@, p.value))
    }
}

impl PropertyList {
    /// No properties.
    pub fn new() -> (l: Self)
        ensures
            l@ == Seq::<(Seq<char>, AmfVariant)>::empty(),
    {
        let l: PropertyList = PropertyList { items: Vec::new() };
        assert(l@ =~= Seq::<(Seq<char>, AmfVariant)>::empty());
        l
    }

    fn set(&mut self, name: &'static str, value: AmfVariant)
        ensures
            final(self)@ == old(self)@.push((name@, value)),
    {
        self.items.push(Property { name, value });
        assert(self@ =~= old(self)@.push((name@, value)));
    }

    /// Set an integer.
    pub fn set_int(&mut self, name: &'static str, value: i64)
        ensures
            final(self)@ == old(self)@.push((name@, AmfVariant::Int64(value))),
    {
        self.set(name, AmfVariant::Int64(value));
    }

    /// Set a truth value.
    pub fn set_bool(&mut self, name: &'static str, value: bool)
        ensures
            final(self)@ == old(self)@.push((name@, AmfVariant::Bool(value))),
    {
        self.set(name, AmfVariant::Bool(value));
    }

    /// Set a rational.
    pub fn set_rate(&mut self, name: &'static str, num: u32, den: u32)
        ensures
            final(self)@ == old(self)@.push((name@, AmfVariant::Rate { num, den })),
    {
        self.set(name, AmfVariant::Rate { num, den });
    }
}

/// What is set on an input surface to make it a keyframe: the picture type,
/// and for H.264 and H.265 the parameter sets in front of it, so that a
/// segment which starts there stands alone.
pub open spec fn key_properties(codec: VideoCodec) -> Seq<(Seq<char>, AmfVariant)> {
    match codec {
        VideoCodec::Av1 => seq![("Av1ForceFrameType"@, AmfVariant::Int64(1))],
        VideoCodec::H264 => seq![
            ("ForcePictureType"@, AmfVariant::Int64(2)),
            ("InsertSPS"@, AmfVariant::Bool(true)),
            ("InsertPPS"@, AmfVariant::Bool(true)),
        ],
        VideoCodec::H265 => seq![
            ("HevcForcePictureType"@, AmfVariant::Int64(2)),
            ("HevcInsertHeader"@, AmfVariant::Bool(true)),
        ],
    }
}

/// What is set on an input surface to make it a keyframe.
pub fn mark_key_frame(codec: VideoCodec) -> (l: PropertyList)
    ensures
        l@ == key_properties(codec),
{
    let mut l: PropertyList = PropertyList::new();
    match codec {
        VideoCodec::Av1 => {
            l.set_int("Av1ForceFrameType", 1);
        },
        VideoCodec::H264 => {
            l.set_int("ForcePictureType", 2);
            l.set_bool("InsertSPS", true);
            l.set_bool("InsertPPS", true);
        },
        VideoCodec::H265 => {
            l.set_int("HevcForcePictureType", 2);
            l.set_bool("HevcInsertHeader", true);
        },
    }
    assert(l@ =~= key_properties(codec));
    l
}

/// What differs between the components once a session runs.
#[derive(Debug)]
pub struct CodecPlan {
    pub component_id: &'static str,
    /// What makes an input surface a keyframe.
    pub key: PropertyList,
    /// The output buffer's property that says what kind of picture it holds.
    pub output_type: &'static str,
}

/// The output property that says what kind of picture a buffer holds.
pub open spec fn output_type_label(codec: VideoCodec) -> Seq<char> {
    match codec {
        VideoCodec::Av1 => "Av1OutputFrameType"@,
        VideoCodec::H264 => "OutputDataType"@,
        VideoCodec::H265 => "HevcOutputDataType"@,
    }
}

/// The plan for a codec.
pub fn plan_for(codec: VideoCodec) -> (p: CodecPlan)
    ensures
        p.component_id@ == component_label(codec),
        p.key@ == key_properties(codec),
        p.output_type@ == output_type_label(codec),
{
    CodecPlan {
        component_id: component_id(codec),
        key: mark_key_frame(codec),
        output_type: match codec {
            VideoCodec::Av1 => "Av1OutputFrameType",
            VideoCodec::H264 => "OutputDataType",
            VideoCodec::H265 => "HevcOutputDataType",
        },
    }
}

/// Whether an output type marks a picture that a player can start on. All
/// three components number their keyframes zero.
pub fn is_keyframe(output_type: i64) -> (b: bool)
    ensures
        b == (output_type == 0),
{
    output_type == 0
}

/// The interval between keyframes: one that was left unset is 240 frames.
pub fn effective_keyframe_interval(keyframe_interval: u32) -> (n: u32)
    ensures
        n == interval_of(keyframe_interval),
{
    if keyframe_interval == 0 {
        240
    } else {
        keyframe_interval
    }
}

/// The interval between keyframes: one that was left unset is 240 frames.
pub open spec fn interval_of(keyframe_interval: u32) -> u32 {
    if keyframe_interval == 0 {
        240
    } else {
        keyframe_interval
    }
}

/// The surface format of a pixel format.
pub open spec fn surface_format(f: PixelFormat) -> Option<i32> {
    match f {
        PixelFormat::Yuv420p => Some(AMF_SURFACE_NV12),
        PixelFormat::Yuv420p10le => Some(AMF_SURFACE_P010),
        _ => None,
    }
}

/// The surface format of a pixel format.
pub fn amf_surface_format_for(f: PixelFormat) -> (r: Result<i32, AmfError>)
    ensures
        match surface_format(f) {
            Some(v) => r == Ok::<i32, AmfError>(v),
            None => r == Err::<i32, AmfError>(AmfError::UnsupportedFormat { format: f }),
        },
{
    match f {
        PixelFormat::Yuv420p => Ok(AMF_SURFACE_NV12),
        PixelFormat::Yuv420p10le => Ok(AMF_SURFACE_P010),
        _ => Err(AmfError::UnsupportedFormat { format: f }),
    }
}

/// The bit depth of a pixel format: the depth itself.
pub open spec fn bit_depth(f: PixelFormat) -> i64 {
    if f.is_ten_bit() {
        AMF_COLOR_BIT_DEPTH_10
    } else {
        AMF_COLOR_BIT_DEPTH_8
    }
}

/// The bit depth of a pixel format.
pub fn amf_color_bit_depth_for(f: PixelFormat) -> (d: i64)
    ensures
        d == bit_depth(f),
{
    match f {
        PixelFormat::Yuv420p10le => AMF_COLOR_BIT_DEPTH_10,
        _ => AMF_COLOR_BIT_DEPTH_8,
    }
}

/// The colour profile for a matrix and range: matrices 9 and 10 are BT.2020,
/// everything else is taken for BT.709.
pub open spec fn color_profile(matrix: u8, full_range: bool) -> i64 {
    if matrix == 9 || matrix == 10 {
        if full_range {
            AMF_COLOR_PROFILE_FULL_2020
        } else {
            AMF_COLOR_PROFILE_2020
        }
    } else if full_range {
        AMF_COLOR_PROFILE_FULL_709
    } else {
        AMF_COLOR_PROFILE_709
    }
}

/// The colour profile for a matrix and range.
pub fn amf_color_profile_for(matrix_coefficients: u8, full_range: bool) -> (p: i64)
    ensures
        p == color_profile(matrix_coefficients, full_range),
{
    let bt2020: bool = matrix_coefficients == 9 || matrix_coefficients == 10;
    if bt2020 {
        if full_range {
            AMF_COLOR_PROFILE_FULL_2020
        } else {
            AMF_COLOR_PROFILE_2020
        }
    } else if full_range {
        AMF_COLOR_PROFILE_FULL_709
    } else {
        AMF_COLOR_PROFILE_709
    }
}

/// A preset's number for AV1.
pub open spec fn av1_preset(p: AmfQualityPreset) -> i64 {
    match p {
        AmfQualityPreset::HighQuality => 0,
        AmfQualityPreset::Quality => 30,
        AmfQualityPreset::Balanced => 70,
        AmfQualityPreset::Speed => 100,
    }
}

/// A preset's number for H.264.
pub open spec fn avc_preset(p: AmfQualityPreset) -> i64 {
    match p {
        AmfQualityPreset::HighQuality => 3,
        AmfQualityPreset::Quality => 2,
        AmfQualityPreset::Balanced => 0,
        AmfQualityPreset::Speed => 1,
    }
}

/// A preset's number for H.265.
pub open spec fn hevc_preset(p: AmfQualityPreset) -> i64 {
    match p {
        AmfQualityPreset::HighQuality => 15,
        AmfQualityPreset::Quality => 0,
        AmfQualityPreset::Balanced => 5,
        AmfQualityPreset::Speed => 10,
    }
}

/// A preset's number for AV1.
pub fn av1_quality_preset(preset: AmfQualityPreset) -> (n: i64)
    ensures
        n == av1_preset(preset),
{
    match preset {
        AmfQualityPreset::HighQuality => 0,
        AmfQualityPreset::Quality => 30,
        AmfQualityPreset::Balanced => 70,
        AmfQualityPreset::Speed => 100,
    }
}

/// A preset's number for H.264.
pub fn avc_quality_preset(preset: AmfQualityPreset) -> (n: i64)
    ensures
        n == avc_preset(preset),
{
    match preset {
        AmfQualityPreset::HighQuality => 3,
        AmfQualityPreset::Quality => 2,
        AmfQualityPreset::Balanced => 0,
        AmfQualityPreset::Speed => 1,
    }
}

/// A preset's number for H.265.
pub fn hevc_quality_preset(preset: AmfQualityPreset) -> (n: i64)
    ensures
        n == hevc_preset(preset),
{
    match preset {
        AmfQualityPreset::HighQuality => 15,
        AmfQualityPreset::Quality => 0,
        AmfQualityPreset::Balanced => 5,
        AmfQualityPreset::Speed => 10,
    }
}

/// One row of a level table.
#[derive(Debug, Clone, Copy, PartialEq, Eq, Structural)]
pub struct LevelRow {
    /// The level's number.
    pub idc: i64,
    /// Most macroblocks or samples a second.
    pub max_rate: u64,
    /// Most macroblocks or samples a picture.
    pub max_size: u64,
    /// Highest bit rate, in kilobits a second.
    pub max_kbps: u64,
}

/// A row of a level table.
pub open spec fn level_row(idc: i64, max_rate: u64, max_size: u64, max_kbps: u64) -> LevelRow {
    LevelRow { idc, max_rate, max_size, max_kbps }
}

/// H.264 levels from 3.0 up, in macroblocks; bit rates are for Main.
pub open spec fn h264_table() -> Seq<LevelRow> {
    seq![
        level_row(30, 40_500, 1_620, 10_000),
        level_row(31, 108_000, 3_600, 14_000),
        level_row(32, 216_000, 5_120, 20_000),
        level_row(40, 245_760, 8_192, 20_000),
        level_row(41, 245_760, 8_192, 50_000),
        level_row(42, 522_240, 8_704, 50_000),
        level_row(50, 589_824, 22_080, 135_000),
        level_row(51, 983_040, 36_864, 240_000),
        level_row(52, 2_073_600, 36_864, 240_000),
        level_row(60, 4_177_920, 139_264, 240_000),
        level_row(61, 8_355_840, 139_264, 480_000),
        level_row(62, 16_711_680, 139_264, 800_000),
    ]
}

/// H.265 levels from 3.0 up, in luma samples; bit rates are for the main tier.
pub open spec fn h265_table() -> Seq<LevelRow> {
    seq![
        level_row(90, 16_588_800, 552_960, 6_000),
        level_row(93, 33_177_600, 983_040, 10_000),
        level_row(120, 66_846_720, 2_228_224, 12_000),
        level_row(123, 133_693_440, 2_228_224, 20_000),
        level_row(150, 267_386_880, 8_912_896, 25_000),
        level_row(153, 534_773_760, 8_912_896, 40_000),
        level_row(156, 1_069_547_520, 8_912_896, 60_000),
        level_row(180, 1_069_547_520, 35_651_584, 60_000),
        level_row(183, 2_139_095_040, 35_651_584, 120_000),
        level_row(186, 4_278_190_080, 35_651_584, 240_000),
    ]
}

fn row(idc: i64, max_rate: u64, max_size: u64, max_kbps: u64) -> (r: LevelRow)
    ensures
        r == level_row(idc, max_rate, max_size, max_kbps),
{
    LevelRow { idc, max_rate, max_size, max_kbps }
}

fn h264_levels() -> (t: Vec<LevelRow>)
    ensures
        t@ == h264_table(),
{
    let mut t: Vec<LevelRow> = Vec::new();
    t.push(row(30, 40_500, 1_620, 10_000));
    t.push(row(31, 108_000, 3_600, 14_000));
    t.push(row(32, 216_000, 5_120, 20_000));
    t.push(row(40, 245_760, 8_192, 20_000));
    t.push(row(41, 245_760, 8_192, 50_000));
    t.push(row(42, 522_240, 8_704, 50_000));
    t.push(row(50, 589_824, 22_080, 135_000));
    t.push(row(51, 983_040, 36_864, 240_000));
    t.push(row(52, 2_073_600, 36_864, 240_000));
    t.push(row(60, 4_177_920, 139_264, 240_000));
    t.push(row(61, 8_355_840, 139_264, 480_000));
    t.push(row(62, 16_711_680, 139_264, 800_000));
    assert(t@ =~= h264_table());
    t
}

fn h265_levels() -> (t: Vec<LevelRow>)
    ensures
        t@ == h265_table(),
{
    let mut t: Vec<LevelRow> = Vec::new();
    t.push(row(90, 16_588_800, 552_960, 6_000));
    t.push(row(93, 33_177_600, 983_040, 10_000));
    t.push(row(120, 66_846_720, 2_228_224, 12_000));
    t.push(row(123, 133_693_440, 2_228_224, 20_000));
    t.push(row(150, 267_386_880, 8_912_896, 25_000));
    t.push(row(153, 534_773_760, 8_912_896, 40_000));
    t.push(row(156, 1_069_547_520, 8_912_896, 60_000));
    t.push(row(180, 1_069_547_520, 35_651_584, 60_000));
    t.push(row(183, 2_139_095_040, 35_651_584, 120_000));
    t.push(row(186, 4_278_190_080, 35_651_584, 240_000));
    assert(t@ =~= h265_table());
    t
}

/// Whether a level admits pictures of this size at this rate.
pub open spec fn admits(r: LevelRow, size: int, per_second: int) -> bool {
    size <= r.max_size && per_second <= r.max_rate
}

/// The lowest level of a table that admits the pictures; the highest where
/// none does.
pub open spec fn is_level(t: Seq<LevelRow>, size: int, per_second: int, i: int) -> bool {
    &&& 0 <= i < t.len()
    &&& forall|j: int| 0 <= j < i ==> !admits(#[trigger] t[j], size, per_second)
    &&& admits(t[i], size, per_second) || i == t.len() - 1
}

fn find_level(t: &Vec<LevelRow>, size: u64, per_second: u128) -> (i: usize)
    requires
        t@.len() > 0,
    ensures
        is_level(t@, size as int, per_second as int, i as int),
{
    let last: usize = t.len() - 1;
    let mut i: usize = 0;
    while i < last
        invariant
            i <= last,
            last == t@.len() - 1,
            forall|j: int| 0 <= j < i ==> !admits(#[trigger] t@[j], size as int, per_second as int),
        decreases last - i,
    {
        if size <= t[i].max_size && per_second <= t[i].max_rate as u128 {
            return i;
        }
        i = i + 1;
    }
    i
}

/// The level a picture size and rate need, and its bit rate.
#[derive(Debug, Clone, Copy, PartialEq, Eq, Structural)]
pub struct Level {
    pub amf_value: i64,
    /// Bits a second.
    pub max_bitrate: u64,
}

/// Macroblocks of a picture.
pub open spec fn macroblocks(w: u32, h: u32) -> int {
    rate::ceil_div(w as int, 16) * rate::ceil_div(h as int, 16)
}

/// A count per picture as a count per second, rounded up; a rate under one
/// picture a second counts as one.
pub open spec fn per_second(count: int, r: FrameRate) -> int {
    rate::ceil_div(count * r.at_least_one(), 1_000_000_000)
}

/// The H.264 level: the lowest row that admits the pictures. High profile
/// allows five quarters of the bits that Main does.
pub open spec fn is_h264_level(w: u32, h: u32, r: FrameRate, l: Level) -> bool {
    exists|i: int| #[trigger]
        is_level(h264_table(), macroblocks(w, h), per_second(macroblocks(w, h), r), i)
            && l.amf_value == h264_table()[i].idc && l.max_bitrate == h264_table()[i].max_kbps
            * 1250
}

/// The H.265 level: the lowest row that admits the pictures.
pub open spec fn is_h265_level(w: u32, h: u32, r: FrameRate, l: Level) -> bool {
    exists|i: int| #[trigger]
        is_level(h265_table(), w as int * h as int, per_second(w as int * h as int, r), i)
            && l.amf_value == h265_table()[i].idc && l.max_bitrate == h265_table()[i].max_kbps
            * 1000
}

fn count_per_second(count: u64, r: FrameRate) -> (n: u128)
    requires
        count <= 0xffff_fffe_0000_0001,
    ensures
        n == per_second(count as int, r),
{
    let nanos: u128 = if r.nanos < 1_000_000_000 {
        1_000_000_000
    } else {
        r.nanos as u128
    };
    proof {
        assert(0 <= count * nanos <= 0xffff_fffe_0000_0001 * 0xffff_ffff_ffff_ffff)
            by (nonlinear_arith)
            requires
                0 <= count <= 0xffff_fffe_0000_0001,
                0 <= nanos <= 0xffff_ffff_ffff_ffff,
        ;
    }
    (count as u128 * nanos + 999_999_999) / 1_000_000_000
}

fn blocks(v: u32) -> (n: u64)
    ensures
        n == rate::ceil_div(v as int, 16),
        n <= 0x1000_0000,
{
    (v as u64 + 15) / 16
}

/// The lowest H.264 level for pictures of this size and rate.
pub fn h264_level_for(width: u32, height: u32, r: FrameRate) -> (l: Level)
    ensures
        is_h264_level(width, height, r, l),
{
    let bw: u64 = blocks(width);
    let bh: u64 = blocks(height);
    proof {
        assert(0 <= bw * bh <= 0x1000_0000 * 0x1000_0000) by (nonlinear_arith)
            requires
                0 <= bw <= 0x1000_0000,
                0 <= bh <= 0x1000_0000,
        ;
    }
    let mbs: u64 = bw * bh;
    let table: Vec<LevelRow> = h264_levels();
    let i: usize = find_level(&table, mbs, count_per_second(mbs, r));
    let found: LevelRow = table[i];
    assert(is_level(
        h264_table(),
        macroblocks(width, height),
        per_second(macroblocks(width, height), r),
        i as int,
    ));
    assert(found.max_kbps <= 800_000) by {
        table_bitrates_are_small(i as int);
    }
    Level { amf_value: found.idc, max_bitrate: found.max_kbps * 1000 * 5 / 4 }
}

proof fn table_bitrates_are_small(i: int)
    ensures
        0 <= i < 12 ==> h264_table()[i].max_kbps <= 800_000,
        0 <= i < 10 ==> h265_table()[i].max_kbps <= 800_000,
{
}

/// The lowest H.265 level for pictures of this size and rate.
pub fn h265_level_for(width: u32, height: u32, r: FrameRate) -> (l: Level)
    ensures
        is_h265_level(width, height, r, l),
{
    proof {
        assert(0 <= width * height <= 0xffff_ffff * 0xffff_ffff) by (nonlinear_arith)
            requires
                width <= 0xffff_ffff,
                height <= 0xffff_ffff,
        ;
    }
    let samples: u64 = width as u64 * height as u64;
    let table: Vec<LevelRow> = h265_levels();
    let i: usize = find_level(&table, samples, count_per_second(samples, r));
    let found: LevelRow = table[i];
    assert(is_level(
        h265_table(),
        width as int * height as int,
        per_second(width as int * height as int, r),
        i as int,
    ));
    assert(found.max_kbps <= 800_000) by {
        table_bitrates_are_small(i as int);
    }
    Level { amf_value: found.idc, max_bitrate: found.max_kbps * 1000 }
}

/// A stream fits the level it is given: where any level of the table admits
/// its pictures, the one given does, and it is the lowest that does.
pub proof fn the_level_is_the_lowest_that_fits(
    t: Seq<LevelRow>,
    size: int,
    rate: int,
    i: int,
    j: int,
)
    requires
        is_level(t, size, rate, i),
        0 <= j < t.len(),
        admits(t[j], size, rate),
    ensures
        i <= j,
        admits(t[i], size, rate),
{
}

/// The level is determined by size and rate.
pub proof fn the_level_is_unique(t: Seq<LevelRow>, size: int, rate: int, i: int, j: int)
    requires
        is_level(t, size, rate, i),
        is_level(t, size, rate, j),
    ensures
        i == j,
{
}

/// The bit rate ceiling: a quarter of a bit for every pixel of a second,
/// rounded, at least two megabits, and no more than the level allows. A rate
/// that is unknown counts as 30.
pub open spec fn ceiling(w: u32, h: u32, r: FrameRate, cap: Option<u64>) -> int {
    let bits = rate::max_int(
        rate::round_div(w * h * r.or_thirty().nanos, 4_000_000_000),
        2_000_000,
    );
    rate::min_int(
        match cap {
            Some(c) => rate::min_int(bits, c as int),
            None => bits,
        },
        i64::MAX as int,
    )
}

/// The bit rate ceiling.
pub fn qvbr_bitrate_ceiling(width: u32, height: u32, r: FrameRate, level_cap: Option<u64>) -> (bps:
    i64)
    ensures
        bps == ceiling(width, height, r, level_cap),
{
    let nanos: u128 = r.known().nanos as u128;
    proof {
        assert(0 <= width * height <= 0xffff_ffff * 0xffff_ffff) by (nonlinear_arith)
            requires
                width <= 0xffff_ffff,
                height <= 0xffff_ffff,
        ;
        assert(0 <= width * height * nanos <= 0xffff_fffe_0000_0001 * 0xffff_ffff_ffff_ffff)
            by (nonlinear_arith)
            requires
                0 <= width * height <= 0xffff_fffe_0000_0001,
                0 <= nanos <= 0xffff_ffff_ffff_ffff,
        ;
    }
    let a: u128 = width as u128 * height as u128 * nanos;
    let huge: bool = a >= 0x10_0000_0000_0000_0000_0000_0000;
    let rounded: u128 = if huge {
        0xffff_ffff_ffff_ffff
    } else {
        (2 * a + 4_000_000_000) / 8_000_000_000
    };
    let floored: u128 = if rounded < 2_000_000 {
        2_000_000
    } else {
        rounded
    };
    let capped: u128 = match level_cap {
        Some(c) => if floored > c as u128 {
            c as u128
        } else {
            floored
        },
        None => floored,
    };
    if capped > 0x7fff_ffff_ffff_ffff {
        0x7fff_ffff_ffff_ffff
    } else {
        capped as i64
    }
}

/// The quantisers of an H.264 or H.265 session.
#[derive(Debug, Clone, Copy, PartialEq, Eq, Structural)]
pub struct H26xQuant {
    pub rc: AmfRateControl,
    pub qp_i: u8,
    pub qp_p: u8,
    pub qvbr_level: u8,
    pub preset: AmfQualityPreset,
}

/// The quantisers of a session: the caller's CRF replaces the tuning row's
/// outright; a constant quantiser is the caller's or the row's choice.
pub open spec fn quant_of(c: EncoderConfig, tp: AmfH26xParams) -> H26xQuant {
    let auto = c.quality == AUTO_FROM_TARGET;
    let crf = rate::min_int(c.quality as int, 51);
    H26xQuant {
        rc: if c.constant_qp {
            AmfRateControl::Cqp
        } else {
            tp.rc_mode
        },
        qp_i: if auto {
            tp.qp_i
        } else {
            crf as u8
        },
        qp_p: if auto {
            tp.qp_p
        } else {
            rate::min_int(crf + 2, 51) as u8
        },
        qvbr_level: if auto {
            rate::clamp_int(tp.qvbr_quality as int, 1, 51) as u8
        } else {
            rate::max_int(crf, 1) as u8
        },
        preset: tp.quality_preset,
    }
}

/// The quantisers of a session.
pub fn h26x_quant(c: &EncoderConfig, tp: &AmfH26xParams) -> (q: H26xQuant)
    ensures
        q == quant_of(*c, *tp),
{
    let auto: bool = c.quality == AUTO_FROM_TARGET;
    let crf: u8 = if c.quality > 51 {
        51
    } else {
        c.quality
    };
    let level: u8 = if auto {
        tp.qvbr_quality
    } else {
        crf
    };
    H26xQuant {
        rc: if c.constant_qp {
            AmfRateControl::Cqp
        } else {
            tp.rc_mode
        },
        qp_i: if auto {
            tp.qp_i
        } else {
            crf
        },
        qp_p: if auto {
            tp.qp_p
        } else if crf > 49 {
            51
        } else {
            crf + 2
        },
        qvbr_level: if level < 1 {
            1
        } else if level > 51 {
            51
        } else {
            level
        },
        preset: tp.quality_preset,
    }
}

/// Why a codec cannot take a format, if it cannot.
pub open spec fn h26x_format_verdict(codec: VideoCodec, f: PixelFormat) -> Option<AmfError> {
    match codec {
        VideoCodec::H264 => if f == PixelFormat::Yuv420p {
            None
        } else {
            Some(AmfError::AvcFormat { format: f })
        },
        VideoCodec::H265 => if f.is_420() {
            None
        } else {
            Some(AmfError::HevcFormat { format: f })
        },
        VideoCodec::Av1 => Some(AmfError::NotH26x),
    }
}

/// Refuse the formats that H.264 and H.265 cannot take.
pub fn check_h26x_format(codec: VideoCodec, f: PixelFormat) -> (r: Result<(), AmfError>)
    ensures
        match h26x_format_verdict(codec, f) {
            None => r is Ok,
            Some(e) => r == Err::<(), AmfError>(e),
        },
{
    match codec {
        VideoCodec::H264 => match f {
            PixelFormat::Yuv420p => Ok(()),
            _ => Err(AmfError::AvcFormat { format: f }),
        },
        VideoCodec::H265 => match f {
            PixelFormat::Yuv420p | PixelFormat::Yuv420p10le => Ok(()),
            _ => Err(AmfError::HevcFormat { format: f }),
        },
        VideoCodec::Av1 => Err(AmfError::NotH26x),
    }
}

/// A configured component: what is set on it, and the settings in words.
#[derive(Debug)]
pub struct Configured {
    pub properties: PropertyList,
    pub summary: String,
}

/// The six colour properties, input and output alike, so that the runtime has
/// no reason to convert between them.
pub open spec fn colour_properties(
    names: Seq<Seq<char>>,
    cm: ColorMetadata,
) -> Seq<(Seq<char>, AmfVariant)> {
    let profile = AmfVariant::Int64(color_profile(cm.matrix_coefficients, cm.full_range));
    let transfer = AmfVariant::Int64(cm.transfer.h273() as i64);
    let primaries = AmfVariant::Int64(cm.colour_primaries as i64);
    seq![
        (names[0], profile),
        (names[1], transfer),
        (names[2], primaries),
        (names[3], profile),
        (names[4], transfer),
        (names[5], primaries),
    ]
}

fn push_colours(l: &mut PropertyList, names: [&'static str; 6], cm: &ColorMetadata)
    ensures
        final(l)@ == old(l)@ + colour_properties(
            Seq::new(6, |i: int| names@[i]@),
            *cm,
        ),
{
    let profile: i64 = amf_color_profile_for(cm.matrix_coefficients, cm.full_range);
    let transfer: i64 = transfer_to_h273(cm.transfer) as i64;
    let primaries: i64 = cm.colour_primaries as i64;
    l.set_int(names[0], profile);
    l.set_int(names[1], transfer);
    l.set_int(names[2], primaries);
    l.set_int(names[3], profile);
    l.set_int(names[4], transfer);
    l.set_int(names[5], primaries);
    assert(l@ =~= old(l)@ + colour_properties(Seq::new(6, |i: int| names@[i]@), *cm));
}

/// What QVBR is given besides its method: the quality level, and the ceiling
/// as target, peak and one-second buffer, with the buffer enforced and no
/// filler.
pub open spec fn avc_qvbr(q: H26xQuant, ceiling: i64) -> Seq<(Seq<char>, AmfVariant)> {
    seq![
        ("RateControlMethod"@, AmfVariant::Int64(4)),
        ("QvbrQualityLevel"@, AmfVariant::Int64(q.qvbr_level as i64)),
        ("TargetBitrate"@, AmfVariant::Int64(ceiling)),
        ("PeakBitrate"@, AmfVariant::Int64(ceiling)),
        ("VBVBufferSize"@, AmfVariant::Int64(ceiling)),
        ("EnforceHRD"@, AmfVariant::Bool(true)),
        ("FillerDataEnable"@, AmfVariant::Bool(false)),
    ]
}

/// The rate control of an H.264 component.
pub open spec fn avc_rate(q: H26xQuant, top: i64) -> Seq<(Seq<char>, AmfVariant)> {
    match q.rc {
        AmfRateControl::Cqp => seq![("RateControlMethod"@, AmfVariant::Int64(0))],
        AmfRateControl::QualityVbr => avc_qvbr(q, top),
    }
}

fn avc_rate_control(l: &mut PropertyList, q: &H26xQuant, top: i64)
    ensures
        final(l)@ == old(l)@ + avc_rate(*q, top),
{
    match q.rc {
        AmfRateControl::Cqp => {
            l.set_int("RateControlMethod", 0);
        },
        AmfRateControl::QualityVbr => {
            l.set_int("RateControlMethod", 4);
            l.set_int("QvbrQualityLevel", q.qvbr_level as i64);
            l.set_int("TargetBitrate", top);
            l.set_int("PeakBitrate", top);
            l.set_int("VBVBufferSize", top);
            l.set_bool("EnforceHRD", true);
            l.set_bool("FillerDataEnable", false);
        },
    }
    assert(l@ =~= old(l)@ + avc_rate(*q, top));
}

/// Everything set on an H.264 component, in order.
pub open spec fn avc_sequence(c: EncoderConfig, q: H26xQuant, level: Level) -> Seq<
    (Seq<char>, AmfVariant),
> {
    let top = ceiling(c.width, c.height, c.frame_rate, Some(level.max_bitrate)) as i64;
    seq![
        ("Usage"@, AmfVariant::Int64(0)),
        ("Profile"@, AmfVariant::Int64(100)),
        ("ProfileLevel"@, AmfVariant::Int64(level.amf_value)),
        ("QualityPreset"@, AmfVariant::Int64(avc_preset(q.preset))),
        ("CABACEnable"@, AmfVariant::Int64(1)),
        (
            "FrameRate"@,
            AmfVariant::Rate {
                num: rate::amf_rational(c.frame_rate).0,
                den: rate::amf_rational(c.frame_rate).1,
            },
        ),
        ("BPicturesPattern"@, AmfVariant::Int64(0)),
        ("IDRPeriod"@, AmfVariant::Int64(interval_of(c.keyframe_interval) as i64)),
        ("OutputMode"@, AmfVariant::Int64(0)),
    ] + avc_rate(q, top) + seq![
        ("QPI"@, AmfVariant::Int64(q.qp_i as i64)),
        ("QPP"@, AmfVariant::Int64(q.qp_p as i64)),
        ("QPB"@, AmfVariant::Int64(q.qp_p as i64)),
        ("ColorBitDepth"@, AmfVariant::Int64(8)),
        ("FullRangeColor"@, AmfVariant::Bool(c.color_metadata.full_range)),
    ] + colour_properties(
        seq![
            "InColorProfile"@,
            "InColorTransferChar"@,
            "InColorPrimaries"@,
            "OutColorProfile"@,
            "OutColorTransferChar"@,
            "OutColorPrimaries"@,
        ],
        c.color_metadata,
    )
}

/// The settings of an H.264 component in words.
pub open spec fn avc_summary(c: EncoderConfig, q: H26xQuant, level: Level) -> Seq<char> {
    "profile=High level="@ + text::dec_int(level.amf_value as int) + quant_summary(c, q, level)
}

/// The quantisers, ceiling and interval in words.
pub open spec fn quant_summary(c: EncoderConfig, q: H26xQuant, level: Level) -> Seq<char> {
    " qp_i="@ + text::dec(q.qp_i as nat) + " qp_p="@ + text::dec(q.qp_p as nat) + " qvbr_level="@
        + text::dec(q.qvbr_level as nat) + " rc="@ + q.rc.label() + " preset="@ + q.preset.label()
        + " ceiling_bps="@ + text::dec_int(
        ceiling(c.width, c.height, c.frame_rate, Some(level.max_bitrate)),
    ) + " gop="@ + text::dec(interval_of(c.keyframe_interval) as nat)
}

fn push_quant(out: &mut String, c: &EncoderConfig, q: &H26xQuant, level: &Level)
    ensures
        final(out)@ == old(out)@ + quant_summary(*c, *q, *level),
{
    out.append(" qp_i=");
    push_dec(out, q.qp_i as u128);
    out.append(" qp_p=");
    push_dec(out, q.qp_p as u128);
    out.append(" qvbr_level=");
    push_dec(out, q.qvbr_level as u128);
    out.append(" rc=");
    out.append(q.rc.name());
    out.append(" preset=");
    out.append(q.preset.name());
    out.append(" ceiling_bps=");
    push_dec_int(
        out,
        qvbr_bitrate_ceiling(c.width, c.height, c.frame_rate, Some(level.max_bitrate)),
    );
    out.append(" gop=");
    push_dec(out, effective_keyframe_interval(c.keyframe_interval) as u128);
    assert(out@ =~= old(out)@ + quant_summary(*c, *q, *level));
}

fn avc_words(c: &EncoderConfig, q: &H26xQuant, level: &Level) -> (s: String)
    ensures
        s@ == avc_summary(*c, *q, *level),
{
    let mut summary: String = String::new();
    summary.append("profile=High level=");
    push_dec_int(&mut summary, level.amf_value);
    push_quant(&mut summary, c, q, level);
    assert(summary@ =~= avc_summary(*c, *q, *level));
    summary
}

/// Everything set on an H.264 component before it is initialised.
pub fn avc_properties(c: &EncoderConfig, tp: &AmfH26xParams) -> (r: Result<Configured, AmfError>)
    ensures
        match h26x_format_verdict(VideoCodec::H264, c.pixel_format) {
            Some(e) => r matches Err(got) && got == e,
            None => exists|level: Level| #[trigger]
                is_h264_level(c.width, c.height, c.frame_rate, level) && (r matches Ok(done)
                    && done.properties@ == avc_sequence(*c, quant_of(*c, *tp), level)
                    && done.summary@ == avc_summary(*c, quant_of(*c, *tp), level)),
        },
{
    match check_h26x_format(VideoCodec::H264, c.pixel_format) {
        Ok(()) => {},
        Err(e) => {
            return Err(e);
        },
    }
    let q: H26xQuant = h26x_quant(c, tp);
    let level: Level = h264_level_for(c.width, c.height, c.frame_rate);
    let fps: (u32, u32) = frame_rate_rational(c.frame_rate);
    let gop: i64 = effective_keyframe_interval(c.keyframe_interval) as i64;
    let top: i64 = qvbr_bitrate_ceiling(
        c.width,
        c.height,
        c.frame_rate,
        Some(level.max_bitrate),
    );
    let cm: &ColorMetadata = &c.color_metadata;

    let mut l: PropertyList = PropertyList::new();
    l.set_int("Usage", 0);
    l.set_int("Profile", 100);
    l.set_int("ProfileLevel", level.amf_value);
    l.set_int("QualityPreset", avc_quality_preset(q.preset));
    l.set_int("CABACEnable", 1);
    l.set_rate("FrameRate", fps.0, fps.1);
    l.set_int("BPicturesPattern", 0);
    l.set_int("IDRPeriod", gop);
    l.set_int("OutputMode", 0);
    avc_rate_control(&mut l, &q, top);
    l.set_int("QPI", q.qp_i as i64);
    l.set_int("QPP", q.qp_p as i64);
    l.set_int("QPB", q.qp_p as i64);
    l.set_int("ColorBitDepth", AMF_COLOR_BIT_DEPTH_8);
    l.set_bool("FullRangeColor", cm.full_range);
    let names: [&'static str; 6] = [
        "InColorProfile",
        "InColorTransferChar",
        "InColorPrimaries",
        "OutColorProfile",
        "OutColorTransferChar",
        "OutColorPrimaries",
    ];
    push_colours(&mut l, names, cm);
    proof {
        assert(Seq::new(6, |i: int| names@[i]@) =~= seq![
            "InColorProfile"@,
            "InColorTransferChar"@,
            "InColorPrimaries"@,
            "OutColorProfile"@,
            "OutColorTransferChar"@,
            "OutColorPrimaries"@,
        ]);
    }
    assert(l@ =~= avc_sequence(*c, q, level));

    let summary: String = avc_words(c, &q, &level);
    Ok(Configured { properties: l, summary })
}

/// What QVBR is given besides its method, for H.265.
pub open spec fn hevc_qvbr(q: H26xQuant, ceiling: i64) -> Seq<(Seq<char>, AmfVariant)> {
    seq![
        ("HevcRateControlMethod"@, AmfVariant::Int64(4)),
        ("HevcQvbrQualityLevel"@, AmfVariant::Int64(q.qvbr_level as i64)),
        ("HevcTargetBitrate"@, AmfVariant::Int64(ceiling)),
        ("HevcPeakBitrate"@, AmfVariant::Int64(ceiling)),
        ("HevcVBVBufferSize"@, AmfVariant::Int64(ceiling)),
        ("HevcEnforceHRD"@, AmfVariant::Bool(true)),
        ("HevcFillerDataEnable"@, AmfVariant::Bool(false)),
    ]
}

/// The rate control of an H.265 component.
pub open spec fn hevc_rate(q: H26xQuant, top: i64) -> Seq<(Seq<char>, AmfVariant)> {
    match q.rc {
        AmfRateControl::Cqp => seq![("HevcRateControlMethod"@, AmfVariant::Int64(0))],
        AmfRateControl::QualityVbr => hevc_qvbr(q, top),
    }
}

fn hevc_rate_control(l: &mut PropertyList, q: &H26xQuant, top: i64)
    ensures
        final(l)@ == old(l)@ + hevc_rate(*q, top),
{
    match q.rc {
        AmfRateControl::Cqp => {
            l.set_int("HevcRateControlMethod", 0);
        },
        AmfRateControl::QualityVbr => {
            l.set_int("HevcRateControlMethod", 4);
            l.set_int("HevcQvbrQualityLevel", q.qvbr_level as i64);
            l.set_int("HevcTargetBitrate", top);
            l.set_int("HevcPeakBitrate", top);
            l.set_int("HevcVBVBufferSize", top);
            l.set_bool("HevcEnforceHRD", true);
            l.set_bool("HevcFillerDataEnable", false);
        },
    }
    assert(l@ =~= old(l)@ + hevc_rate(*q, top));
}

/// Everything set on an H.265 component, in order.
pub open spec fn hevc_sequence(c: EncoderConfig, q: H26xQuant, level: Level) -> Seq<
    (Seq<char>, AmfVariant),
> {
    let top = ceiling(c.width, c.height, c.frame_rate, Some(level.max_bitrate)) as i64;
    seq![
        ("HevcUsage"@, AmfVariant::Int64(0)),
        (
            "HevcProfile"@,
            AmfVariant::Int64(
                if c.pixel_format.is_ten_bit() {
                    2
                } else {
                    1
                },
            ),
        ),
        ("HevcTier"@, AmfVariant::Int64(0)),
        ("HevcProfileLevel"@, AmfVariant::Int64(level.amf_value)),
        ("HevcQualityPreset"@, AmfVariant::Int64(hevc_preset(q.preset))),
        (
            "HevcFrameRate"@,
            AmfVariant::Rate {
                num: rate::amf_rational(c.frame_rate).0,
                den: rate::amf_rational(c.frame_rate).1,
            },
        ),
        ("HevcGOPSize"@, AmfVariant::Int64(interval_of(c.keyframe_interval) as i64)),
        ("HevcGOPSPerIDR"@, AmfVariant::Int64(1)),
        ("HevcHeaderInsertionMode"@, AmfVariant::Int64(2)),
        ("HevcOutputMode"@, AmfVariant::Int64(0)),
    ] + hevc_rate(q, top) + seq![
        ("HevcQP_I"@, AmfVariant::Int64(q.qp_i as i64)),
        ("HevcQP_P"@, AmfVariant::Int64(q.qp_p as i64)),
        ("HevcColorBitDepth"@, AmfVariant::Int64(bit_depth(c.pixel_format))),
        (
            "HevcNominalRange"@,
            AmfVariant::Int64(
                if c.color_metadata.full_range {
                    1
                } else {
                    0
                },
            ),
        ),
    ] + colour_properties(
        seq![
            "HevcInColorProfile"@,
            "HevcInColorTransferChar"@,
            "HevcInColorPrimaries"@,
            "HevcOutColorProfile"@,
            "HevcOutColorTransferChar"@,
            "HevcOutColorPrimaries"@,
        ],
        c.color_metadata,
    )
}

/// The settings of an H.265 component in words.
pub open spec fn hevc_summary(c: EncoderConfig, q: H26xQuant, level: Level) -> Seq<char> {
    "profile="@ + (if c.pixel_format.is_ten_bit() {
        "Main10"@
    } else {
        "Main"@
    }) + " level="@ + text::dec_int(level.amf_value as int) + " depth="@ + text::dec_int(
        bit_depth(c.pixel_format) as int,
    ) + quant_summary(c, q, level)
}

fn hevc_words(c: &EncoderConfig, q: &H26xQuant, level: &Level) -> (s: String)
    ensures
        s@ == hevc_summary(*c, *q, *level),
{
    let mut summary: String = String::new();
    summary.append("profile=");
    summary.append(
        if c.pixel_format == PixelFormat::Yuv420p10le {
            "Main10"
        } else {
            "Main"
        },
    );
    summary.append(" level=");
    push_dec_int(&mut summary, level.amf_value);
    summary.append(" depth=");
    push_dec_int(&mut summary, amf_color_bit_depth_for(c.pixel_format));
    push_quant(&mut summary, c, q, level);
    assert(summary@ =~= hevc_summary(*c, *q, *level));
    summary
}

/// Everything set on an H.265 component before it is initialised.
pub fn hevc_properties(c: &EncoderConfig, tp: &AmfH26xParams) -> (r: Result<Configured, AmfError>)
    ensures
        match h26x_format_verdict(VideoCodec::H265, c.pixel_format) {
            Some(e) => r matches Err(got) && got == e,
            None => exists|level: Level| #[trigger]
                is_h265_level(c.width, c.height, c.frame_rate, level) && (r matches Ok(done)
                    && done.properties@ == hevc_sequence(*c, quant_of(*c, *tp), level)
                    && done.summary@ == hevc_summary(*c, quant_of(*c, *tp), level)),
        },
{
    match check_h26x_format(VideoCodec::H265, c.pixel_format) {
        Ok(()) => {},
        Err(e) => {
            return Err(e);
        },
    }
    let q: H26xQuant = h26x_quant(c, tp);
    let level: Level = h265_level_for(c.width, c.height, c.frame_rate);
    let fps: (u32, u32) = frame_rate_rational(c.frame_rate);
    let gop: i64 = effective_keyframe_interval(c.keyframe_interval) as i64;
    let depth: i64 = amf_color_bit_depth_for(c.pixel_format);
    let ten_bit: bool = depth == AMF_COLOR_BIT_DEPTH_10;
    let top: i64 = qvbr_bitrate_ceiling(
        c.width,
        c.height,
        c.frame_rate,
        Some(level.max_bitrate),
    );
    let cm: &ColorMetadata = &c.color_metadata;

    let mut l: PropertyList = PropertyList::new();
    l.set_int("HevcUsage", 0);
    l.set_int(
        "HevcProfile",
        if ten_bit {
            2
        } else {
            1
        },
    );
    l.set_int("HevcTier", 0);
    l.set_int("HevcProfileLevel", level.amf_value);
    l.set_int("HevcQualityPreset", hevc_quality_preset(q.preset));
    l.set_rate("HevcFrameRate", fps.0, fps.1);
    l.set_int("HevcGOPSize", gop);
    l.set_int("HevcGOPSPerIDR", 1);
    l.set_int("HevcHeaderInsertionMode", 2);
    l.set_int("HevcOutputMode", 0);
    hevc_rate_control(&mut l, &q, top);
    l.set_int("HevcQP_I", q.qp_i as i64);
    l.set_int("HevcQP_P", q.qp_p as i64);
    l.set_int("HevcColorBitDepth", depth);
    l.set_int(
        "HevcNominalRange",
        if cm.full_range {
            1
        } else {
            0
        },
    );
    let names: [&'static str; 6] = [
        "HevcInColorProfile",
        "HevcInColorTransferChar",
        "HevcInColorPrimaries",
        "HevcOutColorProfile",
        "HevcOutColorTransferChar",
        "HevcOutColorPrimaries",
    ];
    push_colours(&mut l, names, cm);
    proof {
        assert(Seq::new(6, |i: int| names@[i]@) =~= seq![
            "HevcInColorProfile"@,
            "HevcInColorTransferChar"@,
            "HevcInColorPrimaries"@,
            "HevcOutColorProfile"@,
            "HevcOutColorTransferChar"@,
            "HevcOutColorPrimaries"@,
        ]);
    }
    assert(l@ =~= hevc_sequence(*c, q, level));

    let summary: String = hevc_words(c, &q, &level);
    Ok(Configured { properties: l, summary })
}

/// The quantisers of an AV1 session.
#[derive(Debug, Clone, Copy, PartialEq, Eq, Structural)]
pub struct Av1Quant {
    pub rc: AmfRateControl,
    pub q_intra: u8,
    pub q_inter: u8,
    pub qvbr_level: u8,
}

/// The quantisers of an AV1 session, on the scale 1 to 255: the caller's level
/// times four, or the tuning row's; inter pictures eight steps coarser; the
/// QVBR level a quarter of the scale.
pub open spec fn av1_quant_of(c: EncoderConfig, tp: AmfAv1Params) -> Av1Quant {
    let intra = rate::max_int(
        if c.quality == AUTO_FROM_TARGET {
            tp.q_index_intra as int
        } else {
            rate::min_int(c.quality * 4, 255)
        },
        1,
    );
    Av1Quant {
        rc: if c.constant_qp {
            AmfRateControl::Cqp
        } else {
            tp.rc_mode
        },
        q_intra: intra as u8,
        q_inter: rate::min_int(intra + 8, 255) as u8,
        qvbr_level: rate::clamp_int(intra / 4, 1, 51) as u8,
    }
}

/// The quantisers of an AV1 session.
pub fn av1_quant(c: &EncoderConfig, tp: &AmfAv1Params) -> (q: Av1Quant)
    ensures
        q == av1_quant_of(*c, *tp),
{
    let raw: u8 = if c.quality == AUTO_FROM_TARGET {
        tp.q_index_intra
    } else if c.quality > 63 {
        255
    } else {
        c.quality * 4
    };
    let intra: u8 = if raw < 1 {
        1
    } else {
        raw
    };
    let quarter: u8 = intra / 4;
    Av1Quant {
        rc: if c.constant_qp {
            AmfRateControl::Cqp
        } else {
            tp.rc_mode
        },
        q_intra: intra,
        q_inter: if intra > 247 {
            255
        } else {
            intra + 8
        },
        qvbr_level: if quarter < 1 {
            1
        } else if quarter > 51 {
            51
        } else {
            quarter
        },
    }
}

/// What QVBR is given besides its method, for AV1. The ceiling has no level to
/// be capped by.
pub open spec fn av1_qvbr(q: Av1Quant, ceiling: i64) -> Seq<(Seq<char>, AmfVariant)> {
    seq![
        ("Av1QvbrQualityLevel"@, AmfVariant::Int64(q.qvbr_level as i64)),
        ("Av1TargetBitrate"@, AmfVariant::Int64(ceiling)),
        ("Av1PeakBitrate"@, AmfVariant::Int64(ceiling)),
        ("Av1VBVBufferSize"@, AmfVariant::Int64(ceiling)),
        ("Av1EnforceHRD"@, AmfVariant::Bool(true)),
    ]
}

/// Everything set on an AV1 component, in order. The output mode's name is
/// spelt with a capital prefix, unlike every other.
pub open spec fn av1_sequence(c: EncoderConfig, tp: AmfAv1Params) -> Seq<(Seq<char>, AmfVariant)> {
    let q = av1_quant_of(c, tp);
    let top = ceiling(c.width, c.height, c.frame_rate, None) as i64;
    seq![
        ("Av1Usage"@, AmfVariant::Int64(0)),
        (
            "Av1RateControlMethod"@,
            AmfVariant::Int64(
                match q.rc {
                    AmfRateControl::Cqp => 0,
                    AmfRateControl::QualityVbr => 4,
                },
            ),
        ),
        ("Av1QualityPreset"@, AmfVariant::Int64(av1_preset(tp.quality_preset))),
        ("Av1QIndex_Intra"@, AmfVariant::Int64(q.q_intra as i64)),
        ("Av1QIndex_Inter"@, AmfVariant::Int64(q.q_inter as i64)),
        (
            "Av1FrameRate"@,
            AmfVariant::Rate {
                num: rate::amf_rational(c.frame_rate).0,
                den: rate::amf_rational(c.frame_rate).1,
            },
        ),
    ] + (match q.rc {
        AmfRateControl::Cqp => seq![],
        AmfRateControl::QualityVbr => av1_qvbr(q, top),
    }) + seq![
        ("Av1GOPSize"@, AmfVariant::Int64(interval_of(c.keyframe_interval) as i64)),
        (
            "Av1AQMode"@,
            AmfVariant::Int64(
                if tp.aq_mode != 0 {
                    1
                } else {
                    0
                },
            ),
        ),
        ("Av1NumTilesPerFrame"@, AmfVariant::Int64(tp.tiles_per_frame as i64)),
        ("AV1OutputMode"@, AmfVariant::Int64(0)),
        ("Av1ColorBitDepth"@, AmfVariant::Int64(bit_depth(c.pixel_format))),
    ] + colour_properties(
        seq![
            "Av1InputColorProfile"@,
            "Av1InputColorTransferChar"@,
            "Av1InputColorPrimaries"@,
            "Av1OutputColorProfile"@,
            "Av1OutputColorTransferChar"@,
            "Av1OutputColorPrimaries"@,
        ],
        c.color_metadata,
    )
}

/// The settings of an AV1 component in words.
pub open spec fn av1_summary(c: EncoderConfig, tp: AmfAv1Params) -> Seq<char> {
    let q = av1_quant_of(c, tp);
    "q_index_intra="@ + text::dec(q.q_intra as nat) + " q_index_inter="@ + text::dec(
        q.q_inter as nat,
    ) + " qvbr_level="@ + text::dec(q.qvbr_level as nat) + " rc="@ + q.rc.label() + " preset="@
        + tp.quality_preset.label() + " tiles="@ + text::dec(tp.tiles_per_frame as nat)
        + " depth="@ + text::dec_int(bit_depth(c.pixel_format) as int)
}

/// Everything set on an AV1 component before it is initialised.
pub fn av1_properties(c: &EncoderConfig, tp: &AmfAv1Params) -> (done: Configured)
    ensures
        done.properties@ == av1_sequence(*c, *tp),
        done.summary@ == av1_summary(*c, *tp),
{
    let q: Av1Quant = av1_quant(c, tp);
    let fps: (u32, u32) = frame_rate_rational(c.frame_rate);
    let gop: i64 = effective_keyframe_interval(c.keyframe_interval) as i64;
    let depth: i64 = amf_color_bit_depth_for(c.pixel_format);
    let top: i64 = qvbr_bitrate_ceiling(c.width, c.height, c.frame_rate, None);
    let cm: &ColorMetadata = &c.color_metadata;

    let mut l: PropertyList = PropertyList::new();
    l.set_int("Av1Usage", 0);
    l.set_int(
        "Av1RateControlMethod",
        match q.rc {
            AmfRateControl::Cqp => 0,
            AmfRateControl::QualityVbr => 4,
        },
    );
    l.set_int("Av1QualityPreset", av1_quality_preset(tp.quality_preset));
    l.set_int("Av1QIndex_Intra", q.q_intra as i64);
    l.set_int("Av1QIndex_Inter", q.q_inter as i64);
    l.set_rate("Av1FrameRate", fps.0, fps.1);
    match q.rc {
        AmfRateControl::Cqp => {},
        AmfRateControl::QualityVbr => {
            l.set_int("Av1QvbrQualityLevel", q.qvbr_level as i64);
            l.set_int("Av1TargetBitrate", top);
            l.set_int("Av1PeakBitrate", top);
            l.set_int("Av1VBVBufferSize", top);
            l.set_bool("Av1EnforceHRD", true);
        },
    }
    l.set_int("Av1GOPSize", gop);
    l.set_int(
        "Av1AQMode",
        if tp.aq_mode != 0 {
            1
        } else {
            0
        },
    );
    l.set_int("Av1NumTilesPerFrame", tp.tiles_per_frame as i64);
    l.set_int("AV1OutputMode", 0);
    l.set_int("Av1ColorBitDepth", depth);
    let names: [&'static str; 6] = [
        "Av1InputColorProfile",
        "Av1InputColorTransferChar",
        "Av1InputColorPrimaries",
        "Av1OutputColorProfile",
        "Av1OutputColorTransferChar",
        "Av1OutputColorPrimaries",
    ];
    push_colours(&mut l, names, cm);
    proof {
        assert(Seq::new(6, |i: int| names@[i]@) =~= seq![
            "Av1InputColorProfile"@,
            "Av1InputColorTransferChar"@,
            "Av1InputColorPrimaries"@,
            "Av1OutputColorProfile"@,
            "Av1OutputColorTransferChar"@,
            "Av1OutputColorPrimaries"@,
        ]);
    }
    assert(l@ =~= av1_sequence(*c, *tp));

    let mut summary: String = String::new();
    summary.append("q_index_intra=");
    push_dec(&mut summary, q.q_intra as u128);
    summary.append(" q_index_inter=");
    push_dec(&mut summary, q.q_inter as u128);
    summary.append(" qvbr_level=");
    push_dec(&mut summary, q.qvbr_level as u128);
    summary.append(" rc=");
    summary.append(q.rc.name());
    summary.append(" preset=");
    summary.append(tp.quality_preset.name());
    summary.append(" tiles=");
    push_dec(&mut summary, tp.tiles_per_frame as u128);
    summary.append(" depth=");
    push_dec_int(&mut summary, depth);
    assert(summary@ =~= av1_summary(*c, *tp));
    Configured { properties: l, summary }
}

/// Under a constant quantiser no bit rate is set: the H.264 sequence has the
/// method alone where QVBR has seven properties.
pub proof fn constant_quantisers_set_no_bitrate(c: EncoderConfig, q: H26xQuant, level: Level)
    requires
        q.rc == AmfRateControl::Cqp,
    ensures
        avc_sequence(c, q, level).len() == 21,
        hevc_sequence(c, q, level).len() == 21,
        avc_sequence(c, q, level)[9] == ("RateControlMethod"@, AmfVariant::Int64(0)),
        avc_sequence(c, q, level)[10] == ("QPI"@, AmfVariant::Int64(q.qp_i as i64)),
        hevc_sequence(c, q, level)[10] == ("HevcRateControlMethod"@, AmfVariant::Int64(0)),
        hevc_sequence(c, q, level)[11] == ("HevcQP_I"@, AmfVariant::Int64(q.qp_i as i64)),
{
}

/// The usage comes first in every sequence: it sets every default, and what
/// follows overrides it.
pub proof fn usage_comes_first(c: EncoderConfig, q: H26xQuant, level: Level, tp: AmfAv1Params)
    ensures
        avc_sequence(c, q, level)[0].0 == "Usage"@,
        hevc_sequence(c, q, level)[0].0 == "HevcUsage"@,
        av1_sequence(c, tp)[0].0 == "Av1Usage"@,
{
}

/// Every quantiser is in the range its property takes, whatever the caller
/// asked for.
pub proof fn quantisers_are_in_range(c: EncoderConfig, tp: AmfAv1Params, row: AmfH26xParams)
    ensures
        1 <= av1_quant_of(c, tp).q_intra,
        1 <= av1_quant_of(c, tp).q_inter,
        1 <= av1_quant_of(c, tp).qvbr_level <= 51,
        av1_quant_of(c, tp).q_inter >= av1_quant_of(c, tp).q_intra,
        1 <= quant_of(c, row).qvbr_level <= 51,
        c.quality != AUTO_FROM_TARGET ==> quant_of(c, row).qp_i <= 51 && quant_of(c, row).qp_p
            <= 51 && quant_of(c, row).qp_i <= quant_of(c, row).qp_p,
{
}

/// Whether a property is among those set, with this value.
pub open spec fn told(s: Seq<(Seq<char>, AmfVariant)>, name: Seq<char>, value: AmfVariant) -> bool {
    exists|i: int| 0 <= i < s.len() && #[trigger] s[i] == (name, value)
}

/// An H.264 component is told the level, the row's preset, the frame rate, the
/// keyframe interval, the quantisers and the colour, in and out alike; under a
/// constant quantiser its method and no bit rate, else the quality level and
/// the ceiling.
pub proof fn the_h264_component_is_told_the_callers_choices(
    c: EncoderConfig,
    tp: AmfH26xParams,
    level: Level,
)
    ensures
        ({
            let q = quant_of(c, tp);
            let s = avc_sequence(c, q, level);
            let cm = c.color_metadata;
            let top = ceiling(c.width, c.height, c.frame_rate, Some(level.max_bitrate)) as i64;
            &&& told(s, "Usage"@, AmfVariant::Int64(0))
            &&& told(s, "Profile"@, AmfVariant::Int64(100))
            &&& told(s, "ProfileLevel"@, AmfVariant::Int64(level.amf_value))
            &&& told(s, "QualityPreset"@, AmfVariant::Int64(avc_preset(tp.quality_preset)))
            &&& told(s, "CABACEnable"@, AmfVariant::Int64(1))
            &&& told(
                s,
                "FrameRate"@,
                AmfVariant::Rate {
                    num: rate::amf_rational(c.frame_rate).0,
                    den: rate::amf_rational(c.frame_rate).1,
                },
            )
            &&& told(s, "BPicturesPattern"@, AmfVariant::Int64(0))
            &&& told(
                s,
                "IDRPeriod"@,
                AmfVariant::Int64(
                    if c.keyframe_interval == 0 {
                        240
                    } else {
                        c.keyframe_interval as i64
                    },
                ),
            )
            &&& told(s, "OutputMode"@, AmfVariant::Int64(0))
            &&& told(s, "QPI"@, AmfVariant::Int64(q.qp_i as i64))
            &&& told(s, "QPP"@, AmfVariant::Int64(q.qp_p as i64))
            &&& told(s, "QPB"@, AmfVariant::Int64(q.qp_p as i64))
            &&& told(s, "ColorBitDepth"@, AmfVariant::Int64(8))
            &&& told(s, "FullRangeColor"@, AmfVariant::Bool(cm.full_range))
            &&& told(
                s,
                "InColorProfile"@,
                AmfVariant::Int64(color_profile(cm.matrix_coefficients, cm.full_range)),
            )
            &&& told(s, "InColorTransferChar"@, AmfVariant::Int64(cm.transfer.h273() as i64))
            &&& told(s, "InColorPrimaries"@, AmfVariant::Int64(cm.colour_primaries as i64))
            &&& told(
                s,
                "OutColorProfile"@,
                AmfVariant::Int64(color_profile(cm.matrix_coefficients, cm.full_range)),
            )
            &&& told(s, "OutColorTransferChar"@, AmfVariant::Int64(cm.transfer.h273() as i64))
            &&& told(s, "OutColorPrimaries"@, AmfVariant::Int64(cm.colour_primaries as i64))
            &&& q.rc == AmfRateControl::QualityVbr ==> {
                &&& told(s, "RateControlMethod"@, AmfVariant::Int64(4))
                &&& told(s, "QvbrQualityLevel"@, AmfVariant::Int64(q.qvbr_level as i64))
                &&& told(s, "TargetBitrate"@, AmfVariant::Int64(top))
                &&& told(s, "PeakBitrate"@, AmfVariant::Int64(top))
                &&& told(s, "VBVBufferSize"@, AmfVariant::Int64(top))
                &&& told(s, "EnforceHRD"@, AmfVariant::Bool(true))
                &&& told(s, "FillerDataEnable"@, AmfVariant::Bool(false))
            }
            &&& q.rc == AmfRateControl::Cqp ==> {
                &&& s.len() == 21
                &&& told(s, "RateControlMethod"@, AmfVariant::Int64(0))
            }
        }),
{
    let q = quant_of(c, tp);
    let s = avc_sequence(c, q, level);
    if q.rc == AmfRateControl::Cqp {
        assert(s[0].0 == "Usage"@);
        assert(s[1].0 == "Profile"@);
        assert(s[2].0 == "ProfileLevel"@);
        assert(s[3].0 == "QualityPreset"@);
        assert(s[4].0 == "CABACEnable"@);
        assert(s[5].0 == "FrameRate"@);
        assert(s[6].0 == "BPicturesPattern"@);
        assert(s[7].0 == "IDRPeriod"@);
        assert(s[8].0 == "OutputMode"@);
        assert(s[10].0 == "QPI"@);
        assert(s[11].0 == "QPP"@);
        assert(s[12].0 == "QPB"@);
        assert(s[13].0 == "ColorBitDepth"@);
        assert(s[14].0 == "FullRangeColor"@);
        assert(s[15].0 == "InColorProfile"@);
        assert(s[16].0 == "InColorTransferChar"@);
        assert(s[17].0 == "InColorPrimaries"@);
        assert(s[18].0 == "OutColorProfile"@);
        assert(s[19].0 == "OutColorTransferChar"@);
        assert(s[20].0 == "OutColorPrimaries"@);
        assert(s[9].0 == "RateControlMethod"@);
    } else {
        assert(s[0].0 == "Usage"@);
        assert(s[1].0 == "Profile"@);
        assert(s[2].0 == "ProfileLevel"@);
        assert(s[3].0 == "QualityPreset"@);
        assert(s[4].0 == "CABACEnable"@);
        assert(s[5].0 == "FrameRate"@);
        assert(s[6].0 == "BPicturesPattern"@);
        assert(s[7].0 == "IDRPeriod"@);
        assert(s[8].0 == "OutputMode"@);
        assert(s[16].0 == "QPI"@);
        assert(s[17].0 == "QPP"@);
        assert(s[18].0 == "QPB"@);
        assert(s[19].0 == "ColorBitDepth"@);
        assert(s[20].0 == "FullRangeColor"@);
        assert(s[21].0 == "InColorProfile"@);
        assert(s[22].0 == "InColorTransferChar"@);
        assert(s[23].0 == "InColorPrimaries"@);
        assert(s[24].0 == "OutColorProfile"@);
        assert(s[25].0 == "OutColorTransferChar"@);
        assert(s[26].0 == "OutColorPrimaries"@);
        assert(s[9].0 == "RateControlMethod"@);
        assert(s[10].0 == "QvbrQualityLevel"@);
        assert(s[11].0 == "TargetBitrate"@);
        assert(s[12].0 == "PeakBitrate"@);
        assert(s[13].0 == "VBVBufferSize"@);
        assert(s[14].0 == "EnforceHRD"@);
        assert(s[15].0 == "FillerDataEnable"@);
    }
}

/// An H.265 component is told the profile for its bit depth, the level, the
/// row's preset, the frame rate, the keyframe interval, the quantisers, the
/// range and the colour, in and out alike; under a constant quantiser its
/// method and no bit rate, else the quality level and the ceiling.
pub proof fn the_h265_component_is_told_the_callers_choices(
    c: EncoderConfig,
    tp: AmfH26xParams,
    level: Level,
)
    ensures
        ({
            let q = quant_of(c, tp);
            let s = hevc_sequence(c, q, level);
            let cm = c.color_metadata;
            let top = ceiling(c.width, c.height, c.frame_rate, Some(level.max_bitrate)) as i64;
            &&& told(s, "HevcUsage"@, AmfVariant::Int64(0))
            &&& told(
                s,
                "HevcProfile"@,
                AmfVariant::Int64(
                    if c.pixel_format == PixelFormat::Yuv420p10le {
                        2
                    } else {
                        1
                    },
                ),
            )
            &&& told(s, "HevcTier"@, AmfVariant::Int64(0))
            &&& told(s, "HevcProfileLevel"@, AmfVariant::Int64(level.amf_value))
            &&& told(s, "HevcQualityPreset"@, AmfVariant::Int64(hevc_preset(tp.quality_preset)))
            &&& told(
                s,
                "HevcFrameRate"@,
                AmfVariant::Rate {
                    num: rate::amf_rational(c.frame_rate).0,
                    den: rate::amf_rational(c.frame_rate).1,
                },
            )
            &&& told(
                s,
                "HevcGOPSize"@,
                AmfVariant::Int64(
                    if c.keyframe_interval == 0 {
                        240
                    } else {
                        c.keyframe_interval as i64
                    },
                ),
            )
            &&& told(s, "HevcGOPSPerIDR"@, AmfVariant::Int64(1))
            &&& told(s, "HevcHeaderInsertionMode"@, AmfVariant::Int64(2))
            &&& told(s, "HevcOutputMode"@, AmfVariant::Int64(0))
            &&& told(s, "HevcQP_I"@, AmfVariant::Int64(q.qp_i as i64))
            &&& told(s, "HevcQP_P"@, AmfVariant::Int64(q.qp_p as i64))
            &&& told(
                s,
                "HevcColorBitDepth"@,
                AmfVariant::Int64(
                    if c.pixel_format == PixelFormat::Yuv420p10le {
                        10
                    } else {
                        8
                    },
                ),
            )
            &&& told(
                s,
                "HevcNominalRange"@,
                AmfVariant::Int64(
                    if cm.full_range {
                        1
                    } else {
                        0
                    },
                ),
            )
            &&& told(
                s,
                "HevcInColorProfile"@,
                AmfVariant::Int64(color_profile(cm.matrix_coefficients, cm.full_range)),
            )
            &&& told(s, "HevcInColorTransferChar"@, AmfVariant::Int64(cm.transfer.h273() as i64))
            &&& told(s, "HevcInColorPrimaries"@, AmfVariant::Int64(cm.colour_primaries as i64))
            &&& told(
                s,
                "HevcOutColorProfile"@,
                AmfVariant::Int64(color_profile(cm.matrix_coefficients, cm.full_range)),
            )
            &&& told(s, "HevcOutColorTransferChar"@, AmfVariant::Int64(cm.transfer.h273() as i64))
            &&& told(s, "HevcOutColorPrimaries"@, AmfVariant::Int64(cm.colour_primaries as i64))
            &&& q.rc == AmfRateControl::QualityVbr ==> {
                &&& told(s, "HevcRateControlMethod"@, AmfVariant::Int64(4))
                &&& told(s, "HevcQvbrQualityLevel"@, AmfVariant::Int64(q.qvbr_level as i64))
                &&& told(s, "HevcTargetBitrate"@, AmfVariant::Int64(top))
                &&& told(s, "HevcPeakBitrate"@, AmfVariant::Int64(top))
                &&& told(s, "HevcVBVBufferSize"@, AmfVariant::Int64(top))
                &&& told(s, "HevcEnforceHRD"@, AmfVariant::Bool(true))
                &&& told(s, "HevcFillerDataEnable"@, AmfVariant::Bool(false))
            }
            &&& q.rc == AmfRateControl::Cqp ==> {
                &&& s.len() == 21
                &&& told(s, "HevcRateControlMethod"@, AmfVariant::Int64(0))
            }
        }),
{
    let q = quant_of(c, tp);
    let s = hevc_sequence(c, q, level);
    if q.rc == AmfRateControl::Cqp {
        assert(s[0].0 == "HevcUsage"@);
        assert(s[1].0 == "HevcProfile"@);
        assert(s[2].0 == "HevcTier"@);
        assert(s[3].0 == "HevcProfileLevel"@);
        assert(s[4].0 == "HevcQualityPreset"@);
        assert(s[5].0 == "HevcFrameRate"@);
        assert(s[6].0 == "HevcGOPSize"@);
        assert(s[7].0 == "HevcGOPSPerIDR"@);
        assert(s[8].0 == "HevcHeaderInsertionMode"@);
        assert(s[9].0 == "HevcOutputMode"@);
        assert(s[11].0 == "HevcQP_I"@);
        assert(s[12].0 == "HevcQP_P"@);
        assert(s[13].0 == "HevcColorBitDepth"@);
        assert(s[14].0 == "HevcNominalRange"@);
        assert(s[15].0 == "HevcInColorProfile"@);
        assert(s[16].0 == "HevcInColorTransferChar"@);
        assert(s[17].0 == "HevcInColorPrimaries"@);
        assert(s[18].0 == "HevcOutColorProfile"@);
        assert(s[19].0 == "HevcOutColorTransferChar"@);
        assert(s[20].0 == "HevcOutColorPrimaries"@);
        assert(s[10].0 == "HevcRateControlMethod"@);
    } else {
        assert(s[0].0 == "HevcUsage"@);
        assert(s[1].0 == "HevcProfile"@);
        assert(s[2].0 == "HevcTier"@);
        assert(s[3].0 == "HevcProfileLevel"@);
        assert(s[4].0 == "HevcQualityPreset"@);
        assert(s[5].0 == "HevcFrameRate"@);
        assert(s[6].0 == "HevcGOPSize"@);
        assert(s[7].0 == "HevcGOPSPerIDR"@);
        assert(s[8].0 == "HevcHeaderInsertionMode"@);
        assert(s[9].0 == "HevcOutputMode"@);
        assert(s[17].0 == "HevcQP_I"@);
        assert(s[18].0 == "HevcQP_P"@);
        assert(s[19].0 == "HevcColorBitDepth"@);
        assert(s[20].0 == "HevcNominalRange"@);
        assert(s[21].0 == "HevcInColorProfile"@);
        assert(s[22].0 == "HevcInColorTransferChar"@);
        assert(s[23].0 == "HevcInColorPrimaries"@);
        assert(s[24].0 == "HevcOutColorProfile"@);
        assert(s[25].0 == "HevcOutColorTransferChar"@);
        assert(s[26].0 == "HevcOutColorPrimaries"@);
        assert(s[10].0 == "HevcRateControlMethod"@);
        assert(s[11].0 == "HevcQvbrQualityLevel"@);
        assert(s[12].0 == "HevcTargetBitrate"@);
        assert(s[13].0 == "HevcPeakBitrate"@);
        assert(s[14].0 == "HevcVBVBufferSize"@);
        assert(s[15].0 == "HevcEnforceHRD"@);
        assert(s[16].0 == "HevcFillerDataEnable"@);
    }
}

/// An AV1 component is told its method, the row's preset and tiles, the
/// quantisers, the frame rate, the keyframe interval, the bit depth and the
/// colour, in and out alike; without a constant quantiser the quality level and
/// the ceiling too.
pub proof fn the_av1_component_is_told_the_callers_choices(c: EncoderConfig, tp: AmfAv1Params)
    ensures
        ({
            let q = av1_quant_of(c, tp);
            let s = av1_sequence(c, tp);
            let cm = c.color_metadata;
            let top = ceiling(c.width, c.height, c.frame_rate, None) as i64;
            &&& told(s, "Av1Usage"@, AmfVariant::Int64(0))
            &&& told(
                s,
                "Av1RateControlMethod"@,
                AmfVariant::Int64(
                    if q.rc == AmfRateControl::Cqp {
                        0
                    } else {
                        4
                    },
                ),
            )
            &&& told(s, "Av1QualityPreset"@, AmfVariant::Int64(av1_preset(tp.quality_preset)))
            &&& told(s, "Av1QIndex_Intra"@, AmfVariant::Int64(q.q_intra as i64))
            &&& told(s, "Av1QIndex_Inter"@, AmfVariant::Int64(q.q_inter as i64))
            &&& told(
                s,
                "Av1FrameRate"@,
                AmfVariant::Rate {
                    num: rate::amf_rational(c.frame_rate).0,
                    den: rate::amf_rational(c.frame_rate).1,
                },
            )
            &&& told(
                s,
                "Av1GOPSize"@,
                AmfVariant::Int64(
                    if c.keyframe_interval == 0 {
                        240
                    } else {
                        c.keyframe_interval as i64
                    },
                ),
            )
            &&& told(
                s,
                "Av1AQMode"@,
                AmfVariant::Int64(
                    if tp.aq_mode != 0 {
                        1
                    } else {
                        0
                    },
                ),
            )
            &&& told(s, "Av1NumTilesPerFrame"@, AmfVariant::Int64(tp.tiles_per_frame as i64))
            &&& told(s, "AV1OutputMode"@, AmfVariant::Int64(0))
            &&& told(
                s,
                "Av1ColorBitDepth"@,
                AmfVariant::Int64(
                    if c.pixel_format == PixelFormat::Yuv420p10le {
                        10
                    } else {
                        8
                    },
                ),
            )
            &&& told(
                s,
                "Av1InputColorProfile"@,
                AmfVariant::Int64(color_profile(cm.matrix_coefficients, cm.full_range)),
            )
            &&& told(s, "Av1InputColorTransferChar"@, AmfVariant::Int64(cm.transfer.h273() as i64))
            &&& told(s, "Av1InputColorPrimaries"@, AmfVariant::Int64(cm.colour_primaries as i64))
            &&& told(
                s,
                "Av1OutputColorProfile"@,
                AmfVariant::Int64(color_profile(cm.matrix_coefficients, cm.full_range)),
            )
            &&& told(s, "Av1OutputColorTransferChar"@, AmfVariant::Int64(cm.transfer.h273() as i64))
            &&& told(s, "Av1OutputColorPrimaries"@, AmfVariant::Int64(cm.colour_primaries as i64))
            &&& q.rc == AmfRateControl::QualityVbr ==> {
                &&& told(s, "Av1QvbrQualityLevel"@, AmfVariant::Int64(q.qvbr_level as i64))
                &&& told(s, "Av1TargetBitrate"@, AmfVariant::Int64(top))
                &&& told(s, "Av1PeakBitrate"@, AmfVariant::Int64(top))
                &&& told(s, "Av1VBVBufferSize"@, AmfVariant::Int64(top))
                &&& told(s, "Av1EnforceHRD"@, AmfVariant::Bool(true))
            }
            &&& q.rc == AmfRateControl::Cqp ==> {
                &&& s.len() == 17
            }
        }),
{
    let q = av1_quant_of(c, tp);
    let s = av1_sequence(c, tp);
    if q.rc == AmfRateControl::Cqp {
        assert(s[0].0 == "Av1Usage"@);
        assert(s[1].0 == "Av1RateControlMethod"@);
        assert(s[2].0 == "Av1QualityPreset"@);
        assert(s[3].0 == "Av1QIndex_Intra"@);
        assert(s[4].0 == "Av1QIndex_Inter"@);
        assert(s[5].0 == "Av1FrameRate"@);
        assert(s[6].0 == "Av1GOPSize"@);
        assert(s[7].0 == "Av1AQMode"@);
        assert(s[8].0 == "Av1NumTilesPerFrame"@);
        assert(s[9].0 == "AV1OutputMode"@);
        assert(s[10].0 == "Av1ColorBitDepth"@);
        assert(s[11].0 == "Av1InputColorProfile"@);
        assert(s[12].0 == "Av1InputColorTransferChar"@);
        assert(s[13].0 == "Av1InputColorPrimaries"@);
        assert(s[14].0 == "Av1OutputColorProfile"@);
        assert(s[15].0 == "Av1OutputColorTransferChar"@);
        assert(s[16].0 == "Av1OutputColorPrimaries"@);
    } else {
        assert(s[0].0 == "Av1Usage"@);
        assert(s[1].0 == "Av1RateControlMethod"@);
        assert(s[2].0 == "Av1QualityPreset"@);
        assert(s[3].0 == "Av1QIndex_Intra"@);
        assert(s[4].0 == "Av1QIndex_Inter"@);
        assert(s[5].0 == "Av1FrameRate"@);
        assert(s[11].0 == "Av1GOPSize"@);
        assert(s[12].0 == "Av1AQMode"@);
        assert(s[13].0 == "Av1NumTilesPerFrame"@);
        assert(s[14].0 == "AV1OutputMode"@);
        assert(s[15].0 == "Av1ColorBitDepth"@);
        assert(s[16].0 == "Av1InputColorProfile"@);
        assert(s[17].0 == "Av1InputColorTransferChar"@);
        assert(s[18].0 == "Av1InputColorPrimaries"@);
        assert(s[19].0 == "Av1OutputColorProfile"@);
        assert(s[20].0 == "Av1OutputColorTransferChar"@);
        assert(s[21].0 == "Av1OutputColorPrimaries"@);
        assert(s[6].0 == "Av1QvbrQualityLevel"@);
        assert(s[7].0 == "Av1TargetBitrate"@);
        assert(s[8].0 == "Av1PeakBitrate"@);
        assert(s[9].0 == "Av1VBVBufferSize"@);
        assert(s[10].0 == "Av1EnforceHRD"@);
    }
}

/// The quantiser a caller names replaces the row's: keyframes get it, up to 51,
/// predicted pictures two steps more, and the quality level is never under one.
/// Without one the row's stand. A constant quantiser is coded wherever the
/// caller asks for it, and else where the row does.
pub proof fn the_callers_quantiser_replaces_the_rows(c: EncoderConfig, tp: AmfH26xParams)
    ensures
        ({
            let q = quant_of(c, tp);
            &&& c.quality <= 51 ==> q.qp_i == c.quality
            &&& 51 < c.quality < 255 ==> q.qp_i == 51
            &&& c.quality <= 49 ==> q.qp_p == c.quality + 2
            &&& 49 < c.quality < 255 ==> q.qp_p == 51
            &&& c.quality == 0 ==> q.qvbr_level == 1
            &&& 1 <= c.quality <= 51 ==> q.qvbr_level == c.quality
            &&& 51 < c.quality < 255 ==> q.qvbr_level == 51
            &&& c.quality == 255 ==> {
                &&& q.qp_i == tp.qp_i
                &&& q.qp_p == tp.qp_p
                &&& 1 <= tp.qvbr_quality <= 51 ==> q.qvbr_level == tp.qvbr_quality
                &&& tp.qvbr_quality == 0 ==> q.qvbr_level == 1
                &&& tp.qvbr_quality > 51 ==> q.qvbr_level == 51
            }
            &&& q.preset == tp.quality_preset
            &&& c.constant_qp ==> q.rc == AmfRateControl::Cqp
            &&& !c.constant_qp ==> q.rc == tp.rc_mode
        }),
{
}

/// The quantiser a caller names is four times as many steps on the AV1 scale,
/// which ends at 255 and starts at one; without one the row's stands. Predicted
/// pictures are eight steps coarser as far as the scale goes, and the quality
/// level is a quarter of the keyframes' quantiser, from one to 51.
pub proof fn the_callers_av1_quantiser_replaces_the_rows(c: EncoderConfig, tp: AmfAv1Params)
    ensures
        ({
            let q = av1_quant_of(c, tp);
            &&& c.quality == 0 ==> q.q_intra == 1
            &&& 1 <= c.quality <= 63 ==> q.q_intra == 4 * c.quality
            &&& 63 < c.quality < 255 ==> q.q_intra == 255
            &&& c.quality == 255 && tp.q_index_intra > 0 ==> q.q_intra == tp.q_index_intra
            &&& c.quality == 255 && tp.q_index_intra == 0 ==> q.q_intra == 1
            &&& q.q_intra <= 247 ==> q.q_inter == q.q_intra + 8
            &&& q.q_intra > 247 ==> q.q_inter == 255
            &&& q.q_intra < 4 ==> q.qvbr_level == 1
            &&& 4 <= q.q_intra < 208 ==> 0 <= q.q_intra - 4 * q.qvbr_level < 4
            &&& q.q_intra >= 208 ==> q.qvbr_level == 51
            &&& c.constant_qp ==> q.rc == AmfRateControl::Cqp
            &&& !c.constant_qp ==> q.rc == tp.rc_mode
        }),
{
}

/// The ceiling is a quarter of a bit for every pixel of a second to the nearest
/// bit, wherever that is between two megabits and the level's limit; it is
/// never over the limit, and under two megabits only where the limit is.
pub proof fn the_ceiling_is_a_quarter_bit_per_pixel(w: u32, h: u32, r: FrameRate, cap: Option<u64>)
    requires
        r.nanos <= 1_000_000_000_000,
    ensures
        ({
            let top = ceiling(w, h, r, cap);
            let nanos = if r.nanos == 0 {
                30_000_000_000
            } else {
                r.nanos as int
            };
            let exact = w * h * nanos;
            &&& cap is Some ==> top <= cap->0
            &&& top < 2_000_000 ==> cap is Some && top == cap->0
            &&& top > 2_000_000 && (cap is Some ==> top < cap->0) && top < i64::MAX
                ==> -2_000_000_000 < 4_000_000_000 * top - exact <= 2_000_000_000
            &&& exact <= 8_000_000_000_000_000 ==> top <= 2_000_000
            &&& exact > 8_000_002_000_000_000 && (cap is Some ==> cap->0 > 2_000_000) ==> top
                > 2_000_000
        }),
{
    let nanos = r.or_thirty().nanos as int;
    let exact = w * h * nanos;
    assert(0 <= exact) by (nonlinear_arith)
        requires
            exact == w * h * nanos,
            nanos >= 0,
    ;
    rate::rounding_is_to_the_nearest(exact, 4_000_000_000);
}

/// A picture is covered by its macroblocks, with no row or column to spare.
pub proof fn macroblocks_cover_the_picture(w: u32, h: u32, cols: int, rows: int)
    requires
        16 * (cols - 1) < w <= 16 * cols,
        16 * (rows - 1) < h <= 16 * rows,
    ensures
        macroblocks(w, h) == cols * rows,
{
}

/// A count per second is the count per picture times the rate, rounded up, and
/// at least the count per picture.
pub proof fn counts_per_second_round_up(count: int, r: FrameRate)
    requires
        0 <= count,
    ensures
        r.nanos >= 1_000_000_000 ==> 0 <= 1_000_000_000 * per_second(count, r) - count * r.nanos
            < 1_000_000_000,
        r.nanos < 1_000_000_000 ==> per_second(count, r) == count,
{
    let n = count * r.at_least_one();
    vstd::arithmetic::div_mod::lemma_fundamental_div_mod(n + 1_000_000_000 - 1, 1_000_000_000);
    if r.nanos < 1_000_000_000 {
        assert(n == count * 1_000_000_000);
    }
}

proof fn levels_grow(t: Seq<LevelRow>, s1: int, p1: int, i: int, s2: int, p2: int, j: int)
    requires
        is_level(t, s1, p1, i),
        is_level(t, s2, p2, j),
        s1 <= s2,
        p1 <= p2,
    ensures
        i <= j,
{
    if j < i {
        assert(!admits(t[j], s1, p1));
        assert(admits(t[j], s2, p2) || j == t.len() - 1);
    }
}

/// A level admits what it is chosen for, in size and in rate, unless it is the
/// highest there is; and no lower level does.
pub proof fn a_level_admits_its_pictures(w: u32, h: u32, r: FrameRate, l: Level)
    ensures
        is_h264_level(w, h, r, l) ==> exists|i: int|
            0 <= i < h264_table().len() && l.amf_value == (#[trigger] h264_table()[i]).idc
                && l.max_bitrate == 1250 * h264_table()[i].max_kbps && (i < h264_table().len() - 1
                ==> macroblocks(w, h) <= h264_table()[i].max_size && per_second(
                macroblocks(w, h),
                r,
            ) <= h264_table()[i].max_rate) && (forall|j: int|
                0 <= j < i ==> macroblocks(w, h) > (#[trigger] h264_table()[j]).max_size
                    || per_second(macroblocks(w, h), r) > h264_table()[j].max_rate),
        is_h265_level(w, h, r, l) ==> exists|i: int|
            0 <= i < h265_table().len() && l.amf_value == (#[trigger] h265_table()[i]).idc
                && l.max_bitrate == 1000 * h265_table()[i].max_kbps && (i < h265_table().len() - 1
                ==> w * h <= h265_table()[i].max_size && per_second(w as int * h as int, r)
                <= h265_table()[i].max_rate) && (forall|j: int|
                0 <= j < i ==> w * h > (#[trigger] h265_table()[j]).max_size || per_second(
                    w as int * h as int,
                    r,
                ) > h265_table()[j].max_rate),
{
    if is_h264_level(w, h, r, l) {
        let m = macroblocks(w, h);
        let i = choose|i: int| #[trigger]
            is_level(h264_table(), m, per_second(m, r), i) && l.amf_value == h264_table()[i].idc
                && l.max_bitrate == h264_table()[i].max_kbps * 1250;
        assert(is_level(h264_table(), m, per_second(m, r), i));
        assert(h264_table()[i].idc == l.amf_value);
        assert forall|j: int| 0 <= j < i implies m > (#[trigger] h264_table()[j]).max_size
            || per_second(m, r) > h264_table()[j].max_rate by {
            assert(!admits(h264_table()[j], m, per_second(m, r)));
        }
    }
    if is_h265_level(w, h, r, l) {
        let m = w as int * h as int;
        let i = choose|i: int| #[trigger]
            is_level(h265_table(), m, per_second(m, r), i) && l.amf_value == h265_table()[i].idc
                && l.max_bitrate == h265_table()[i].max_kbps * 1000;
        assert(is_level(h265_table(), m, per_second(m, r), i));
        assert(h265_table()[i].idc == l.amf_value);
        assert forall|j: int| 0 <= j < i implies m > (#[trigger] h265_table()[j]).max_size
            || per_second(m, r) > h265_table()[j].max_rate by {
            assert(!admits(h265_table()[j], m, per_second(m, r)));
        }
    }
}

/// A higher level of a table never admits less: sizes, rates and bit rates grow
/// with the level's number.
pub proof fn levels_are_in_order(i: int, j: int)
    ensures
        0 <= i <= j < h264_table().len() ==> {
            &&& h264_table()[i].idc <= h264_table()[j].idc
            &&& h264_table()[i].max_rate <= h264_table()[j].max_rate
            &&& h264_table()[i].max_size <= h264_table()[j].max_size
            &&& h264_table()[i].max_kbps <= h264_table()[j].max_kbps
        },
        0 <= i <= j < h265_table().len() ==> {
            &&& h265_table()[i].idc <= h265_table()[j].idc
            &&& h265_table()[i].max_rate <= h265_table()[j].max_rate
            &&& h265_table()[i].max_size <= h265_table()[j].max_size
            &&& h265_table()[i].max_kbps <= h265_table()[j].max_kbps
        },
{
}

/// Larger pictures at a higher rate never get a lower level.
pub proof fn more_samples_never_need_a_lower_level(
    w1: u32,
    h1: u32,
    r1: FrameRate,
    l1: Level,
    w2: u32,
    h2: u32,
    r2: FrameRate,
    l2: Level,
)
    requires
        w1 <= w2,
        h1 <= h2,
        r1.nanos <= r2.nanos,
    ensures
        is_h265_level(w1, h1, r1, l1) && is_h265_level(w2, h2, r2, l2) ==> l1.amf_value
            <= l2.amf_value && l1.max_bitrate <= l2.max_bitrate,
{
    if is_h265_level(w1, h1, r1, l1) && is_h265_level(w2, h2, r2, l2) {
        let m1 = w1 as int * h1 as int;
        let m2 = w2 as int * h2 as int;
        assert(m1 <= m2) by (nonlinear_arith)
            requires
                m1 == w1 as int * h1 as int,
                m2 == w2 as int * h2 as int,
                w1 <= w2,
                h1 <= h2,
        ;
        let a = r1.at_least_one();
        let b = r2.at_least_one();
        assert(m1 * a <= m2 * b) by (nonlinear_arith)
            requires
                0 <= m1 <= m2,
                0 <= a <= b,
        {
            assert(0 <= m1);
        }
        assert(per_second(m1, r1) <= per_second(m2, r2)) by {
            vstd::arithmetic::div_mod::lemma_div_is_ordered(
                m1 * a + 1_000_000_000 - 1,
                m2 * b + 1_000_000_000 - 1,
                1_000_000_000,
            );
        }
        let i = choose|i: int| #[trigger]
            is_level(h265_table(), m1, per_second(m1, r1), i) && l1.amf_value
                == h265_table()[i].idc && l1.max_bitrate == h265_table()[i].max_kbps * 1000;
        let j = choose|j: int| #[trigger]
            is_level(h265_table(), m2, per_second(m2, r2), j) && l2.amf_value
                == h265_table()[j].idc && l2.max_bitrate == h265_table()[j].max_kbps * 1000;
        levels_grow(h265_table(), m1, per_second(m1, r1), i, m2, per_second(m2, r2), j);
        levels_are_in_order(i, j);
    }
}

/// The BT.2020 matrices get the BT.2020 profiles and nothing else does; full
/// and studio range never share one.
pub proof fn profiles_tell_matrix_and_range_apart(matrix: u8, full_range: bool)
    ensures
        matrix == 9 || matrix == 10 ==> color_profile(matrix, full_range) == if full_range {
            AMF_COLOR_PROFILE_FULL_2020
        } else {
            AMF_COLOR_PROFILE_2020
        },
        matrix != 9 && matrix != 10 ==> color_profile(matrix, full_range) == if full_range {
            AMF_COLOR_PROFILE_FULL_709
        } else {
            AMF_COLOR_PROFILE_709
        },
        color_profile(matrix, true) != color_profile(matrix, false),
{
}

/// H.264 takes eight-bit pictures alone, H.265 eight and ten bits, all of them
/// 4:2:0; AV1 is not asked here.
pub proof fn which_formats_h26x_takes(f: PixelFormat)
    ensures
        h26x_format_verdict(VideoCodec::H264, f) is None <==> f == PixelFormat::Yuv420p,
        h26x_format_verdict(VideoCodec::H265, f) is None <==> f == PixelFormat::Yuv420p || f
            == PixelFormat::Yuv420p10le,
        h26x_format_verdict(VideoCodec::Av1, f) == Some(AmfError::NotH26x),
        surface_format(f) == Some(AMF_SURFACE_NV12) <==> f == PixelFormat::Yuv420p,
        surface_format(f) == Some(AMF_SURFACE_P010) <==> f == PixelFormat::Yuv420p10le,
        surface_format(f) is None <==> f != PixelFormat::Yuv420p && f != PixelFormat::Yuv420p10le,
{
}

/// A keyframe is asked for by the codec's own property, and for H.264 and H.265
/// with the parameter sets in front of it.
pub proof fn keyframes_come_with_their_parameter_sets()
    ensures
        told(key_properties(VideoCodec::Av1), "Av1ForceFrameType"@, AmfVariant::Int64(1)),
        told(key_properties(VideoCodec::H264), "ForcePictureType"@, AmfVariant::Int64(2)),
        told(key_properties(VideoCodec::H264), "InsertSPS"@, AmfVariant::Bool(true)),
        told(key_properties(VideoCodec::H264), "InsertPPS"@, AmfVariant::Bool(true)),
        told(key_properties(VideoCodec::H265), "HevcForcePictureType"@, AmfVariant::Int64(2)),
        told(key_properties(VideoCodec::H265), "HevcInsertHeader"@, AmfVariant::Bool(true)),
{
    assert(key_properties(VideoCodec::Av1)[0].0 == "Av1ForceFrameType"@);
    assert(key_properties(VideoCodec::H264)[0].0 == "ForcePictureType"@);
    assert(key_properties(VideoCodec::H264)[1].0 == "InsertSPS"@);
    assert(key_properties(VideoCodec::H264)[2].0 == "InsertPPS"@);
    assert(key_properties(VideoCodec::H265)[0].0 == "HevcForcePictureType"@);
    assert(key_properties(VideoCodec::H265)[1].0 == "HevcInsertHeader"@);
}

/// The presets keep their order: on the AV1 scale a slower one has the smaller
/// number, and no two presets share a number on any scale.
pub proof fn presets_stay_apart(a: AmfQualityPreset, b: AmfQualityPreset)
    ensures
        a != b ==> av1_preset(a) != av1_preset(b) && avc_preset(a) != avc_preset(b) && hevc_preset(
            a,
        ) != hevc_preset(b),
        av1_preset(AmfQualityPreset::HighQuality) < av1_preset(AmfQualityPreset::Quality)
            < av1_preset(AmfQualityPreset::Balanced) < av1_preset(AmfQualityPreset::Speed),
{
}

/// A list of levels has one for every size and rate.
pub proof fn every_picture_has_a_level(t: Seq<LevelRow>, size: int, rate: int)
    requires
        t.len() > 0,
    ensures
        exists|i: int| #[trigger] is_level(t, size, rate, i),
{
    a_level_exists_from(t, size, rate, 0);
}

proof fn a_level_exists_from(t: Seq<LevelRow>, size: int, rate: int, from: int)
    requires
        0 <= from < t.len(),
        forall|j: int| 0 <= j < from ==> !admits(#[trigger] t[j], size, rate),
    ensures
        exists|i: int| #[trigger] is_level(t, size, rate, i),
    decreases t.len() - from,
{
    if admits(t[from], size, rate) || from == t.len() - 1 {
        assert(is_level(t, size, rate, from));
    } else {
        a_level_exists_from(t, size, rate, from + 1);
    }
}

/// Each H.264 level admits what the standard does: macroblocks a second and a
/// picture, and kilobits a second in Main.
pub proof fn h264_levels_have_the_standards_limits(i: int)
    requires
        0 <= i < h264_table().len(),
    ensures
        ({
            let r = h264_table()[i];
            &&& h264_table().len() == 12
            &&& r.idc == 30 ==> r.max_rate == 40_500 && r.max_size == 1_620 && r.max_kbps == 10_000
            &&& r.idc == 31 ==> r.max_rate == 108_000 && r.max_size == 3_600 && r.max_kbps == 14_000
            &&& r.idc == 32 ==> r.max_rate == 216_000 && r.max_size == 5_120 && r.max_kbps == 20_000
            &&& r.idc == 40 ==> r.max_rate == 245_760 && r.max_size == 8_192 && r.max_kbps == 20_000
            &&& r.idc == 41 ==> r.max_rate == 245_760 && r.max_size == 8_192 && r.max_kbps == 50_000
            &&& r.idc == 42 ==> r.max_rate == 522_240 && r.max_size == 8_704 && r.max_kbps == 50_000
            &&& r.idc == 50 ==> r.max_rate == 589_824 && r.max_size == 22_080
                && r.max_kbps == 135_000
            &&& r.idc == 51 ==> r.max_rate == 983_040 && r.max_size == 36_864
                && r.max_kbps == 240_000
            &&& r.idc == 52 ==> r.max_rate == 2_073_600 && r.max_size == 36_864
                && r.max_kbps == 240_000
            &&& r.idc == 60 ==> r.max_rate == 4_177_920 && r.max_size == 139_264
                && r.max_kbps == 240_000
            &&& r.idc == 61 ==> r.max_rate == 8_355_840 && r.max_size == 139_264
                && r.max_kbps == 480_000
            &&& r.idc == 62 ==> r.max_rate == 16_711_680 && r.max_size == 139_264
                && r.max_kbps == 800_000
            &&& r.idc == 30
                || r.idc == 31
                || r.idc == 32
                || r.idc == 40
                || r.idc == 41
                || r.idc == 42
                || r.idc == 50
                || r.idc == 51
                || r.idc == 52
                || r.idc == 60
                || r.idc == 61
                || r.idc == 62
        }),
{
}

/// Each H.265 level admits what the standard does: luma samples a second and a
/// picture, and kilobits a second in the main tier.
pub proof fn h265_levels_have_the_standards_limits(i: int)
    requires
        0 <= i < h265_table().len(),
    ensures
        ({
            let r = h265_table()[i];
            &&& h265_table().len() == 10
            &&& r.idc == 90 ==> r.max_rate == 16_588_800 && r.max_size == 552_960
                && r.max_kbps == 6_000
            &&& r.idc == 93 ==> r.max_rate == 33_177_600 && r.max_size == 983_040
                && r.max_kbps == 10_000
            &&& r.idc == 120 ==> r.max_rate == 66_846_720 && r.max_size == 2_228_224
                && r.max_kbps == 12_000
            &&& r.idc == 123 ==> r.max_rate == 133_693_440 && r.max_size == 2_228_224
                && r.max_kbps == 20_000
            &&& r.idc == 150 ==> r.max_rate == 267_386_880 && r.max_size == 8_912_896
                && r.max_kbps == 25_000
            &&& r.idc == 153 ==> r.max_rate == 534_773_760 && r.max_size == 8_912_896
                && r.max_kbps == 40_000
            &&& r.idc == 156 ==> r.max_rate == 1_069_547_520 && r.max_size == 8_912_896
                && r.max_kbps == 60_000
            &&& r.idc == 180 ==> r.max_rate == 1_069_547_520 && r.max_size == 35_651_584
                && r.max_kbps == 60_000
            &&& r.idc == 183 ==> r.max_rate == 2_139_095_040 && r.max_size == 35_651_584
                && r.max_kbps == 120_000
            &&& r.idc == 186 ==> r.max_rate == 4_278_190_080 && r.max_size == 35_651_584
                && r.max_kbps == 240_000
            &&& r.idc == 90
                || r.idc == 93
                || r.idc == 120
                || r.idc == 123
                || r.idc == 150
                || r.idc == 153
                || r.idc == 156
                || r.idc == 180
                || r.idc == 183
                || r.idc == 186
        }),
{
}

/// Each preset has the number that the codec's component gives it.
pub proof fn presets_have_their_numbers(p: AmfQualityPreset)
    ensures
        p == AmfQualityPreset::HighQuality <==> av1_preset(p) == 0,
        p == AmfQualityPreset::Quality <==> av1_preset(p) == 30,
        p == AmfQualityPreset::Balanced <==> av1_preset(p) == 70,
        p == AmfQualityPreset::Speed <==> av1_preset(p) == 100,
        p == AmfQualityPreset::HighQuality <==> avc_preset(p) == 3,
        p == AmfQualityPreset::Quality <==> avc_preset(p) == 2,
        p == AmfQualityPreset::Balanced <==> avc_preset(p) == 0,
        p == AmfQualityPreset::Speed <==> avc_preset(p) == 1,
        p == AmfQualityPreset::HighQuality <==> hevc_preset(p) == 15,
        p == AmfQualityPreset::Quality <==> hevc_preset(p) == 0,
        p == AmfQualityPreset::Balanced <==> hevc_preset(p) == 5,
        p == AmfQualityPreset::Speed <==> hevc_preset(p) == 10,
{
}

} // verus!
