//! Quality targets, speed tiers, per-rung overrides, and the parameter sets a
//! tuning table yields for each encoder.
//!
//! The tables themselves are calibration data and belong to the caller; what
//! an encoder does with one row of them is decided in this crate.

use vstd::prelude::*;

use crate::rate;

verus! {

/// Perceptual quality a rung aims at.
#[derive(Debug, Clone, Copy, PartialEq, Eq, Structural)]
pub enum QualityTarget {
    VisuallyLossless,
    High,
    Standard,
    Low,
    /// An explicit VMAF score.
    Vmaf(u8),
}

/// How much time an encode may take.
#[derive(Debug, Clone, Copy, PartialEq, Eq, Structural)]
pub enum SpeedTier {
    Draft,
    Standard,
    Archive,
}

/// What a rung may ask for beyond its target and tier. `None` leaves the
/// tuning table's choice.
#[derive(Debug, Clone, Copy, PartialEq, Eq, Structural)]
pub struct EncodeOverrides {
    pub quality_delta: i32,
    pub quality_target: Option<QualityTarget>,
    pub speed_tier: Option<SpeedTier>,
    pub lookahead_frames: Option<u32>,
    pub bframes: Option<u8>,
    pub multi_pass: Option<bool>,
    pub reference_frames: Option<u8>,
    pub bitrate: Option<u32>,
    pub buffer_ms: Option<u32>,
    pub aq_strength_tenths: Option<u8>,
    pub weighted_pred: Option<bool>,
    pub cu_depth: Option<u8>,
}

impl EncodeOverrides {
    /// Whether nothing is overridden.
    pub open spec fn is_empty(self) -> bool {
        &&& self.quality_delta == 0
        &&& self.quality_target is None
        &&& self.speed_tier is None
        &&& self.lookahead_frames is None
        &&& self.bframes is None
        &&& self.multi_pass is None
        &&& self.reference_frames is None
        &&& self.bitrate is None
        &&& self.buffer_ms is None
        &&& self.aq_strength_tenths is None
        &&& self.weighted_pred is None
        &&& self.cu_depth is None
    }
}

impl Default for EncodeOverrides {
    fn default() -> (o: Self)
        ensures
            o.is_empty(),
    {
        EncodeOverrides {
            quality_delta: 0,
            quality_target: None,
            speed_tier: None,
            lookahead_frames: None,
            bframes: None,
            multi_pass: None,
            reference_frames: None,
            bitrate: None,
            buffer_ms: None,
            aq_strength_tenths: None,
            weighted_pred: None,
            cu_depth: None,
        }
    }
}

/// The coded picture buffer, in milliseconds of its rate, that a rung with a
/// bitrate declares when it names none.
pub const H26X_SW_BITRATE_BUFFER_MS: u32 = 1000;

/// NVENC rate control a tuning row asks for.
#[derive(Debug, Clone, Copy, PartialEq, Eq, Structural)]
pub enum NvencRateControl {
    ConstQp,
    VbrTargetQuality,
}

/// One row of the NVENC tuning table.
#[derive(Debug, Clone, Copy, PartialEq, Eq)]
pub struct NvencParams {
    pub cq: u8,
    pub rc_mode: NvencRateControl,
    pub preset_guid: [u8; 16],
    pub tuning_info: u32,
    pub lookahead_depth: u16,
    pub aq_strength: u8,
    pub num_tile_columns: u32,
    pub num_tile_rows: u32,
}

/// AMF rate control a tuning row asks for.
#[derive(Debug, Clone, Copy, PartialEq, Eq, Structural)]
pub enum AmfRateControl {
    Cqp,
    QualityVbr,
}

impl AmfRateControl {
    /// The mode's name in diagnostics.
    pub open spec fn label(self) -> Seq<char> {
        match self {
            AmfRateControl::Cqp => "Cqp"@,
            AmfRateControl::QualityVbr => "QualityVbr"@,
        }
    }

    /// The mode's name in diagnostics.
    pub fn name(self) -> (s: &'static str)
        ensures
            s@ == self.label(),
    {
        match self {
            AmfRateControl::Cqp => "Cqp",
            AmfRateControl::QualityVbr => "QualityVbr",
        }
    }
}

/// AMF quality preset, before a codec numbers it.
#[derive(Debug, Clone, Copy, PartialEq, Eq, Structural)]
pub enum AmfQualityPreset {
    HighQuality,
    Quality,
    Balanced,
    Speed,
}

impl AmfQualityPreset {
    /// The preset's name in diagnostics.
    pub open spec fn label(self) -> Seq<char> {
        match self {
            AmfQualityPreset::HighQuality => "HighQuality"@,
            AmfQualityPreset::Quality => "Quality"@,
            AmfQualityPreset::Balanced => "Balanced"@,
            AmfQualityPreset::Speed => "Speed"@,
        }
    }

    /// The preset's name in diagnostics.
    pub fn name(self) -> (s: &'static str)
        ensures
            s@ == self.label(),
    {
        match self {
            AmfQualityPreset::HighQuality => "HighQuality",
            AmfQualityPreset::Quality => "Quality",
            AmfQualityPreset::Balanced => "Balanced",
            AmfQualityPreset::Speed => "Speed",
        }
    }
}

/// One row of the AMF AV1 tuning table.
#[derive(Debug, Clone, Copy, PartialEq, Eq, Structural)]
pub struct AmfAv1Params {
    pub rc_mode: AmfRateControl,
    pub quality_preset: AmfQualityPreset,
    pub q_index_intra: u8,
    pub q_index_inter: u8,
    pub qvbr_quality: u8,
    pub aq_mode: u8,
    pub tiles_per_frame: u32,
}

/// One row of the AMF H.264 / H.265 tuning table.
#[derive(Debug, Clone, Copy, PartialEq, Eq, Structural)]
pub struct AmfH26xParams {
    pub rc_mode: AmfRateControl,
    pub quality_preset: AmfQualityPreset,
    pub qp_i: u8,
    pub qp_p: u8,
    pub qvbr_quality: u8,
}

/// The tier a rung is coded at.
pub open spec fn effective_tier(tier: SpeedTier, o: EncodeOverrides) -> SpeedTier {
    match o.speed_tier {
        Some(t) => t,
        None => tier,
    }
}

/// The row for a target whose quantiser is `qp`: predicted pictures two steps
/// coarser, the QVBR level at the quantiser, the rung's delta added to all
/// three within their ranges. Only a visually lossless target is coded at a
/// constant quantiser.
pub open spec fn amf_h26x_row(
    qp: u8,
    target: QualityTarget,
    tier: SpeedTier,
    o: EncodeOverrides,
) -> AmfH26xParams {
    let d = o.quality_delta as int;
    AmfH26xParams {
        rc_mode: if target == QualityTarget::VisuallyLossless {
            AmfRateControl::Cqp
        } else {
            AmfRateControl::QualityVbr
        },
        quality_preset: match effective_tier(tier, o) {
            SpeedTier::Draft => AmfQualityPreset::Balanced,
            SpeedTier::Standard => AmfQualityPreset::Quality,
            SpeedTier::Archive => AmfQualityPreset::HighQuality,
        },
        qp_i: rate::clamp_int(qp + d, 0, 51) as u8,
        qp_p: rate::clamp_int(qp + 2 + d, 0, 51) as u8,
        qvbr_quality: rate::clamp_int(qp + d, 1, 51) as u8,
    }
}

fn clamped(v: i64, lo: u8, hi: u8) -> (r: u8)
    requires
        lo <= hi,
    ensures
        r == rate::clamp_int(v as int, lo as int, hi as int),
{
    if v < lo as i64 {
        lo
    } else if v > hi as i64 {
        hi
    } else {
        v as u8
    }
}

/// The AMF H.264 / H.265 row for a target whose quantiser is `qp`, with the
/// rung's overrides folded in.
pub fn amf_h26x_params_with(
    qp: u8,
    target: QualityTarget,
    tier: SpeedTier,
    o: &EncodeOverrides,
) -> (p: AmfH26xParams)
    ensures
        p == amf_h26x_row(qp, target, tier, *o),
{
    let d: i64 = o.quality_delta as i64;
    let q: i64 = qp as i64;
    let t: SpeedTier = match o.speed_tier {
        Some(t) => t,
        None => tier,
    };
    AmfH26xParams {
        rc_mode: match target {
            QualityTarget::VisuallyLossless => AmfRateControl::Cqp,
            _ => AmfRateControl::QualityVbr,
        },
        quality_preset: match t {
            SpeedTier::Draft => AmfQualityPreset::Balanced,
            SpeedTier::Standard => AmfQualityPreset::Quality,
            SpeedTier::Archive => AmfQualityPreset::HighQuality,
        },
        qp_i: clamped(q + d, 0, 51),
        qp_p: clamped(q + 2 + d, 0, 51),
        qvbr_quality: clamped(q + d, 1, 51),
    }
}

/// QSV rate control a tuning row asks for.
#[derive(Debug, Clone, Copy, PartialEq, Eq, Structural)]
pub enum QsvRateControl {
    Icq,
    Cqp,
}

/// One row of the QSV tuning table.
#[derive(Debug, Clone, Copy, PartialEq, Eq, Structural)]
pub struct QsvParams {
    pub rc_mode: QsvRateControl,
    pub icq_quality: u16,
    pub qp_i: u16,
    pub qp_p: u16,
    pub target_usage: u16,
    pub low_power: u16,
    pub num_tile_columns: u8,
    pub num_tile_rows: u8,
}

/// One row of the rav1e tuning table.
#[derive(Debug, Clone, Copy, PartialEq, Eq, Structural)]
pub struct Rav1eParams {
    pub quantizer: usize,
    pub speed_preset: u8,
    pub tile_rows: usize,
    pub tile_cols: usize,
}

/// One row of the software H.264 / H.265 tuning table, with the rung's
/// overrides already folded in.
#[derive(Debug, Clone, Copy, PartialEq, Eq, Structural)]
pub struct H26xSwParams {
    pub qp: u8,
    pub transform_8x8: bool,
    pub subparts: bool,
    pub sao: bool,
    pub aq_strength_tenths: u8,
    pub weighted_pred: bool,
    pub max_cu_depth: u32,
    pub bitrate: Option<u32>,
    pub buffer_ms: u32,
    pub lookahead: u32,
}

/// A row with a rung's overrides folded in. The row's quantiser is the one for
/// the rung's target and delta. A rate brings the default buffer unless the
/// rung names one.
pub open spec fn h26x_sw_row(row: H26xSwParams, o: EncodeOverrides) -> H26xSwParams {
    H26xSwParams {
        aq_strength_tenths: match o.aq_strength_tenths {
            Some(v) => v,
            None => row.aq_strength_tenths,
        },
        weighted_pred: match o.weighted_pred {
            Some(v) => v,
            None => row.weighted_pred,
        },
        max_cu_depth: match o.cu_depth {
            Some(v) => v as u32,
            None => row.max_cu_depth,
        },
        bitrate: o.bitrate,
        buffer_ms: match o.buffer_ms {
            Some(v) => v,
            None => H26X_SW_BITRATE_BUFFER_MS,
        },
        lookahead: match o.lookahead_frames {
            Some(v) => v,
            None => row.lookahead,
        },
        ..row
    }
}

/// A row with a rung's overrides folded in.
pub fn h26x_sw_params_with(row: &H26xSwParams, o: &EncodeOverrides) -> (p: H26xSwParams)
    ensures
        p == h26x_sw_row(*row, *o),
{
    let mut p: H26xSwParams = *row;
    if let Some(v) = o.aq_strength_tenths {
        p.aq_strength_tenths = v;
    }
    if let Some(v) = o.weighted_pred {
        p.weighted_pred = v;
    }
    if let Some(v) = o.cu_depth {
        p.max_cu_depth = v as u32;
    }
    p.bitrate = o.bitrate;
    p.buffer_ms = match o.buffer_ms {
        Some(v) => v,
        None => H26X_SW_BITRATE_BUFFER_MS,
    };
    if let Some(v) = o.lookahead_frames {
        p.lookahead = v;
    }
    p
}

/// The libaom `cq-level` that anchors each named target, the reference every
/// other encoder's scale is calibrated against. A VMAF score has no anchor of
/// its own.
pub open spec fn libaom_cq(target: QualityTarget) -> Option<u8> {
    match target {
        QualityTarget::VisuallyLossless => Some(20u8),
        QualityTarget::High => Some(27u8),
        QualityTarget::Standard => Some(32u8),
        QualityTarget::Low => Some(38u8),
        QualityTarget::Vmaf(_) => None,
    }
}

/// The libaom `cq-level` that anchors a named target.
pub fn libaom_cq_for_target(target: QualityTarget) -> (cq: Option<u8>)
    ensures
        cq == libaom_cq(target),
{
    match target {
        QualityTarget::VisuallyLossless => Some(20),
        QualityTarget::High => Some(27),
        QualityTarget::Standard => Some(32),
        QualityTarget::Low => Some(38),
        QualityTarget::Vmaf(_) => None,
    }
}

/// What a rung sets replaces the row's, one thing at a time; the row keeps the
/// rest. A rate is only ever the rung's, and a rung that names no buffer gets a
/// second of one.
pub proof fn overrides_replace_the_rows_choices(row: H26xSwParams, o: EncodeOverrides)
    ensures
        ({
            let p = h26x_sw_row(row, o);
            &&& p.qp == row.qp
            &&& p.transform_8x8 == row.transform_8x8 && p.subparts == row.subparts
            &&& p.sao == row.sao
            &&& o.aq_strength_tenths is Some ==> p.aq_strength_tenths == o.aq_strength_tenths->0
            &&& o.aq_strength_tenths is None ==> p.aq_strength_tenths == row.aq_strength_tenths
            &&& o.weighted_pred is Some ==> p.weighted_pred == o.weighted_pred->0
            &&& o.weighted_pred is None ==> p.weighted_pred == row.weighted_pred
            &&& o.cu_depth is Some ==> p.max_cu_depth == o.cu_depth->0
            &&& o.cu_depth is None ==> p.max_cu_depth == row.max_cu_depth
            &&& p.bitrate == o.bitrate
            &&& o.buffer_ms is Some ==> p.buffer_ms == o.buffer_ms->0
            &&& o.buffer_ms is None ==> p.buffer_ms == 1000
            &&& o.lookahead_frames is Some ==> p.lookahead == o.lookahead_frames->0
            &&& o.lookahead_frames is None ==> p.lookahead == row.lookahead
        }),
{
}

/// A target's quantiser is the one keyframes get, moved by the rung's delta as
/// far as the scale of 0 to 51 goes; predicted pictures get two more, and the
/// quality level is the keyframes' quantiser, never under one.
pub proof fn the_delta_moves_every_quantiser(
    qp: u8,
    target: QualityTarget,
    tier: SpeedTier,
    o: EncodeOverrides,
)
    ensures
        ({
            let p = amf_h26x_row(qp, target, tier, o);
            let moved = qp + o.quality_delta;
            &&& 0 <= moved <= 51 ==> p.qp_i == moved
            &&& moved < 0 ==> p.qp_i == 0
            &&& moved > 51 ==> p.qp_i == 51
            &&& -2 <= moved <= 49 ==> p.qp_p == moved + 2
            &&& moved < -2 ==> p.qp_p == 0
            &&& moved > 49 ==> p.qp_p == 51
            &&& 1 <= moved <= 51 ==> p.qvbr_quality == moved
            &&& moved < 1 ==> p.qvbr_quality == 1
            &&& moved > 51 ==> p.qvbr_quality == 51
            &&& p.rc_mode == AmfRateControl::Cqp <==> target == QualityTarget::VisuallyLossless
        }),
{
}

/// The rung's tier decides the preset where it names one, and the job's does
/// otherwise: balanced for drafts, the best for archives.
pub proof fn the_tier_decides_the_preset(
    qp: u8,
    target: QualityTarget,
    tier: SpeedTier,
    o: EncodeOverrides,
)
    ensures
        ({
            let p = amf_h26x_row(qp, target, tier, o);
            let t = if o.speed_tier is Some {
                o.speed_tier->0
            } else {
                tier
            };
            &&& t == SpeedTier::Draft <==> p.quality_preset == AmfQualityPreset::Balanced
            &&& t == SpeedTier::Standard <==> p.quality_preset == AmfQualityPreset::Quality
            &&& t == SpeedTier::Archive <==> p.quality_preset == AmfQualityPreset::HighQuality
        }),
{
}

/// A better target is anchored at a finer level of the reference encoder: seven,
/// five and six steps apart from 20 on. Only a VMAF score has none.
pub proof fn better_targets_have_finer_anchors(t: QualityTarget)
    ensures
        libaom_cq(QualityTarget::VisuallyLossless)->0 == 20,
        libaom_cq(QualityTarget::High)->0 == libaom_cq(QualityTarget::VisuallyLossless)->0 + 7,
        libaom_cq(QualityTarget::Standard)->0 == libaom_cq(QualityTarget::High)->0 + 5,
        libaom_cq(QualityTarget::Low)->0 == libaom_cq(QualityTarget::Standard)->0 + 6,
        libaom_cq(QualityTarget::VisuallyLossless)->0 < libaom_cq(QualityTarget::High)->0
            < libaom_cq(QualityTarget::Standard)->0 < libaom_cq(QualityTarget::Low)->0,
        libaom_cq(t) is None <==> t is Vmaf,
{
}

} // verus!
