//! Encoder configuration.

use vstd::prelude::*;

use crate::frame::{
    ColorMetadata, ContentLightLevel, MasteringDisplay, PixelFormat, TransferFn, VideoCodec,
};
use crate::gpu::GpuVendor;
use crate::rate::FrameRate;
use crate::tuning::{EncodeOverrides, QualityTarget, SpeedTier};

verus! {

/// Sentinel meaning "derive from `target` or `tier`".
pub const AUTO_FROM_TARGET: u8 = 255;

/// Encoder configuration.
#[derive(Debug, Clone, Copy)]
pub struct EncoderConfig {
    pub width: u32,
    pub height: u32,
    pub frame_rate: FrameRate,
    /// A quantiser on the codec's own scale, or [`AUTO_FROM_TARGET`].
    pub quality: u8,
    /// A speed preset, or [`AUTO_FROM_TARGET`].
    pub speed_preset: u8,
    /// Frames between forced keyframes.
    pub keyframe_interval: u32,
    pub target: QualityTarget,
    pub tier: SpeedTier,
    /// Worker budget; zero leaves the choice to the encoder.
    pub threads: usize,
    /// The one input format a session accepts.
    pub pixel_format: PixelFormat,
    pub color_metadata: ColorMetadata,
    /// The device index to run on, if the caller names one.
    pub gpu_index: Option<u32>,
    /// The vendor whose backend must be used, if the caller names one.
    pub gpu_vendor: Option<GpuVendor>,
    /// Code at a constant quantiser.
    pub constant_qp: bool,
    pub codec: VideoCodec,
    pub overrides: EncodeOverrides,
}

impl EncoderConfig {
    /// The quantiser the caller named, if any.
    pub open spec fn crf(self) -> Option<u8> {
        if self.quality == AUTO_FROM_TARGET {
            None
        } else {
            Some(self.quality)
        }
    }
}

impl Default for EncoderConfig {
    /// 1080p30 AV1, 8-bit SDR, every choice left to the tuning table, no
    /// device named.
    fn default() -> (c: Self)
        ensures
            c.width == 1920,
            c.height == 1080,
            c.frame_rate == (FrameRate { nanos: 30_000_000_000 }),
            c.quality == AUTO_FROM_TARGET,
            c.speed_preset == AUTO_FROM_TARGET,
            c.keyframe_interval == 240,
            c.target == QualityTarget::Standard,
            c.tier == SpeedTier::Standard,
            c.threads == 0,
            c.pixel_format == PixelFormat::Yuv420p,
            c.color_metadata.transfer == TransferFn::Bt709,
            c.color_metadata.matrix_coefficients == 1,
            c.color_metadata.colour_primaries == 1,
            !c.color_metadata.full_range,
            c.color_metadata.mastering_display == None::<MasteringDisplay>,
            c.color_metadata.content_light_level == None::<ContentLightLevel>,
            c.gpu_index == None::<u32>,
            c.gpu_vendor == None::<GpuVendor>,
            !c.constant_qp,
            c.codec == VideoCodec::Av1,
            c.overrides.is_empty(),
    {
        EncoderConfig {
            width: 1920,
            height: 1080,
            frame_rate: FrameRate { nanos: 30_000_000_000 },
            quality: AUTO_FROM_TARGET,
            speed_preset: AUTO_FROM_TARGET,
            keyframe_interval: 240,
            target: QualityTarget::Standard,
            tier: SpeedTier::Standard,
            threads: 0,
            pixel_format: PixelFormat::Yuv420p,
            color_metadata: ColorMetadata::default(),
            gpu_index: None,
            gpu_vendor: None,
            constant_qp: false,
            codec: VideoCodec::Av1,
            overrides: EncodeOverrides::default(),
        }
    }
}

} // verus!
