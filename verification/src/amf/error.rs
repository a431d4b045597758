//! What can go wrong with an AMF session, and how it is said.

use vstd::prelude::*;

use super::api::{self, result_name};
use super::properties::{self, component_id};
use crate::frame::{PixelFormat, VideoCodec};
use crate::text::{self, push_dec, push_dec_int};

verus! {

/// Why a session cannot be opened, or coding failed.
#[derive(Debug, Clone, Copy, PartialEq, Eq, Structural)]
#[allow(inconsistent_fields)]
pub enum AmfError {
    /// The input format has no surface format.
    UnsupportedFormat { format: PixelFormat },
    /// H.264 codes 8-bit pictures only.
    AvcFormat { format: PixelFormat },
    /// H.265 codes 8-bit and ten-bit 4:2:0 pictures only.
    HevcFormat { format: PixelFormat },
    /// The codec is neither H.264 nor H.265.
    NotH26x,
    /// The runtime could not be started.
    Init { status: i32 },
    CreateContext { status: i32 },
    /// No graphics device could be made on the adapter.
    Device,
    InitDx11 { adapter: u32, status: i32 },
    QueryContext1 { status: i32 },
    InitVulkan { status: i32 },
    CreateComponent { codec: VideoCodec, status: i32 },
    /// A property was refused.
    Configure { codec: VideoCodec },
    InitComponent {
        codec: VideoCodec,
        format: PixelFormat,
        surface_format: i32,
        width: u32,
        height: u32,
        status: i32,
    },
    /// The picture is not in the session's format.
    FormatMismatch { configured: PixelFormat, got: PixelFormat },
    AllocSurface { width: u32, height: u32, surface_format: i32, status: i32 },
    /// A surface without its planes.
    MissingPlane { surface_format: i32 },
    /// The picture's buffer is shorter than its size calls for.
    TooSmall { width: u32, height: u32, ten_bit: bool, need: u128, have: usize },
    /// A plane that is not mapped into memory.
    NullPlane { chroma: bool, ten_bit: bool },
    /// The input queue stayed full.
    SubmitStuck { status: i32, attempts: u32 },
    SubmitFailed { status: i32 },
    QueryOutput { status: i32 },
    QueryBuffer { status: i32 },
    Drain { status: i32 },
}

/// A status in words: its number and its name.
pub open spec fn status_text(rc: i32) -> Seq<char> {
    text::dec_int(rc as int) + " ("@ + api::status_label(rc) + ")"@
}

fn push_status(out: &mut String, rc: i32)
    ensures
        final(out)@ == old(out)@ + status_text(rc),
{
    push_dec_int(out, rc as i64);
    out.append(" (");
    out.append(result_name(rc));
    out.append(")");
    assert(out@ =~= old(out)@ + status_text(rc));
}

/// A size in words.
pub open spec fn size_text(w: u32, h: u32) -> Seq<char> {
    text::dec(w as nat) + "x"@ + text::dec(h as nat)
}

fn push_size(out: &mut String, w: u32, h: u32)
    ensures
        final(out)@ == old(out)@ + size_text(w, h),
{
    push_dec(out, w as u128);
    out.append("x");
    push_dec(out, h as u128);
    assert(out@ =~= old(out)@ + size_text(w, h));
}

impl AmfError {
    /// The error in words.
    pub open spec fn text(self) -> Seq<char> {
        match self {
            AmfError::UnsupportedFormat { format } =>
                "AMF expects Yuv420p or Yuv420p10le, got "@ + format.label(),
            AmfError::AvcFormat { format } =>
                "AMF H.264 (VCE_AVC) encodes 8-bit 4:2:0 only, got "@ + format.label()
                + "; H.264 is 8-bit on every backend — for 10-bit output use H.265 (Main 10) or AV1"@,
            AmfError::HevcFormat { format } =>
                "AMF H.265 encodes Yuv420p (Main) or Yuv420p10le (Main 10), got "@ + format.label(),
            AmfError::NotH26x => "not an H.26x codec"@,
            AmfError::Init { status } => "AMFInit failed: "@ + status_text(status),
            AmfError::CreateContext { status } => "AMFFactory::CreateContext failed: "@
                + status_text(status),
            AmfError::Device => "creating a D3D11 device on the AMD adapter for AMF"@,
            AmfError::InitDx11 { adapter, status } => "AMFContext::InitDX11 on AMD adapter "@
                + text::dec(adapter as nat) + " failed: "@ + status_text(status)
                + " — this GPU is not AMF-capable"@,
            AmfError::QueryContext1 { status } =>
                "AMFContext::QueryInterface(AMFContext1) failed: "@ + status_text(status)
                + " — runtime older than the Vulkan-capable 1.4.x?"@,
            AmfError::InitVulkan { status } => "AMFContext1::InitVulkan failed: "@ + status_text(
                status,
            ) + " — no AMF-capable AMD GPU"@,
            AmfError::CreateComponent { codec, status } => "AMFFactory::CreateComponent("@
                + properties::component_label(codec) + ") failed: "@ + status_text(status)
                + " — this GPU has no "@ + codec.label()
                + " encode block the AMF runtime drives"@,
            AmfError::Configure { codec } => "configuring the AMF "@ + codec.label() + " encoder"@,
            AmfError::InitComponent { codec, format, surface_format, width, height, status } =>
                "AMFComponent::Init("@ + codec.label() + ", fmt="@ + text::dec_int(
                surface_format as int,
            ) + ", "@ + size_text(width, height) + ") failed: "@ + status_text(status)
                + " (surface format dispatched for "@ + format.label() + ")"@,
            AmfError::FormatMismatch { configured, got } => "AMF session was initialized with "@
                + configured.label() + " input but frame is "@ + got.label(),
            AmfError::AllocSurface { width, height, surface_format, status } =>
                "AMFContext::AllocSurface("@ + size_text(width, height) + " fmt="@ + text::dec_int(
                surface_format as int,
            ) + ") failed: "@ + status_text(status),
            AmfError::MissingPlane { surface_format } => "AMF surface (fmt="@ + text::dec_int(
                surface_format as int,
            ) + ") missing Y or UV plane"@,
            AmfError::TooSmall { width, height, ten_bit, need, have } =>
                "frame data too small for "@ + size_text(width, height) + (if ten_bit {
                " Yuv420p10le"@
            } else {
                " YUV420p"@
            }) + ": need "@ + text::dec(need as nat) + " bytes, got "@ + text::dec(have as nat),
            AmfError::NullPlane { chroma, ten_bit } => (if ten_bit {
                "AMF P010 "@
            } else {
                "AMF "@
            }) + (if chroma {
                "UV"@
            } else {
                "Y"@
            }) + " plane native pointer is null"@ + (if ten_bit {
                ""@
            } else {
                " — surface not host-mapped?"@
            }),
            AmfError::SubmitStuck { status, attempts } => "AMF SubmitInput stuck at "@
                + status_text(status) + " after "@ + text::dec(attempts as nat) + " attempts"@,
            AmfError::SubmitFailed { status } => "AMF SubmitInput failed: "@ + status_text(status),
            AmfError::QueryOutput { status } => "AMF QueryOutput failed: "@ + status_text(status),
            AmfError::QueryBuffer { status } => "AMFData::QueryInterface(AMFBuffer) failed: "@
                + status_text(status),
            AmfError::Drain { status } => "AMF Drain failed: "@ + status_text(status),
        }
    }

    /// The error in words.
    pub fn message(&self) -> (s: String)
        ensures
            s@ == self.text(),
    {
        let mut out: String = String::new();
        match self {
            AmfError::UnsupportedFormat { format } => {
                out.append("AMF expects Yuv420p or Yuv420p10le, got ");
                out.append(format.name());
            },
            AmfError::AvcFormat { format } => {
                out.append("AMF H.264 (VCE_AVC) encodes 8-bit 4:2:0 only, got ");
                out.append(format.name());
                out.append(
                    "; H.264 is 8-bit on every backend — for 10-bit output use H.265 (Main 10) or AV1",
                );
            },
            AmfError::HevcFormat { format } => {
                out.append("AMF H.265 encodes Yuv420p (Main) or Yuv420p10le (Main 10), got ");
                out.append(format.name());
            },
            AmfError::NotH26x => {
                out.append("not an H.26x codec");
            },
            AmfError::Init { status } => {
                out.append("AMFInit failed: ");
                push_status(&mut out, *status);
            },
            AmfError::CreateContext { status } => {
                out.append("AMFFactory::CreateContext failed: ");
                push_status(&mut out, *status);
            },
            AmfError::Device => {
                out.append("creating a D3D11 device on the AMD adapter for AMF");
            },
            AmfError::InitDx11 { adapter, status } => {
                out.append("AMFContext::InitDX11 on AMD adapter ");
                push_dec(&mut out, *adapter as u128);
                out.append(" failed: ");
                push_status(&mut out, *status);
                out.append(" — this GPU is not AMF-capable");
            },
            AmfError::QueryContext1 { status } => {
                out.append("AMFContext::QueryInterface(AMFContext1) failed: ");
                push_status(&mut out, *status);
                out.append(" — runtime older than the Vulkan-capable 1.4.x?");
            },
            AmfError::InitVulkan { status } => {
                out.append("AMFContext1::InitVulkan failed: ");
                push_status(&mut out, *status);
                out.append(" — no AMF-capable AMD GPU");
            },
            AmfError::CreateComponent { codec, status } => {
                out.append("AMFFactory::CreateComponent(");
                out.append(component_id(*codec));
                out.append(") failed: ");
                push_status(&mut out, *status);
                out.append(" — this GPU has no ");
                out.append(codec.name());
                out.append(" encode block the AMF runtime drives");
            },
            AmfError::Configure { codec } => {
                out.append("configuring the AMF ");
                out.append(codec.name());
                out.append(" encoder");
            },
            AmfError::InitComponent { codec, format, surface_format, width, height, status } => {
                out.append("AMFComponent::Init(");
                out.append(codec.name());
                out.append(", fmt=");
                push_dec_int(&mut out, *surface_format as i64);
                out.append(", ");
                push_size(&mut out, *width, *height);
                out.append(") failed: ");
                push_status(&mut out, *status);
                out.append(" (surface format dispatched for ");
                out.append(format.name());
                out.append(")");
            },
            AmfError::FormatMismatch { configured, got } => {
                out.append("AMF session was initialized with ");
                out.append(configured.name());
                out.append(" input but frame is ");
                out.append(got.name());
            },
            AmfError::AllocSurface { width, height, surface_format, status } => {
                out.append("AMFContext::AllocSurface(");
                push_size(&mut out, *width, *height);
                out.append(" fmt=");
                push_dec_int(&mut out, *surface_format as i64);
                out.append(") failed: ");
                push_status(&mut out, *status);
            },
            AmfError::MissingPlane { surface_format } => {
                out.append("AMF surface (fmt=");
                push_dec_int(&mut out, *surface_format as i64);
                out.append(") missing Y or UV plane");
            },
            AmfError::TooSmall { width, height, ten_bit, need, have } => {
                out.append("frame data too small for ");
                push_size(&mut out, *width, *height);
                out.append(
                    if *ten_bit {
                        " Yuv420p10le"
                    } else {
                        " YUV420p"
                    },
                );
                out.append(": need ");
                push_dec(&mut out, *need);
                out.append(" bytes, got ");
                push_dec(&mut out, *have as u128);
            },
            AmfError::NullPlane { chroma, ten_bit } => {
                out.append(
                    if *ten_bit {
                        "AMF P010 "
                    } else {
                        "AMF "
                    },
                );
                out.append(
                    if *chroma {
                        "UV"
                    } else {
                        "Y"
                    },
                );
                out.append(" plane native pointer is null");
                out.append(
                    if *ten_bit {
                        ""
                    } else {
                        " — surface not host-mapped?"
                    },
                );
            },
            AmfError::SubmitStuck { status, attempts } => {
                out.append("AMF SubmitInput stuck at ");
                push_status(&mut out, *status);
                out.append(" after ");
                push_dec(&mut out, *attempts as u128);
                out.append(" attempts");
            },
            AmfError::SubmitFailed { status } => {
                out.append("AMF SubmitInput failed: ");
                push_status(&mut out, *status);
            },
            AmfError::QueryOutput { status } => {
                out.append("AMF QueryOutput failed: ");
                push_status(&mut out, *status);
            },
            AmfError::QueryBuffer { status } => {
                out.append("AMFData::QueryInterface(AMFBuffer) failed: ");
                push_status(&mut out, *status);
            },
            AmfError::Drain { status } => {
                out.append("AMF Drain failed: ");
                push_status(&mut out, *status);
            },
        }
        assert(out@ =~= self.text());
        out
    }
}

} // verus!
