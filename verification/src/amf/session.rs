//! Opening and closing an AMF session.
//!
//! A session is opened call by call. Each call's outcome decides the next one,
//! or ends the attempt; either way it says which of the objects acquired so
//! far have to be given back, and in which order.

use vstd::prelude::*;

use super::api::AMF_OK;
use super::error::AmfError;
use super::properties::{
    self, amf_surface_format_for, av1_properties, avc_properties, check_h26x_format,
    hevc_properties, Configured,
};
use crate::config::EncoderConfig;
use crate::frame::VideoCodec;
use crate::tuning::{AmfAv1Params, AmfH26xParams};

verus! {

/// The call that comes next.
#[derive(Debug, Clone, Copy, PartialEq, Eq, Structural)]
pub enum Stage {
    /// Start the runtime and get its factory.
    Factory,
    /// Create a context.
    Context,
    /// Make a graphics device on the adapter.
    Device,
    /// Bind the context to that device.
    Dx11,
    /// Ask the context for the interface that takes a Vulkan device.
    Context1,
    /// Bind that interface to the first device of the vendor.
    Vulkan,
    /// Create the codec's component.
    Component,
    /// Set the component's properties.
    Properties,
    /// Initialise the component.
    Init,
    /// The session is open.
    Ready,
}

/// An object to give back.
#[derive(Debug, Clone, Copy, PartialEq, Eq, Structural)]
pub enum Release {
    /// The second reference that an interface query handed out.
    Context1,
    TerminateEncoder,
    ReleaseEncoder,
    TerminateContext,
    ReleaseContext,
}

/// What follows a call.
#[derive(Debug)]
pub struct OpenStep {
    /// The next call, or why the attempt is over.
    pub next: Result<Stage, AmfError>,
    /// What to give back now, in order.
    pub release: Vec<Release>,
}

/// Whether a call succeeded: it answered so, and gave what it was asked for.
pub open spec fn succeeded(stage: Stage, status: i32, null: bool) -> bool {
    match stage {
        Stage::Device => !null,
        Stage::Dx11 | Stage::Vulkan | Stage::Properties | Stage::Init | Stage::Ready => status
            == AMF_OK,
        Stage::Factory | Stage::Context | Stage::Context1 | Stage::Component => status == AMF_OK
            && !null,
    }
}

/// The call after one that succeeded. A host with Direct3D hands the runtime a
/// device of its own; any other lets the runtime pick one.
pub open spec fn stage_after(stage: Stage, direct3d: bool) -> Stage {
    match stage {
        Stage::Factory => Stage::Context,
        Stage::Context => if direct3d {
            Stage::Device
        } else {
            Stage::Context1
        },
        Stage::Device => Stage::Dx11,
        Stage::Dx11 => Stage::Component,
        Stage::Context1 => Stage::Vulkan,
        Stage::Vulkan => Stage::Component,
        Stage::Component => Stage::Properties,
        Stage::Properties => Stage::Init,
        Stage::Init => Stage::Ready,
        Stage::Ready => Stage::Ready,
    }
}

/// Why the attempt is over when a call failed.
pub open spec fn failure_of(stage: Stage, c: EncoderConfig, adapter: u32, status: i32) -> AmfError {
    match stage {
        Stage::Factory => AmfError::Init { status },
        Stage::Context => AmfError::CreateContext { status },
        Stage::Device => AmfError::Device,
        Stage::Dx11 => AmfError::InitDx11 { adapter, status },
        Stage::Context1 => AmfError::QueryContext1 { status },
        Stage::Vulkan => AmfError::InitVulkan { status },
        Stage::Component => AmfError::CreateComponent { codec: c.codec, status },
        Stage::Properties => AmfError::Configure { codec: c.codec },
        Stage::Init | Stage::Ready => AmfError::InitComponent {
            codec: c.codec,
            format: c.pixel_format,
            surface_format: match properties::surface_format(c.pixel_format) {
                Some(f) => f,
                None => 0,
            },
            width: c.width,
            height: c.height,
            status,
        },
    }
}

/// What to give back after a call. The second reference on the context goes
/// back as soon as the device is bound, whatever came of it; after a failure,
/// the component goes back before the context it was created in.
pub open spec fn releases(stage: Stage, ok: bool) -> Seq<Release> {
    let context = seq![Release::TerminateContext, Release::ReleaseContext];
    if ok {
        if stage == Stage::Vulkan {
            seq![Release::Context1]
        } else {
            seq![]
        }
    } else {
        match stage {
            Stage::Factory | Stage::Context => seq![],
            Stage::Device | Stage::Dx11 | Stage::Context1 | Stage::Component => context,
            Stage::Vulkan => seq![Release::Context1] + context,
            Stage::Properties => seq![Release::ReleaseEncoder] + context,
            Stage::Init | Stage::Ready => seq![Release::TerminateEncoder, Release::ReleaseEncoder]
                + context,
        }
    }
}

/// Refuse, before any call is made, a format that no component takes; else
/// start with the runtime.
pub fn open(c: &EncoderConfig) -> (r: Result<Stage, AmfError>)
    ensures
        r == (match properties::surface_format(c.pixel_format) {
            None => Err::<Stage, AmfError>(
                AmfError::UnsupportedFormat { format: c.pixel_format },
            ),
            Some(_) => if c.codec != VideoCodec::Av1 && properties::h26x_format_verdict(
                c.codec,
                c.pixel_format,
            ) is Some {
                Err::<Stage, AmfError>(
                    properties::h26x_format_verdict(c.codec, c.pixel_format)->0,
                )
            } else {
                Ok::<Stage, AmfError>(Stage::Factory)
            },
        }),
{
    match amf_surface_format_for(c.pixel_format) {
        Ok(_) => {},
        Err(e) => {
            return Err(e);
        },
    }
    if c.codec != VideoCodec::Av1 {
        match check_h26x_format(c.codec, c.pixel_format) {
            Ok(()) => {},
            Err(e) => {
                return Err(e);
            },
        }
    }
    Ok(Stage::Factory)
}

/// Take the outcome of a call: its status, and whether what it was to hand out
/// is missing.
pub fn opened(
    c: &EncoderConfig,
    adapter: u32,
    direct3d: bool,
    stage: Stage,
    status: i32,
    null: bool,
) -> (s: OpenStep)
    requires
        stage != Stage::Ready,
    ensures
        s.release@ == releases(stage, succeeded(stage, status, null)),
        s.next == (if succeeded(stage, status, null) {
            Ok::<Stage, AmfError>(stage_after(stage, direct3d))
        } else {
            Err::<Stage, AmfError>(failure_of(stage, *c, adapter, status))
        }),
{
    let ok: bool = match stage {
        Stage::Device => !null,
        Stage::Dx11 | Stage::Vulkan | Stage::Properties | Stage::Init | Stage::Ready => status
            == AMF_OK,
        Stage::Factory | Stage::Context | Stage::Context1 | Stage::Component => status == AMF_OK
            && !null,
    };
    let mut release: Vec<Release> = Vec::new();
    match stage {
        Stage::Vulkan => {
            release.push(Release::Context1);
        },
        _ => {},
    }
    if ok {
        let next: Stage = match stage {
            Stage::Factory => Stage::Context,
            Stage::Context => if direct3d {
                Stage::Device
            } else {
                Stage::Context1
            },
            Stage::Device => Stage::Dx11,
            Stage::Dx11 => Stage::Component,
            Stage::Context1 => Stage::Vulkan,
            Stage::Vulkan => Stage::Component,
            Stage::Component => Stage::Properties,
            Stage::Properties => Stage::Init,
            Stage::Init => Stage::Ready,
            Stage::Ready => Stage::Ready,
        };
        assert(release@ =~= releases(stage, true));
        return OpenStep { next: Ok(next), release };
    }
    match stage {
        Stage::Properties => {
            release.push(Release::ReleaseEncoder);
        },
        Stage::Init | Stage::Ready => {
            release.push(Release::TerminateEncoder);
            release.push(Release::ReleaseEncoder);
        },
        _ => {},
    }
    match stage {
        Stage::Factory | Stage::Context => {},
        _ => {
            release.push(Release::TerminateContext);
            release.push(Release::ReleaseContext);
        },
    }
    assert(release@ =~= releases(stage, false));
    let surface_format: i32 = match amf_surface_format_for(c.pixel_format) {
        Ok(f) => f,
        Err(_) => 0,
    };
    let error: AmfError = match stage {
        Stage::Factory => AmfError::Init { status },
        Stage::Context => AmfError::CreateContext { status },
        Stage::Device => AmfError::Device,
        Stage::Dx11 => AmfError::InitDx11 { adapter, status },
        Stage::Context1 => AmfError::QueryContext1 { status },
        Stage::Vulkan => AmfError::InitVulkan { status },
        Stage::Component => AmfError::CreateComponent { codec: c.codec, status },
        Stage::Properties => AmfError::Configure { codec: c.codec },
        Stage::Init | Stage::Ready => AmfError::InitComponent {
            codec: c.codec,
            format: c.pixel_format,
            surface_format,
            width: c.width,
            height: c.height,
            status,
        },
    };
    OpenStep { next: Err(error), release }
}

/// What an open session gives back when it closes: the component, terminated
/// first, then the context.
pub fn close() -> (release: Vec<Release>)
    ensures
        release@ == seq![
            Release::TerminateEncoder,
            Release::ReleaseEncoder,
            Release::TerminateContext,
            Release::ReleaseContext,
        ],
{
    let mut release: Vec<Release> = Vec::new();
    release.push(Release::TerminateEncoder);
    release.push(Release::ReleaseEncoder);
    release.push(Release::TerminateContext);
    release.push(Release::ReleaseContext);
    assert(release@ =~= seq![
        Release::TerminateEncoder,
        Release::ReleaseEncoder,
        Release::TerminateContext,
        Release::ReleaseContext,
    ]);
    release
}

/// What is set on the session's component before it is initialised. A format
/// that the codec cannot take was refused before.
pub fn component_properties(c: &EncoderConfig, av1: &AmfAv1Params, h26x: &AmfH26xParams) -> (r:
    Result<Configured, AmfError>)
    ensures
        c.codec == VideoCodec::Av1 ==> (r matches Ok(done) && done.properties@
            == properties::av1_sequence(*c, *av1) && done.summary@ == properties::av1_summary(
            *c,
            *av1,
        )),
        c.codec != VideoCodec::Av1 ==> match properties::h26x_format_verdict(
            c.codec,
            c.pixel_format,
        ) {
            Some(e) => r matches Err(got) && got == e,
            None => r matches Ok(done) && exists|level: properties::Level|
                {
                    let q = properties::quant_of(*c, *h26x);
                    &&& c.codec == VideoCodec::H264 ==> #[trigger] properties::is_h264_level(
                        c.width,
                        c.height,
                        c.frame_rate,
                        level,
                    ) && done.properties@ == properties::avc_sequence(*c, q, level)
                        && done.summary@ == properties::avc_summary(*c, q, level)
                    &&& c.codec == VideoCodec::H265 ==> properties::is_h265_level(
                        c.width,
                        c.height,
                        c.frame_rate,
                        level,
                    ) && done.properties@ == properties::hevc_sequence(*c, q, level)
                        && done.summary@ == properties::hevc_summary(*c, q, level)
                },
        },
{
    match c.codec {
        VideoCodec::Av1 => Ok(av1_properties(c, av1)),
        VideoCodec::H264 => avc_properties(c, h26x),
        VideoCodec::H265 => {
            let r: Result<Configured, AmfError> = hevc_properties(c, h26x);
            proof {
                if properties::h26x_format_verdict(c.codec, c.pixel_format) is None {
                    let done = r->Ok_0;
                    let level = choose|level: properties::Level| #[trigger]
                        properties::is_h265_level(c.width, c.height, c.frame_rate, level)
                            && done.properties@ == properties::hevc_sequence(
                            *c,
                            properties::quant_of(*c, *h26x),
                            level,
                        ) && done.summary@ == properties::hevc_summary(
                            *c,
                            properties::quant_of(*c, *h26x),
                            level,
                        );
                    let _ = properties::is_h264_level(c.width, c.height, c.frame_rate, level);
                }
            }
            r
        },
    }
}

/// Whether a context is held while a call is made.
pub open spec fn holds_context(stage: Stage) -> bool {
    stage != Stage::Factory && stage != Stage::Context
}

/// Whether a component is held while a call is made.
pub open spec fn holds_encoder(stage: Stage) -> bool {
    stage == Stage::Properties || stage == Stage::Init || stage == Stage::Ready
}

/// A failed attempt leaks nothing and gives nothing back twice: the context
/// and the component are released exactly where they are held, the component
/// first.
pub proof fn a_failed_attempt_leaks_nothing(stage: Stage)
    ensures
        releases(stage, false).contains(Release::ReleaseContext) <==> holds_context(stage),
        releases(stage, false).contains(Release::ReleaseEncoder) <==> holds_encoder(stage),
        holds_context(stage) ==> releases(stage, false).last() == Release::ReleaseContext,
        forall|i: int, j: int|
            0 <= i < j < releases(stage, false).len() ==> #[trigger] releases(stage, false)[i]
                != #[trigger] releases(stage, false)[j],
{
    let r = releases(stage, false);
    if holds_context(stage) {
        assert(r[r.len() - 1] == Release::ReleaseContext);
    }
    if stage == Stage::Properties {
        assert(r[0] == Release::ReleaseEncoder);
    }
    if stage == Stage::Init || stage == Stage::Ready {
        assert(r[1] == Release::ReleaseEncoder);
    }
}

/// Steps left until a session is open.
pub open spec fn steps_left(stage: Stage) -> int {
    match stage {
        Stage::Factory => 7,
        Stage::Context => 6,
        Stage::Device => 5,
        Stage::Context1 => 5,
        Stage::Dx11 => 4,
        Stage::Vulkan => 4,
        Stage::Component => 3,
        Stage::Properties => 2,
        Stage::Init => 1,
        Stage::Ready => 0,
    }
}

/// Opening ends: every call that succeeds leaves one fewer to make.
pub proof fn opening_ends(stage: Stage, direct3d: bool)
    requires
        stage != Stage::Ready,
    ensures
        steps_left(stage_after(stage, direct3d)) == steps_left(stage) - 1,
{
}

/// A call succeeded where the runtime says so and what it was to hand out is
/// there; making the graphics device has no status, and binding, configuring
/// and initialising hand nothing out.
pub proof fn which_calls_succeeded(stage: Stage, status: i32, null: bool)
    ensures
        stage == Stage::Device ==> (succeeded(stage, status, null) <==> !null),
        stage == Stage::Factory || stage == Stage::Context || stage == Stage::Context1 || stage
            == Stage::Component ==> (succeeded(stage, status, null) <==> status == 0 && !null),
        stage == Stage::Dx11 || stage == Stage::Vulkan || stage == Stage::Properties || stage
            == Stage::Init ==> (succeeded(stage, status, null) <==> status == 0),
{
}

/// A host with Direct3D binds the context to a device of its own and asks for no
/// Vulkan device; any other asks for the interface first and then binds a
/// Vulkan device. Either way the component follows.
pub proof fn one_device_is_bound(direct3d: bool)
    ensures
        stage_after(Stage::Factory, direct3d) == Stage::Context,
        direct3d ==> stage_after(Stage::Context, direct3d) == Stage::Device,
        !direct3d ==> stage_after(Stage::Context, direct3d) == Stage::Context1,
        stage_after(stage_after(Stage::Device, direct3d), direct3d) == Stage::Component,
        stage_after(Stage::Device, direct3d) == Stage::Dx11,
        stage_after(stage_after(Stage::Context1, direct3d), direct3d) == Stage::Component,
        stage_after(Stage::Context1, direct3d) == Stage::Vulkan,
{
}

/// A failed call is reported by name, with the runtime's status wherever the
/// call has one, and with the adapter, codec, format and size it was made for.
pub proof fn a_failure_names_its_call(
    stage: Stage,
    c: EncoderConfig,
    adapter: u32,
    status: i32,
)
    requires
        stage != Stage::Ready,
    ensures
        match failure_of(stage, c, adapter, status) {
            AmfError::Init { status: s } => stage == Stage::Factory && s == status,
            AmfError::CreateContext { status: s } => stage == Stage::Context && s == status,
            AmfError::Device => stage == Stage::Device,
            AmfError::InitDx11 { adapter: a, status: s } => stage == Stage::Dx11 && a == adapter
                && s == status,
            AmfError::QueryContext1 { status: s } => stage == Stage::Context1 && s == status,
            AmfError::InitVulkan { status: s } => stage == Stage::Vulkan && s == status,
            AmfError::CreateComponent { codec, status: s } => stage == Stage::Component && codec
                == c.codec && s == status,
            AmfError::Configure { codec } => stage == Stage::Properties && codec == c.codec,
            AmfError::InitComponent { codec, format, surface_format, width, height, status: s } => {
                &&& stage == Stage::Init
                &&& codec == c.codec && format == c.pixel_format
                &&& width == c.width && height == c.height && s == status
                &&& properties::surface_format(format) is Some ==> surface_format
                    == properties::surface_format(format)->0
            },
            _ => false,
        },
{
}

/// The second reference on the context goes back after the Vulkan device was
/// bound, whether or not that succeeded, and at no other time; a call that
/// succeeded gives nothing else back. Objects are terminated right before they
/// are released, and a component only once it was initialised.
pub proof fn references_go_back_in_order(stage: Stage, ok: bool)
    ensures
        releases(stage, ok).contains(Release::Context1) <==> stage == Stage::Vulkan,
        ok && stage != Stage::Vulkan ==> releases(stage, ok).len() == 0,
        ok && stage == Stage::Vulkan ==> releases(stage, ok).len() == 1,
        !ok && holds_context(stage) ==> releases(stage, ok).len() >= 2 && releases(stage, ok)[releases(
            stage,
            ok,
        ).len() - 2] == Release::TerminateContext,
        !ok && stage == Stage::Init ==> releases(stage, ok)[0] == Release::TerminateEncoder
            && releases(stage, ok)[1] == Release::ReleaseEncoder,
        !ok && stage == Stage::Properties ==> releases(stage, ok)[0] == Release::ReleaseEncoder
            && releases(stage, ok).len() == 3,
        !ok && (stage == Stage::Factory || stage == Stage::Context) ==> releases(stage, ok).len()
            == 0,
{
    let r = releases(stage, ok);
    if stage == Stage::Vulkan {
        assert(r[0] == Release::Context1);
    }
}

} // verus!
