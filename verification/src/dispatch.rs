//! Choosing an encoder for a job.
//!
//! Constructing an encoder talks to drivers, so the choice is made in turns:
//! [`select_encoder`] names the first encoder to construct, the host tries it,
//! and after a failure [`Selection::after_failure`] names the next one or says
//! why there is none. Whatever the drivers answer, the order of the attempts
//! and the reason for giving up are decided here.

use std::collections::HashMap;
use vstd::prelude::*;

use crate::config::EncoderConfig;
use crate::gpu::{self, pick_position, GpuDevice, GpuVendor};
use crate::rate::FrameRate;
use crate::text::{self, push_dec};

verus! {

/// Which hardware encoder a caller can ask for by name.
#[derive(Debug, Clone, Copy, PartialEq, Eq, Structural)]
pub enum EncoderBackend {
    Nvenc,
    Amf,
    Qsv,
}

/// What output formats an encoder path can produce.
#[derive(Debug, Clone, Copy, PartialEq, Eq, Structural)]
pub struct OutputCaps {
    /// Highest luma bit depth the path can encode.
    pub max_bit_depth: u8,
    /// Whether it can produce HDR output.
    pub hdr: bool,
}

/// The encoder paths compiled into a build.
#[derive(Debug, Clone, Copy, PartialEq, Eq, Structural)]
pub struct BuildFeatures {
    pub nvidia: bool,
    pub amd: bool,
    pub qsv: bool,
    pub ffmpeg: bool,
}

impl EncoderBackend {
    /// The vendor whose devices a backend drives.
    pub open spec fn vendor_spec(self) -> GpuVendor {
        match self {
            EncoderBackend::Nvenc => GpuVendor::Nvidia,
            EncoderBackend::Amf => GpuVendor::Amd,
            EncoderBackend::Qsv => GpuVendor::Intel,
        }
    }

    /// The vendor whose devices a backend drives.
    pub fn vendor(self) -> (v: GpuVendor)
        ensures
            v == self.vendor_spec(),
    {
        match self {
            EncoderBackend::Nvenc => GpuVendor::Nvidia,
            EncoderBackend::Amf => GpuVendor::Amd,
            EncoderBackend::Qsv => GpuVendor::Intel,
        }
    }

    /// The backend that drives a vendor's devices.
    pub open spec fn of_vendor_spec(v: GpuVendor) -> EncoderBackend {
        match v {
            GpuVendor::Nvidia => EncoderBackend::Nvenc,
            GpuVendor::Amd => EncoderBackend::Amf,
            GpuVendor::Intel => EncoderBackend::Qsv,
        }
    }

    /// The backend that drives a vendor's devices.
    pub fn of_vendor(v: GpuVendor) -> (b: EncoderBackend)
        ensures
            b == Self::of_vendor_spec(v),
    {
        match v {
            GpuVendor::Nvidia => EncoderBackend::Nvenc,
            GpuVendor::Amd => EncoderBackend::Amf,
            GpuVendor::Intel => EncoderBackend::Qsv,
        }
    }
}

/// Every vendor has exactly one backend, and every backend one vendor.
pub proof fn vendors_and_backends_pair_up(v: GpuVendor, b: EncoderBackend)
    ensures
        EncoderBackend::of_vendor_spec(v).vendor_spec() == v,
        EncoderBackend::of_vendor_spec(b.vendor_spec()) == b,
{
}

/// Output capabilities of a hardware backend: all three code ten bits, and so
/// HDR.
pub fn backend_output_caps(backend: EncoderBackend) -> (caps: OutputCaps)
    ensures
        caps == (OutputCaps { max_bit_depth: 10, hdr: true }),
{
    match backend {
        EncoderBackend::Nvenc | EncoderBackend::Amf | EncoderBackend::Qsv => OutputCaps {
            max_bit_depth: 10,
            hdr: true,
        },
    }
}

/// Whether a build holds any encoder path at all.
pub open spec fn encodes_at_all(f: BuildFeatures) -> bool {
    f.nvidia || f.amd || f.qsv || f.ffmpeg
}

/// Output capabilities of a build, over every encoder path in it.
pub fn build_output_caps(features: BuildFeatures) -> (caps: OutputCaps)
    ensures
        encodes_at_all(features) ==> caps == (OutputCaps { max_bit_depth: 10, hdr: true }),
        !encodes_at_all(features) ==> caps == (OutputCaps { max_bit_depth: 8, hdr: false }),
{
    if features.ffmpeg || features.nvidia || features.amd || features.qsv {
        OutputCaps { max_bit_depth: 10, hdr: true }
    } else {
        OutputCaps { max_bit_depth: 8, hdr: false }
    }
}

/// `names` followed by `name` where `built`.
pub open spec fn with_name(names: Seq<Seq<char>>, built: bool, name: Seq<char>) -> Seq<Seq<char>> {
    if built {
        names.push(name)
    } else {
        names
    }
}

/// The names of the encoder paths in a build, most preferred first.
pub open spec fn backend_names(f: BuildFeatures) -> Seq<Seq<char>> {
    with_name(
        with_name(
            with_name(with_name(Seq::empty(), f.nvidia, "nvenc"@), f.amd, "amf"@),
            f.qsv,
            "qsv"@,
        ),
        f.ffmpeg,
        "ffmpeg"@,
    )
}

/// The encoder paths in a build, most preferred first.
pub fn encode_backends(features: BuildFeatures) -> (names: Vec<&'static str>)
    ensures
        names@.map_values(|s: &'static str| s@) == backend_names(features),
{
    let ghost view = |s: &'static str| s@;
    let mut v: Vec<&'static str> = Vec::new();
    assert(v@.map_values(view) =~= Seq::empty());
    if features.nvidia {
        v.push("nvenc");
        assert(v@.map_values(view) =~= seq!["nvenc"@]);
    }
    let ghost a = v@.map_values(view);
    if features.amd {
        v.push("amf");
        assert(v@.map_values(view) =~= a.push("amf"@));
    }
    let ghost b = v@.map_values(view);
    if features.qsv {
        v.push("qsv");
        assert(v@.map_values(view) =~= b.push("qsv"@));
    }
    let ghost c = v@.map_values(view);
    if features.ffmpeg {
        v.push("ffmpeg");
        assert(v@.map_values(view) =~= c.push("ffmpeg"@));
    }
    v
}

/// Whether a build holds a hardware backend.
pub open spec fn is_compiled(f: BuildFeatures, backend: EncoderBackend) -> bool {
    match backend {
        EncoderBackend::Nvenc => f.nvidia,
        EncoderBackend::Amf => f.amd,
        EncoderBackend::Qsv => f.qsv,
    }
}

/// Why a backend that is not in the build cannot be constructed.
pub open spec fn not_compiled_text(backend: EncoderBackend) -> Seq<char> {
    match backend {
        EncoderBackend::Nvenc =>
            "NVENC encode support was not compiled in; rebuild with the `nvidia` feature (shiguredo_nvcodec) to use NVIDIA hardware encode"@,
        EncoderBackend::Amf =>
            "AMF encode support was not compiled in; rebuild with the `amd` feature (shiguredo_amf) to use AMD hardware encode"@,
        EncoderBackend::Qsv =>
            "QSV (Intel oneVPL) encode support was not compiled in; rebuild with the `qsv` feature enabled to use Intel hardware encode"@,
    }
}

/// Whether a backend can be constructed in a build; the refusal otherwise.
pub fn require_compiled(features: BuildFeatures, backend: EncoderBackend) -> (r: Result<
    (),
    &'static str,
>)
    ensures
        r is Ok <==> is_compiled(features, backend),
        r matches Err(why) ==> why@ == not_compiled_text(backend),
{
    match backend {
        EncoderBackend::Nvenc => if features.nvidia {
            Ok(())
        } else {
            Err(
                "NVENC encode support was not compiled in; rebuild with the `nvidia` feature (shiguredo_nvcodec) to use NVIDIA hardware encode",
            )
        },
        EncoderBackend::Amf => if features.amd {
            Ok(())
        } else {
            Err(
                "AMF encode support was not compiled in; rebuild with the `amd` feature (shiguredo_amf) to use AMD hardware encode",
            )
        },
        EncoderBackend::Qsv => if features.qsv {
            Ok(())
        } else {
            Err(
                "QSV (Intel oneVPL) encode support was not compiled in; rebuild with the `qsv` feature enabled to use Intel hardware encode",
            )
        },
    }
}

/// The devices that a libavcodec encoder may run on.
#[derive(Debug, Clone, Copy, PartialEq, Eq, Structural)]
pub enum Reach {
    /// Any of them: no device was requested.
    Any,
    /// The requested one alone, at this position of the host's list.
    Device(usize),
    /// None of them: the requested one is not in the list. Encoders that need
    /// no device are left.
    NoDevice,
}

/// One attempt of the host to construct an encoder.
#[derive(Debug, Clone, Copy, PartialEq, Eq, Structural)]
pub enum Attempt {
    /// The libavcodec encoder, which probes its own list, on these devices.
    Ffmpeg { reach: Reach },
    /// A hardware backend on the device at this position of the host's list.
    Hardware { backend: EncoderBackend, device: usize },
}

/// What a failed attempt leads to.
#[derive(Debug, Clone, Copy, PartialEq, Eq, Structural)]
pub enum Fallback {
    /// The caller asked for exactly this backend: its error is the answer.
    Surface,
    /// The caller pinned this vendor: its failure is final, and says so.
    Pinned(GpuVendor),
    /// Native backends come next, from the start.
    Native,
    /// The preference chain goes on after this vendor.
    ChainAfter(GpuVendor),
}

/// Why no encoder was chosen.
#[derive(Debug)]
pub enum SelectError {
    /// The backend asked for has no device.
    BackendNoDevice { backend: EncoderBackend, requested: Option<u32> },
    /// The backend asked for could not be constructed.
    BackendInit { cause: String },
    /// The pinned vendor's encoder could not be constructed on its device.
    PinnedInit { vendor: GpuVendor, device: usize, cause: String },
    /// The pinned vendor's device has no AV1 silicon.
    PinnedNoSilicon { vendor: GpuVendor, device: usize },
    /// No device matches the pin.
    PinnedNoDevice { vendor: GpuVendor, requested: Option<u32> },
    /// Every tier declined.
    NoEncoder,
}

/// Where the choice stands.
#[derive(Debug)]
pub enum Selection {
    /// Construct this encoder; if it fails, `fallback` says what then.
    Attempting { attempt: Attempt, fallback: Fallback },
    /// There is no encoder.
    Failed(SelectError),
}

/// Whether a device's silicon can be used for the preference chain.
pub open spec fn usable(
    gpus: Seq<GpuDevice>,
    vendor: GpuVendor,
    requested: Option<u32>,
) -> Option<int> {
    match gpu::picked(gpus, vendor, requested) {
        Some(i) => if gpus[i].av1_encode {
            Some(i)
        } else {
            None
        },
        None => None,
    }
}

/// The attempt on a vendor's device as part of the chain.
pub open spec fn chain_attempt(vendor: GpuVendor, device: int) -> Selection {
    Selection::Attempting {
        attempt: Attempt::Hardware {
            backend: EncoderBackend::of_vendor_spec(vendor),
            device: device as usize,
        },
        fallback: Fallback::ChainAfter(vendor),
    }
}

/// The Intel tier of the chain, the last one.
pub open spec fn from_intel(gpus: Seq<GpuDevice>, requested: Option<u32>) -> Selection {
    match usable(gpus, GpuVendor::Intel, requested) {
        Some(i) => chain_attempt(GpuVendor::Intel, i),
        None => Selection::Failed(SelectError::NoEncoder),
    }
}

/// The chain from the AMD tier on.
pub open spec fn from_amd(gpus: Seq<GpuDevice>, requested: Option<u32>) -> Selection {
    match usable(gpus, GpuVendor::Amd, requested) {
        Some(i) => chain_attempt(GpuVendor::Amd, i),
        None => from_intel(gpus, requested),
    }
}

/// The whole chain: NVIDIA, then AMD, then Intel.
pub open spec fn from_nvidia(gpus: Seq<GpuDevice>, requested: Option<u32>) -> Selection {
    match usable(gpus, GpuVendor::Nvidia, requested) {
        Some(i) => chain_attempt(GpuVendor::Nvidia, i),
        None => from_amd(gpus, requested),
    }
}

/// The native part of the choice: the pinned vendor alone, or the chain.
pub open spec fn native_choice(
    gpus: Seq<GpuDevice>,
    pinned: Option<GpuVendor>,
    requested: Option<u32>,
) -> Selection {
    match pinned {
        Some(vendor) => match gpu::picked(gpus, vendor, requested) {
            Some(i) => if gpus[i].av1_encode {
                Selection::Attempting {
                    attempt: Attempt::Hardware {
                        backend: EncoderBackend::of_vendor_spec(vendor),
                        device: i as usize,
                    },
                    fallback: Fallback::Pinned(vendor),
                }
            } else {
                Selection::Failed(SelectError::PinnedNoSilicon { vendor, device: i as usize })
            },
            None => Selection::Failed(SelectError::PinnedNoDevice { vendor, requested }),
        },
        None => from_nvidia(gpus, requested),
    }
}

/// The explicitly requested backend: its device, whatever its silicon.
pub open spec fn preferred_choice(
    gpus: Seq<GpuDevice>,
    backend: EncoderBackend,
    requested: Option<u32>,
) -> Selection {
    match gpu::picked(gpus, backend.vendor_spec(), requested) {
        Some(i) => Selection::Attempting {
            attempt: Attempt::Hardware { backend, device: i as usize },
            fallback: Fallback::Surface,
        },
        None => Selection::Failed(SelectError::BackendNoDevice { backend, requested }),
    }
}

/// The devices that libavcodec may use for a request.
pub open spec fn reach_of(gpus: Seq<GpuDevice>, requested: Option<u32>, r: Reach) -> bool {
    match requested {
        None => r == Reach::Any,
        Some(idx) => match r {
            Reach::Any => false,
            Reach::Device(i) => gpu::is_position_of(gpus, idx, i as int),
            Reach::NoDevice => forall|j: int|
                0 <= j < gpus.len() ==> (#[trigger] gpus[j]).index != idx,
        },
    }
}

/// The first step of the choice: the backend that the caller names, else the
/// vendor that the caller pins, else libavcodec where it is in use, else the
/// chain.
pub open spec fn first_choice(
    gpus: Seq<GpuDevice>,
    preferred: Option<EncoderBackend>,
    pinned: Option<GpuVendor>,
    requested: Option<u32>,
    ffmpeg: bool,
    s: Selection,
) -> bool {
    match preferred {
        Some(backend) => s == preferred_choice(gpus, backend, requested),
        None => if ffmpeg && pinned is None {
            &&& s matches Selection::Attempting { attempt: Attempt::Ffmpeg { reach }, fallback }
            &&& reach_of(gpus, requested, reach)
            &&& fallback == Fallback::Native
        } else {
            s == native_choice(gpus, pinned, requested)
        },
    }
}

/// The step after an attempt failed for `cause`.
pub open spec fn next_choice(
    attempt: Attempt,
    fallback: Fallback,
    gpus: Seq<GpuDevice>,
    pinned: Option<GpuVendor>,
    requested: Option<u32>,
    cause: String,
) -> Selection {
    match fallback {
        Fallback::Surface => Selection::Failed(SelectError::BackendInit { cause }),
        Fallback::Pinned(vendor) => Selection::Failed(
            SelectError::PinnedInit {
                vendor,
                device: match attempt {
                    Attempt::Hardware { device, .. } => device,
                    Attempt::Ffmpeg { .. } => 0,
                },
                cause,
            },
        ),
        Fallback::Native => native_choice(gpus, pinned, requested),
        Fallback::ChainAfter(GpuVendor::Nvidia) => from_amd(gpus, requested),
        Fallback::ChainAfter(GpuVendor::Amd) => from_intel(gpus, requested),
        Fallback::ChainAfter(GpuVendor::Intel) => Selection::Failed(SelectError::NoEncoder),
    }
}

fn chain_step(gpus: &[GpuDevice], vendor: GpuVendor, requested: Option<u32>) -> (s: Option<
    Selection,
>)
    ensures
        match usable(gpus@, vendor, requested) {
            Some(i) => s == Some(chain_attempt(vendor, i)),
            None => s is None,
        },
{
    match pick_position(gpus, vendor, requested) {
        Some(i) => if gpus[i].av1_encode {
            Some(
                Selection::Attempting {
                    attempt: Attempt::Hardware {
                        backend: EncoderBackend::of_vendor(vendor),
                        device: i,
                    },
                    fallback: Fallback::ChainAfter(vendor),
                },
            )
        } else {
            None
        },
        None => None,
    }
}

fn choose_from_intel(gpus: &[GpuDevice], requested: Option<u32>) -> (s: Selection)
    ensures
        s == from_intel(gpus@, requested),
{
    match chain_step(gpus, GpuVendor::Intel, requested) {
        Some(s) => s,
        None => Selection::Failed(SelectError::NoEncoder),
    }
}

fn choose_from_amd(gpus: &[GpuDevice], requested: Option<u32>) -> (s: Selection)
    ensures
        s == from_amd(gpus@, requested),
{
    match chain_step(gpus, GpuVendor::Amd, requested) {
        Some(s) => s,
        None => choose_from_intel(gpus, requested),
    }
}

fn choose_native(
    gpus: &[GpuDevice],
    pinned: Option<GpuVendor>,
    requested: Option<u32>,
) -> (s: Selection)
    ensures
        s == native_choice(gpus@, pinned, requested),
{
    match pinned {
        Some(vendor) => match pick_position(gpus, vendor, requested) {
            Some(i) => if gpus[i].av1_encode {
                Selection::Attempting {
                    attempt: Attempt::Hardware {
                        backend: EncoderBackend::of_vendor(vendor),
                        device: i,
                    },
                    fallback: Fallback::Pinned(vendor),
                }
            } else {
                Selection::Failed(SelectError::PinnedNoSilicon { vendor, device: i })
            },
            None => Selection::Failed(SelectError::PinnedNoDevice { vendor, requested }),
        },
        None => match chain_step(gpus, GpuVendor::Nvidia, requested) {
            Some(s) => s,
            None => choose_from_amd(gpus, requested),
        },
    }
}

/// Resolve an explicitly requested backend to its device.
pub fn create_backend(
    backend: EncoderBackend,
    config: &EncoderConfig,
    gpus: &[GpuDevice],
) -> (s: Selection)
    ensures
        s == preferred_choice(gpus@, backend, config.gpu_index),
{
    match pick_position(gpus, backend.vendor(), config.gpu_index) {
        Some(i) => Selection::Attempting {
            attempt: Attempt::Hardware { backend, device: i },
            fallback: Fallback::Surface,
        },
        None => Selection::Failed(
            SelectError::BackendNoDevice { backend, requested: config.gpu_index },
        ),
    }
}

fn find_reach(gpus: &[GpuDevice], requested: Option<u32>) -> (r: Reach)
    ensures
        reach_of(gpus@, requested, r),
{
    let idx: u32 = match requested {
        Some(idx) => idx,
        None => {
            return Reach::Any;
        },
    };
    let mut i: usize = 0;
    while i < gpus.len()
        invariant
            i <= gpus@.len(),
            requested == Some(idx),
            forall|j: int| 0 <= j < i ==> (#[trigger] gpus@[j]).index != idx,
        decreases gpus@.len() - i,
    {
        if gpus[i].index == idx {
            return Reach::Device(i);
        }
        i = i + 1;
    }
    Reach::NoDevice
}

/// The first encoder to construct for a job. `ffmpeg` says whether the
/// libavcodec path is in the build and not switched off.
pub fn select_encoder(
    config: &EncoderConfig,
    preferred: Option<EncoderBackend>,
    gpus: &[GpuDevice],
    ffmpeg: bool,
) -> (s: Selection)
    ensures
        first_choice(gpus@, preferred, config.gpu_vendor, config.gpu_index, ffmpeg, s),
{
    match preferred {
        Some(backend) => create_backend(backend, config, gpus),
        None => if ffmpeg && config.gpu_vendor.is_none() {
            Selection::Attempting {
                attempt: Attempt::Ffmpeg { reach: find_reach(gpus, config.gpu_index) },
                fallback: Fallback::Native,
            }
        } else {
            choose_native(gpus, config.gpu_vendor, config.gpu_index)
        },
    }
}

impl Selection {
    /// The next step after the attempt of this one failed. A choice that had
    /// already failed stays as it is.
    pub fn after_failure(
        self,
        config: &EncoderConfig,
        gpus: &[GpuDevice],
        cause: String,
    ) -> (s: Selection)
        ensures
            self matches Selection::Failed(_) ==> s == self,
            self matches Selection::Attempting { attempt, fallback } ==> s == next_choice(
                attempt,
                fallback,
                gpus@,
                config.gpu_vendor,
                config.gpu_index,
                cause,
            ),
    {
        match self {
            Selection::Failed(e) => Selection::Failed(e),
            Selection::Attempting { attempt, fallback } => match fallback {
                Fallback::Surface => Selection::Failed(SelectError::BackendInit { cause }),
                Fallback::Pinned(vendor) => {
                    let device: usize = match attempt {
                        Attempt::Hardware { device, .. } => device,
                        Attempt::Ffmpeg { .. } => 0,
                    };
                    Selection::Failed(SelectError::PinnedInit { vendor, device, cause })
                },
                Fallback::Native => choose_native(gpus, config.gpu_vendor, config.gpu_index),
                Fallback::ChainAfter(vendor) => match vendor {
                    GpuVendor::Nvidia => choose_from_amd(gpus, config.gpu_index),
                    GpuVendor::Amd => choose_from_intel(gpus, config.gpu_index),
                    GpuVendor::Intel => Selection::Failed(SelectError::NoEncoder),
                },
            },
        }
    }

    /// Attempts that can still follow this step.
    pub open spec fn attempts_left(self) -> nat {
        match self {
            Selection::Failed(_) => 0,
            Selection::Attempting { fallback, .. } => match fallback {
                Fallback::Surface => 1,
                Fallback::Pinned(_) => 1,
                Fallback::Native => 4,
                Fallback::ChainAfter(GpuVendor::Nvidia) => 3,
                Fallback::ChainAfter(GpuVendor::Amd) => 2,
                Fallback::ChainAfter(GpuVendor::Intel) => 1,
            },
        }
    }
}

/// Every failure leaves fewer attempts: the choice ends, after four attempts
/// at most.
pub proof fn the_choice_ends(
    attempt: Attempt,
    fallback: Fallback,
    gpus: Seq<GpuDevice>,
    pinned: Option<GpuVendor>,
    requested: Option<u32>,
    cause: String,
)
    ensures
        next_choice(attempt, fallback, gpus, pinned, requested, cause).attempts_left()
            < (Selection::Attempting { attempt, fallback }).attempts_left(),
        (Selection::Attempting { attempt, fallback }).attempts_left() <= 4,
{
}

/// Whether an attempt runs a backend on a device of its own vendor, with AV1
/// silicon, and with the requested index where one is requested.
pub open spec fn attempt_is_sound(
    gpus: Seq<GpuDevice>,
    requested: Option<u32>,
    s: Selection,
) -> bool {
    s matches Selection::Attempting { attempt, .. } ==> (attempt matches Attempt::Hardware {
        backend,
        device,
    } ==> {
        &&& device < gpus.len()
        &&& gpus[device as int].av1_encode
        &&& gpu::device_matches(gpus[device as int], backend.vendor_spec(), requested)
    })
}

/// Unless the caller names a backend outright, hardware is only ever tried on
/// a device that can encode AV1, is the backend's own vendor's, and has the
/// requested index.
pub proof fn hardware_attempts_are_sound(
    gpus: Seq<GpuDevice>,
    pinned: Option<GpuVendor>,
    requested: Option<u32>,
)
    requires
        gpus.len() <= usize::MAX,
    ensures
        attempt_is_sound(gpus, requested, native_choice(gpus, pinned, requested)),
        attempt_is_sound(gpus, requested, from_amd(gpus, requested)),
        attempt_is_sound(gpus, requested, from_intel(gpus, requested)),
{
    gpu::picked_is_first(gpus, GpuVendor::Nvidia, requested);
    gpu::picked_is_first(gpus, GpuVendor::Amd, requested);
    gpu::picked_is_first(gpus, GpuVendor::Intel, requested);
}

/// A pinned vendor is never left, whether or not libavcodec is in use: the only
/// attempt is that vendor's backend on the device that the request picks, made
/// exactly where there is one with AV1 silicon, and its failure ends the choice
/// with an error that names the vendor.
pub proof fn a_pin_is_final(
    gpus: Seq<GpuDevice>,
    vendor: GpuVendor,
    requested: Option<u32>,
    ffmpeg: bool,
    s: Selection,
    cause: String,
)
    requires
        gpus.len() <= usize::MAX,
        first_choice(gpus, None, Some(vendor), requested, ffmpeg, s),
    ensures
        s is Attempting <==> usable(gpus, vendor, requested) is Some,
        match s {
            Selection::Attempting { attempt, fallback } => {
                &&& attempt matches Attempt::Hardware { backend, device }
                &&& backend == EncoderBackend::of_vendor_spec(vendor)
                &&& gpu::picked(gpus, vendor, requested) == Some(device as int)
                &&& next_choice(
                    attempt,
                    fallback,
                    gpus,
                    Some(vendor),
                    requested,
                    cause,
                ) matches Selection::Failed(SelectError::PinnedInit { vendor: v, cause: c, .. })
                &&& v == vendor
                &&& c == cause
            },
            Selection::Failed(e) => {
                ||| e matches SelectError::PinnedNoSilicon { vendor: v, .. } && v == vendor
                ||| e matches SelectError::PinnedNoDevice { vendor: v, .. } && v == vendor
            },
        },
{
    gpu::picked_is_first(gpus, vendor, requested);
}

/// A requested device is the only one that is ever used, by libavcodec as by a
/// vendor's own backend.
pub proof fn a_requested_device_is_the_only_one(
    gpus: Seq<GpuDevice>,
    preferred: Option<EncoderBackend>,
    pinned: Option<GpuVendor>,
    index: u32,
    ffmpeg: bool,
    s: Selection,
)
    requires
        gpus.len() <= usize::MAX,
        first_choice(gpus, preferred, pinned, Some(index), ffmpeg, s),
    ensures
        s matches Selection::Attempting { attempt, .. } ==> match attempt {
            Attempt::Hardware { device, .. } => device < gpus.len() && gpus[device as int].index
                == index,
            Attempt::Ffmpeg { reach: Reach::Device(i) } => i < gpus.len() && gpus[i as int].index
                == index,
            Attempt::Ffmpeg { reach } => reach == Reach::NoDevice,
        },
{
    gpu::picked_is_first(gpus, GpuVendor::Nvidia, Some(index));
    gpu::picked_is_first(gpus, GpuVendor::Amd, Some(index));
    gpu::picked_is_first(gpus, GpuVendor::Intel, Some(index));
}

/// Without a pin the chain gives up without an attempt exactly where no vendor
/// has a usable device, and otherwise starts with NVIDIA if it can, else AMD,
/// else Intel.
pub proof fn the_chain_prefers_nvidia_then_amd_then_intel(
    gpus: Seq<GpuDevice>,
    requested: Option<u32>,
)
    ensures
        native_choice(gpus, None, requested) is Failed <==> {
            &&& usable(gpus, GpuVendor::Nvidia, requested) is None
            &&& usable(gpus, GpuVendor::Amd, requested) is None
            &&& usable(gpus, GpuVendor::Intel, requested) is None
        },
        usable(gpus, GpuVendor::Nvidia, requested) matches Some(i) ==> native_choice(
            gpus,
            None,
            requested,
        ) == chain_attempt(GpuVendor::Nvidia, i),
        usable(gpus, GpuVendor::Nvidia, requested) is None ==> (usable(
            gpus,
            GpuVendor::Amd,
            requested,
        ) matches Some(i) ==> native_choice(gpus, None, requested) == chain_attempt(
            GpuVendor::Amd,
            i,
        )),
{
}

/// Whether the device at position `i` is the one a vendor's backend would run
/// on and can encode AV1: the vendor's first device, or its first with the
/// requested index.
pub open spec fn offers(
    gpus: Seq<GpuDevice>,
    vendor: GpuVendor,
    requested: Option<u32>,
    i: int,
) -> bool {
    &&& 0 <= i < gpus.len()
    &&& gpus[i].vendor == vendor
    &&& gpus[i].av1_encode
    &&& requested is Some ==> gpus[i].index == requested->0
    &&& forall|j: int|
        0 <= j < i && (#[trigger] gpus[j]).vendor == vendor ==> requested is Some && gpus[j].index
            != requested->0
}

/// Whether a vendor has no device that can be used.
pub open spec fn offers_none(
    gpus: Seq<GpuDevice>,
    vendor: GpuVendor,
    requested: Option<u32>,
) -> bool {
    forall|i: int| !#[trigger] offers(gpus, vendor, requested, i)
}

/// Place of a vendor in the chain.
pub open spec fn place(v: GpuVendor) -> int {
    match v {
        GpuVendor::Nvidia => 0,
        GpuVendor::Amd => 1,
        GpuVendor::Intel => 2,
    }
}

proof fn usable_means_offered(gpus: Seq<GpuDevice>, vendor: GpuVendor, requested: Option<u32>)
    ensures
        match usable(gpus, vendor, requested) {
            Some(i) => offers(gpus, vendor, requested, i),
            None => offers_none(gpus, vendor, requested),
        },
{
    gpu::picked_is_first(gpus, vendor, requested);
    if usable(gpus, vendor, requested) is None {
        assert forall|i: int| !#[trigger] offers(gpus, vendor, requested, i) by {
            if offers(gpus, vendor, requested, i) {
                assert(gpu::device_matches(gpus[i], vendor, requested));
                let p = gpu::picked(gpus, vendor, requested)->0;
                assert(gpu::device_matches(gpus[p], vendor, requested));
                if p < i {
                    assert(gpus[p].vendor == vendor);
                } else if i < p {
                    assert(!gpu::device_matches(gpus[i], vendor, requested));
                }
            }
        }
    }
}

/// Whether a step is the attempt on the first vendor from a place of the chain
/// on that has a usable device, or, where none has, the end of the choice.
pub open spec fn takes_the_first_from(
    gpus: Seq<GpuDevice>,
    requested: Option<u32>,
    first: int,
    s: Selection,
) -> bool {
    match s {
        Selection::Attempting {
            attempt: Attempt::Hardware { backend, device },
            fallback: Fallback::ChainAfter(v),
        } => {
            &&& first <= place(v)
            &&& offers(gpus, v, requested, device as int)
            &&& forall|w: GpuVendor|
                first <= #[trigger] place(w) < place(v) ==> offers_none(gpus, w, requested)
            &&& v == GpuVendor::Nvidia <==> backend == EncoderBackend::Nvenc
            &&& v == GpuVendor::Amd <==> backend == EncoderBackend::Amf
            &&& v == GpuVendor::Intel <==> backend == EncoderBackend::Qsv
        },
        Selection::Failed(SelectError::NoEncoder) => forall|w: GpuVendor|
            first <= #[trigger] place(w) ==> offers_none(gpus, w, requested),
        _ => false,
    }
}

/// After an attempt of the chain fails, the next one is on the first later
/// vendor, in the order NVIDIA, AMD, Intel, that has a usable device, with that
/// vendor's own backend; the choice ends exactly where no later vendor has one.
/// A failure of libavcodec leads to the start of the chain.
pub proof fn a_failure_leads_to_the_next_usable_vendor(
    attempt: Attempt,
    v: GpuVendor,
    gpus: Seq<GpuDevice>,
    requested: Option<u32>,
    pinned: Option<GpuVendor>,
    cause: String,
)
    requires
        gpus.len() <= usize::MAX,
    ensures
        takes_the_first_from(
            gpus,
            requested,
            place(v) + 1,
            next_choice(
                attempt,
                Fallback::ChainAfter(v),
                gpus,
                pinned,
                requested,
                cause,
            ),
        ),
        takes_the_first_from(
            gpus,
            requested,
            0,
            next_choice(attempt, Fallback::Native, gpus, None, requested, cause),
        ),
        next_choice(
            attempt,
            Fallback::ChainAfter(v),
            gpus,
            pinned,
            requested,
            cause,
        ) is Failed <==> forall|w: GpuVendor|
            place(v) < #[trigger] place(w) ==> offers_none(gpus, w, requested),
{
    usable_means_offered(gpus, GpuVendor::Nvidia, requested);
    usable_means_offered(gpus, GpuVendor::Amd, requested);
    usable_means_offered(gpus, GpuVendor::Intel, requested);
    assert(place(GpuVendor::Nvidia) == 0 && place(GpuVendor::Amd) == 1 && place(GpuVendor::Intel)
        == 2);
}

/// The first step without a pin, a named backend or libavcodec is the attempt
/// on the first usable vendor of the chain.
pub proof fn the_chain_starts_at_its_first_usable_vendor(
    gpus: Seq<GpuDevice>,
    requested: Option<u32>,
    s: Selection,
)
    requires
        gpus.len() <= usize::MAX,
        first_choice(gpus, None, None, requested, false, s),
    ensures
        takes_the_first_from(gpus, requested, 0, s),
{
    usable_means_offered(gpus, GpuVendor::Nvidia, requested);
    usable_means_offered(gpus, GpuVendor::Amd, requested);
    usable_means_offered(gpus, GpuVendor::Intel, requested);
}

/// libavcodec is the first choice exactly where it is in use and the caller
/// named neither a backend nor a vendor; its failure leads on to the native
/// backends.
pub proof fn libavcodec_comes_first_unless_something_is_named(
    gpus: Seq<GpuDevice>,
    preferred: Option<EncoderBackend>,
    pinned: Option<GpuVendor>,
    requested: Option<u32>,
    ffmpeg: bool,
    s: Selection,
)
    requires
        first_choice(gpus, preferred, pinned, requested, ffmpeg, s),
    ensures
        (s matches Selection::Attempting { attempt: Attempt::Ffmpeg { .. }, .. }) <==> ffmpeg
            && preferred is None && pinned is None,
        s matches Selection::Attempting { attempt: Attempt::Ffmpeg { reach }, fallback } ==> {
            &&& fallback == Fallback::Native
            &&& reach == Reach::Any <==> requested is None
        },
{
}

/// A backend that the caller names is tried on the vendor's first device, or
/// the one with the requested index, whether or not its silicon encodes AV1;
/// its failure is answered with its own cause and with nothing else. Without
/// such a device the refusal names the backend and the request.
pub proof fn a_named_backend_is_the_only_attempt(
    gpus: Seq<GpuDevice>,
    backend: EncoderBackend,
    pinned: Option<GpuVendor>,
    requested: Option<u32>,
    ffmpeg: bool,
    s: Selection,
    cause: String,
)
    requires
        gpus.len() <= usize::MAX,
        first_choice(gpus, Some(backend), pinned, requested, ffmpeg, s),
    ensures
        match s {
            Selection::Attempting { attempt, fallback } => {
                &&& attempt matches Attempt::Hardware { backend: b, device }
                &&& b == backend
                &&& device < gpus.len()
                &&& EncoderBackend::of_vendor_spec(gpus[device as int].vendor) == backend
                &&& requested is Some ==> gpus[device as int].index == requested->0
                &&& forall|j: int|
                    0 <= j < device && (#[trigger] gpus[j]).vendor == gpus[device as int].vendor
                        ==> requested is Some && gpus[j].index != requested->0
                &&& next_choice(attempt, fallback, gpus, pinned, requested, cause)
                    == Selection::Failed(SelectError::BackendInit { cause })
            },
            Selection::Failed(e) => {
                &&& e == (SelectError::BackendNoDevice { backend, requested })
                &&& forall|j: int|
                    0 <= j < gpus.len() && EncoderBackend::of_vendor_spec(
                        (#[trigger] gpus[j]).vendor,
                    ) == backend ==> requested is Some && gpus[j].index != requested->0
            },
        },
{
    gpu::picked_is_first(gpus, backend.vendor_spec(), requested);
    if s is Failed {
        assert forall|j: int|
            0 <= j < gpus.len() && EncoderBackend::of_vendor_spec((#[trigger] gpus[j]).vendor)
                == backend implies requested is Some && gpus[j].index != requested->0 by {
            assert(!gpu::device_matches(gpus[j], backend.vendor_spec(), requested));
        }
    } else {
        let i = gpu::picked(gpus, backend.vendor_spec(), requested)->0;
        assert forall|j: int|
            0 <= j < i && (#[trigger] gpus[j]).vendor == gpus[i].vendor implies requested is Some
            && gpus[j].index != requested->0 by {
            assert(!gpu::device_matches(gpus[j], backend.vendor_spec(), requested));
        }
    }
}

/// A pinned vendor's failure names the device it was tried on. A device
/// without AV1 silicon is refused by its position, and a request that no
/// device meets by the request itself.
pub proof fn a_pin_reports_its_device(
    gpus: Seq<GpuDevice>,
    vendor: GpuVendor,
    requested: Option<u32>,
    ffmpeg: bool,
    s: Selection,
    cause: String,
)
    requires
        gpus.len() <= usize::MAX,
        first_choice(gpus, None, Some(vendor), requested, ffmpeg, s),
    ensures
        match s {
            Selection::Attempting { attempt, fallback } => {
                &&& attempt matches Attempt::Hardware { device, .. }
                &&& offers(gpus, vendor, requested, device as int)
                &&& next_choice(attempt, fallback, gpus, Some(vendor), requested, cause)
                    == Selection::Failed(SelectError::PinnedInit { vendor, device, cause })
            },
            Selection::Failed(SelectError::PinnedNoSilicon { vendor: v, device }) => {
                &&& v == vendor
                &&& device < gpus.len()
                &&& gpus[device as int].vendor == vendor
                &&& !gpus[device as int].av1_encode
                &&& requested is Some ==> gpus[device as int].index == requested->0
            },
            Selection::Failed(e) => {
                &&& e == (SelectError::PinnedNoDevice { vendor, requested })
                &&& forall|j: int|
                    0 <= j < gpus.len() && (#[trigger] gpus[j]).vendor == vendor ==> requested
                        is Some && gpus[j].index != requested->0
            },
        },
{
    gpu::picked_is_first(gpus, vendor, requested);
    usable_means_offered(gpus, vendor, requested);
    if gpu::picked(gpus, vendor, requested) is None {
        assert forall|j: int|
            0 <= j < gpus.len() && (#[trigger] gpus[j]).vendor == vendor implies requested is Some
            && gpus[j].index != requested->0 by {
            assert(!gpu::device_matches(gpus[j], vendor, requested));
        }
    }
}

/// NVENC drives NVIDIA's devices, AMF those of AMD, and Quick Sync those of
/// Intel.
pub proof fn each_backend_drives_its_makers_devices(b: EncoderBackend)
    ensures
        b.vendor_spec() == GpuVendor::Nvidia <==> b == EncoderBackend::Nvenc,
        b.vendor_spec() == GpuVendor::Amd <==> b == EncoderBackend::Amf,
        b.vendor_spec() == GpuVendor::Intel <==> b == EncoderBackend::Qsv,
{
}

impl EncoderBackend {
    /// The backend and its maker, as messages name them.
    pub open spec fn labels(self) -> (Seq<char>, Seq<char>) {
        match self {
            EncoderBackend::Nvenc => ("NVENC"@, "NVIDIA"@),
            EncoderBackend::Amf => ("AMF"@, "AMD"@),
            EncoderBackend::Qsv => ("QSV"@, "Intel"@),
        }
    }

    fn names(self) -> (n: (&'static str, &'static str))
        ensures
            n.0@ == self.labels().0,
            n.1@ == self.labels().1,
    {
        match self {
            EncoderBackend::Nvenc => ("NVENC", "NVIDIA"),
            EncoderBackend::Amf => ("AMF", "AMD"),
            EncoderBackend::Qsv => ("QSV", "Intel"),
        }
    }
}

/// An optional index as diagnostics write it.
pub open spec fn opt_text(v: Option<u32>) -> Seq<char> {
    match v {
        Some(i) => "Some("@ + text::dec(i as nat) + ")"@,
        None => "None"@,
    }
}

fn push_opt(out: &mut String, v: Option<u32>)
    ensures
        final(out)@ == old(out)@ + opt_text(v),
{
    let ghost before = out@;
    match v {
        Some(i) => {
            out.append("Some(");
            push_dec(out, i as u128);
            out.append(")");
            assert(out@ =~= before + opt_text(v));
        },
        None => {
            out.append("None");
        },
    }
}

impl SelectError {
    /// The error in words; `gpus` is the list the choice was made from.
    pub open spec fn text(self, gpus: Seq<GpuDevice>) -> Seq<char> {
        match self {
            SelectError::BackendNoDevice { backend, requested } => match requested {
                Some(idx) => backend.labels().0 + " requested on GPU index "@ + text::dec(idx as nat)
                    + " but no "@ + backend.labels().1 + " GPU with that index found"@,
                None => backend.labels().0 + " requested but no "@ + backend.labels().1
                    + " GPU found"@,
            },
            SelectError::BackendInit { cause } => cause@,
            SelectError::PinnedInit { vendor, device, cause } => {
                "vendor-pinned AV1 encoder init failed (vendor="@ + vendor.label() + ", gpu="@
                    + gpus[device as int].name@ + ", idx="@ + text::dec(gpus[device as int].index as nat)
                    + "): "@ + cause@
            },
            SelectError::PinnedNoSilicon { vendor, device } => {
                "vendor-pinned GPU lacks AV1 encode silicon (vendor="@ + vendor.label() + ", gpu="@
                    + gpus[device as int].name@
                    + "); GPU-only encode policy has no CPU fallback"@
            },
            SelectError::PinnedNoDevice { vendor, requested } => {
                "vendor-pinned encoder requested (vendor="@ + vendor.label() + ", gpu_index="@
                    + opt_text(requested) + ") but no matching GPU found"@
            },
            SelectError::NoEncoder =>
                "no AV1 GPU encoder available — the host needs NVIDIA Ada+ / AMD RDNA3+ / Intel Arc for AV1 hardware encoding. CPU encoding (rav1e) was removed per the GPU-only directive."@,
        }
    }

    /// Whether the devices the error speaks of are in the list.
    pub open spec fn device_known(self, gpus: Seq<GpuDevice>) -> bool {
        match self {
            SelectError::PinnedInit { device, .. } => device < gpus.len(),
            SelectError::PinnedNoSilicon { device, .. } => device < gpus.len(),
            _ => true,
        }
    }

    /// The error in words.
    pub fn message(&self, gpus: &[GpuDevice]) -> (s: String)
        requires
            self.device_known(gpus@),
        ensures
            s@ == self.text(gpus@),
    {
        let mut out: String = String::new();
        match self {
            SelectError::BackendNoDevice { backend, requested } => {
                let n: (&'static str, &'static str) = backend.names();
                out.append(n.0);
                match requested {
                    Some(idx) => {
                        out.append(" requested on GPU index ");
                        push_dec(&mut out, *idx as u128);
                        out.append(" but no ");
                        out.append(n.1);
                        out.append(" GPU with that index found");
                    },
                    None => {
                        out.append(" requested but no ");
                        out.append(n.1);
                        out.append(" GPU found");
                    },
                }
            },
            SelectError::BackendInit { cause } => {
                out.append(cause.as_str());
            },
            SelectError::PinnedInit { vendor, device, cause } => {
                out.append("vendor-pinned AV1 encoder init failed (vendor=");
                out.append(vendor.name());
                out.append(", gpu=");
                out.append(gpus[*device].name.as_str());
                out.append(", idx=");
                push_dec(&mut out, gpus[*device].index as u128);
                out.append("): ");
                out.append(cause.as_str());
            },
            SelectError::PinnedNoSilicon { vendor, device } => {
                out.append("vendor-pinned GPU lacks AV1 encode silicon (vendor=");
                out.append(vendor.name());
                out.append(", gpu=");
                out.append(gpus[*device].name.as_str());
                out.append("); GPU-only encode policy has no CPU fallback");
            },
            SelectError::PinnedNoDevice { vendor, requested } => {
                out.append("vendor-pinned encoder requested (vendor=");
                out.append(vendor.name());
                out.append(", gpu_index=");
                push_opt(&mut out, *requested);
                out.append(") but no matching GPU found");
            },
            SelectError::NoEncoder => {
                out.append(
                    "no AV1 GPU encoder available — the host needs NVIDIA Ada+ / AMD RDNA3+ / Intel Arc for AV1 hardware encoding. CPU encoding (rav1e) was removed per the GPU-only directive.",
                );
            },
        }
        assert(out@ =~= self.text(gpus@));
        out
    }
}

/// Every error of the choice speaks of devices that are in the list, so it can
/// always be put into words.
pub proof fn errors_speak_of_listed_devices(
    gpus: Seq<GpuDevice>,
    preferred: Option<EncoderBackend>,
    pinned: Option<GpuVendor>,
    requested: Option<u32>,
    ffmpeg: bool,
    s: Selection,
    cause: String,
)
    requires
        gpus.len() <= usize::MAX,
        first_choice(gpus, preferred, pinned, requested, ffmpeg, s),
    ensures
        s matches Selection::Failed(e) ==> e.device_known(gpus),
        s matches Selection::Attempting { attempt, fallback } ==> (next_choice(attempt, fallback, gpus, pinned, requested, cause)
            matches Selection::Failed(e) ==> e.device_known(gpus)),
        native_choice(gpus, pinned, requested) matches Selection::Attempting { attempt, fallback }
            ==> (next_choice(attempt, fallback, gpus, pinned, requested, cause)
            matches Selection::Failed(e) ==> e.device_known(gpus)),
        from_amd(gpus, requested) matches Selection::Failed(e) ==> e.device_known(gpus),
        from_intel(gpus, requested) matches Selection::Failed(e) ==> e.device_known(gpus),
{
    gpu::picked_is_first(gpus, GpuVendor::Nvidia, requested);
    gpu::picked_is_first(gpus, GpuVendor::Amd, requested);
    gpu::picked_is_first(gpus, GpuVendor::Intel, requested);
}

/// Which devices are known to encode AV1 or known not to.
pub struct CapabilityCache {
    known: HashMap<u32, bool>,
}

impl View for CapabilityCache {
    type V = Map<u32, bool>;

    closed spec fn view(&self) -> Map<u32, bool> {
        self.known@
    }
}

/// What is known of a device.
#[derive(Debug)]
pub enum Capability {
    /// It was probed before, with this verdict.
    Known(bool),
    /// Construct an encoder with this configuration and record whether that
    /// worked.
    Probe(EncoderConfig),
}

/// The configuration that probes a device: a small picture, pinned to the
/// device and its vendor, everything else at its default.
pub open spec fn is_probe_for(c: EncoderConfig, dev: GpuDevice) -> bool {
    &&& c.width == 640
    &&& c.height == 480
    &&& c.frame_rate == (FrameRate { nanos: 30_000_000_000 })
    &&& c.gpu_index == Some(dev.index)
    &&& c.gpu_vendor == Some(dev.vendor)
    &&& c.codec == crate::frame::VideoCodec::Av1
    &&& c.pixel_format == crate::frame::PixelFormat::Yuv420p
    &&& c.quality == crate::config::AUTO_FROM_TARGET
    &&& c.speed_preset == crate::config::AUTO_FROM_TARGET
    &&& c.keyframe_interval == 240
    &&& c.target == crate::tuning::QualityTarget::Standard
    &&& c.tier == crate::tuning::SpeedTier::Standard
    &&& c.threads == 0
    &&& !c.constant_qp
    &&& c.overrides.is_empty()
    &&& c.color_metadata.transfer == crate::frame::TransferFn::Bt709
    &&& c.color_metadata.matrix_coefficients == 1
    &&& c.color_metadata.colour_primaries == 1
    &&& !c.color_metadata.full_range
    &&& c.color_metadata.mastering_display is None
    &&& c.color_metadata.content_light_level is None
}

impl CapabilityCache {
    /// Nothing known yet.
    pub fn new() -> (c: Self)
        ensures
            c@ == Map::<u32, bool>::empty(),
    {
        CapabilityCache { known: HashMap::new() }
    }

    /// Remember the verdict for the device with this index.
    pub fn record(&mut self, index: u32, capable: bool)
        ensures
            final(self)@ == old(self)@.insert(index, capable),
    {
        broadcast use vstd::std_specs::hash::group_hash_axioms;

        self.known.insert(index, capable);
    }
}

/// Whether an AV1 encoder can be constructed for a device: the recorded
/// verdict if it was probed before, and otherwise the probe to run.
pub fn av1_encode_capable(cache: &CapabilityCache, dev: &GpuDevice) -> (c: Capability)
    ensures
        cache@.contains_key(dev.index) ==> c == Capability::Known(cache@[dev.index]),
        !cache@.contains_key(dev.index) ==> (c matches Capability::Probe(p) && is_probe_for(
            p,
            *dev,
        )),
{
    broadcast use vstd::std_specs::hash::group_hash_axioms;

    match cache.known.get(&dev.index) {
        Some(v) => Capability::Known(*v),
        None => {
            let mut probe: EncoderConfig = EncoderConfig::default();
            probe.width = 640;
            probe.height = 480;
            probe.frame_rate = FrameRate { nanos: 30_000_000_000 };
            probe.gpu_index = Some(dev.index);
            probe.gpu_vendor = Some(dev.vendor);
            Capability::Probe(probe)
        },
    }
}

/// A device is probed once: after a verdict is recorded it is what every later
/// question about that device finds, and the other devices keep theirs.
pub proof fn verdicts_stay(cache: Map<u32, bool>, index: u32, capable: bool, other: u32)
    ensures
        cache.insert(index, capable).contains_key(index),
        cache.insert(index, capable)[index] == capable,
        other != index ==> cache.insert(index, capable).contains_key(other)
            == cache.contains_key(other),
        other != index && cache.contains_key(other) ==> cache.insert(index, capable)[other]
            == cache[other],
{
}

/// A character with ASCII letters in lower case.
pub open spec fn lower_char(c: char) -> char {
    if 'A' <= c && c <= 'Z' {
        (c as u32 + 32) as char
    } else {
        c
    }
}

/// A string with ASCII letters in lower case.
pub open spec fn lower(s: Seq<char>) -> Seq<char> {
    s.map_values(|c: char| lower_char(c))
}

fn same_letter(c: char, w: char) -> (b: bool)
    ensures
        b == (lower_char(c) == w),
{
    let code: u32 = c as u32;
    if 65 <= code && code <= 90 {
        let low: u32 = code + 32;
        assert(lower_char(c) as u32 == low);
        low == w as u32
    } else {
        code == w as u32
    }
}

fn reads_as(s: &str, word: &str) -> (b: bool)
    ensures
        b == (lower(s@) == word@),
{
    let n: usize = s.unicode_len();
    if n != word.unicode_len() {
        assert(lower(s@).len() != word@.len());
        return false;
    }
    let mut i: usize = 0;
    while i < n
        invariant
            i <= n,
            n == s@.len() == word@.len(),
            forall|j: int| 0 <= j < i ==> lower_char(s@[j]) == #[trigger] word@[j],
        decreases n - i,
    {
        if !same_letter(s.get_char(i), word.get_char(i)) {
            assert(lower(s@)[i as int] != word@[i as int]);
            return false;
        }
        i = i + 1;
    }
    assert(lower(s@) =~= word@);
    true
}

/// Whether the text of a switch turns it on: `1`, `true`, `yes`, `on`, `y` or
/// `t`, in any case.
pub open spec fn truthy(s: Seq<char>) -> bool {
    ||| lower(s) == "1"@
    ||| lower(s) == "true"@
    ||| lower(s) == "yes"@
    ||| lower(s) == "on"@
    ||| lower(s) == "y"@
    ||| lower(s) == "t"@
}

/// Whether the `DISABLE_FFMPEG` switch is on, given its text if it is set.
pub fn ffmpeg_disable_flag(value: Option<&str>) -> (b: bool)
    ensures
        b == (value matches Some(s) && truthy(s@)),
{
    match value {
        Some(s) => reads_as(s, "1") || reads_as(s, "true") || reads_as(s, "yes") || reads_as(
            s,
            "on",
        ) || reads_as(s, "y") || reads_as(s, "t"),
        None => false,
    }
}

/// The paths of a build are named in the order NVENC, AMF, QSV, libavcodec, each
/// exactly where it is in the build.
pub proof fn paths_are_named_in_order(f: BuildFeatures)
    ensures
        ({
            let n = backend_names(f);
            let a = if f.nvidia {
                1int
            } else {
                0
            };
            let b = a + if f.amd {
                1int
            } else {
                0
            };
            let c = b + if f.qsv {
                1int
            } else {
                0
            };
            &&& f.nvidia ==> n[0] == "nvenc"@
            &&& f.amd ==> n[a] == "amf"@
            &&& f.qsv ==> n[b] == "qsv"@
            &&& f.ffmpeg ==> n[c] == "ffmpeg"@
            &&& n.len() == c + if f.ffmpeg {
                1int
            } else {
                0
            }
        }),
        encodes_at_all(f) <==> backend_names(f).len() > 0,
{
}

/// A backend can be constructed exactly where its own path is in the build.
pub proof fn backends_need_their_own_path(f: BuildFeatures)
    ensures
        is_compiled(f, EncoderBackend::Nvenc) == f.nvidia,
        is_compiled(f, EncoderBackend::Amf) == f.amd,
        is_compiled(f, EncoderBackend::Qsv) == f.qsv,
{
}

/// A probe is pinned to the device and to its vendor, so that what it finds is
/// true of that device: nothing but that vendor's backend, on that device or on
/// none, is tried for it.
pub proof fn a_probe_tries_its_device_alone(
    c: EncoderConfig,
    dev: GpuDevice,
    gpus: Seq<GpuDevice>,
    ffmpeg: bool,
    s: Selection,
)
    requires
        gpus.len() <= usize::MAX,
        is_probe_for(c, dev),
        first_choice(gpus, None, c.gpu_vendor, c.gpu_index, ffmpeg, s),
    ensures
        c.codec == crate::frame::VideoCodec::Av1,
        s matches Selection::Attempting { attempt, .. } ==> {
            &&& attempt matches Attempt::Hardware { backend, device }
            &&& backend == EncoderBackend::of_vendor_spec(dev.vendor)
            &&& device < gpus.len()
            &&& gpus[device as int].index == dev.index
            &&& gpus[device as int].vendor == dev.vendor
        },
{
    gpu::picked_is_first(gpus, dev.vendor, Some(dev.index));
}

/// A switch is read in any case: two texts that differ in the case of their
/// letters alone turn it on alike, and a letter in lower case is its own.
pub proof fn switches_are_read_in_any_case(a: Seq<char>, b: Seq<char>, c: char)
    ensures
        a.len() == b.len() && (forall|i: int|
            0 <= i < a.len() ==> lower_char(#[trigger] a[i]) == lower_char(b[i])) ==> truthy(a)
            == truthy(b),
        'A' <= c <= 'Z' ==> lower_char(c) as u32 == c as u32 + 32 && lower_char(lower_char(c))
            == lower_char(c),
        !('A' <= c <= 'Z') ==> lower_char(c) == c,
{
    if a.len() == b.len() && (forall|i: int|
        0 <= i < a.len() ==> lower_char(#[trigger] a[i]) == lower_char(b[i])) {
        assert(lower(a) =~= lower(b));
    }
}

/// libavcodec may use the requested device alone, at its first place in the
/// list, and none exactly where no device has the requested index.
pub proof fn libavcodec_reaches_the_requested_device(
    gpus: Seq<GpuDevice>,
    requested: Option<u32>,
    r: Reach,
)
    requires
        reach_of(gpus, requested, r),
    ensures
        r == Reach::Any <==> requested is None,
        r == Reach::NoDevice <==> requested is Some && forall|j: int|
            0 <= j < gpus.len() ==> (#[trigger] gpus[j]).index != requested->0,
        r matches Reach::Device(i) ==> {
            &&& requested is Some
            &&& i < gpus.len() && gpus[i as int].index == requested->0
            &&& forall|j: int| 0 <= j < i ==> (#[trigger] gpus[j]).index != requested->0
        },
{
}

/// Every request has an answer: some reach meets it, on any list.
pub proof fn every_request_has_a_reach(gpus: Seq<GpuDevice>, requested: Option<u32>)
    requires
        gpus.len() <= usize::MAX,
    ensures
        exists|r: Reach| reach_of(gpus, requested, r),
{
    match requested {
        None => {
            assert(reach_of(gpus, requested, Reach::Any));
        },
        Some(idx) => {
            if exists|j: int| 0 <= j < gpus.len() && (#[trigger] gpus[j]).index == idx {
                let j = choose|j: int| 0 <= j < gpus.len() && (#[trigger] gpus[j]).index == idx;
                gpu::an_index_has_a_first_place(gpus, idx, j);
                let i = choose|i: int| #[trigger] gpu::is_position_of(gpus, idx, i);
                assert(reach_of(gpus, requested, Reach::Device(i as usize)));
            } else {
                assert(reach_of(gpus, requested, Reach::NoDevice));
            }
        },
    }
}

/// Six words turn a switch on, in any case: `1`, `true`, `yes`, `on`, `y` and
/// `t`; any other text leaves it off.
pub proof fn which_words_turn_a_switch_on(s: Seq<char>, word: Seq<char>)
    requires
        lower(s) == word,
    ensures
        word == "1"@ || word == "true"@ || word == "yes"@ || word == "on"@ || word == "y"@ || word
            == "t"@ <==> truthy(s),
{
}

} // verus!
