//! Opening and closing an NVENC session.
//!
//! A session is opened call by call. A call that fails ends the attempt, and
//! what was acquired up to there has to be given back: the buffers of the
//! ring from the last slot to the first, then the encoder, then the CUDA
//! context.

use vstd::prelude::*;

use super::api::RING_SIZE;
use super::plan::PlanError;
use crate::text::{self, push_dec};

verus! {

/// The call that comes next.
#[derive(Debug, Clone, Copy, PartialEq, Eq, Structural)]
pub enum Stage {
    /// Initialise CUDA.
    CudaInit,
    /// Look the device up.
    Device,
    /// Create a CUDA context on it.
    CudaContext,
    /// Open an encode session in the context.
    Open,
    /// Ask for the device's capabilities.
    Capabilities,
    /// Ask for the preset's configuration.
    Preset,
    /// Initialise the encoder.
    Initialize,
    /// Create a slot's input surface.
    Input { slot: usize },
    /// Create a slot's bitstream buffer.
    Bitstream { slot: usize },
    /// The session is open.
    Ready,
}

/// A call that failed.
#[derive(Debug, Clone, Copy, PartialEq, Eq, Structural)]
#[allow(inconsistent_fields)]
pub enum OpenError {
    CudaInit,
    Device { gpu_index: u32 },
    CudaContext,
    Open { status: u32 },
    /// The device cannot code what was asked for.
    Capabilities { why: PlanError },
    Preset { status: u32 },
    Initialize { status: u32 },
    Input { slot: usize, status: u32 },
    Bitstream { slot: usize, status: u32 },
}

/// An object to give back.
#[derive(Debug, Clone, Copy, PartialEq, Eq, Structural)]
#[allow(inconsistent_fields)]
pub enum Release {
    Input { slot: usize },
    Bitstream { slot: usize },
    Encoder,
    Context,
}

impl OpenError {
    /// The stage at which the call failed.
    pub open spec fn stage(self) -> Stage {
        match self {
            OpenError::CudaInit => Stage::CudaInit,
            OpenError::Device { .. } => Stage::Device,
            OpenError::CudaContext => Stage::CudaContext,
            OpenError::Open { .. } => Stage::Open,
            OpenError::Capabilities { .. } => Stage::Capabilities,
            OpenError::Preset { .. } => Stage::Preset,
            OpenError::Initialize { .. } => Stage::Initialize,
            OpenError::Input { slot, .. } => Stage::Input { slot },
            OpenError::Bitstream { slot, .. } => Stage::Bitstream { slot },
        }
    }

    /// The error in words.
    pub open spec fn text(self) -> Seq<char> {
        match self {
            OpenError::CudaInit => "cuInit failed"@,
            OpenError::Device { gpu_index } => "cuDeviceGet failed for GPU "@ + text::dec(
                gpu_index as nat,
            ),
            OpenError::CudaContext => "cuCtxCreate failed"@,
            OpenError::Open { status } => "NvEncOpenEncodeSessionEx failed: "@ + text::dec(
                status as nat,
            ),
            OpenError::Capabilities { why } => why.text(),
            OpenError::Preset { status } => "NvEncGetEncodePresetConfigEx failed: "@ + text::dec(
                status as nat,
            ),
            OpenError::Initialize { status } => "NvEncInitializeEncoder failed: "@ + text::dec(
                status as nat,
            ),
            OpenError::Input { slot, status } => "NvEncCreateInputBuffer (slot "@ + text::dec(
                slot as nat,
            ) + ") failed: "@ + text::dec(status as nat),
            OpenError::Bitstream { slot, status } => "NvEncCreateBitstreamBuffer (slot "@
                + text::dec(slot as nat) + ") failed: "@ + text::dec(status as nat),
        }
    }

    /// The error in words.
    pub fn message(&self) -> (s: String)
        ensures
            s@ == self.text(),
    {
        let mut out: String = String::new();
        match self {
            OpenError::CudaInit => {
                out.append("cuInit failed");
            },
            OpenError::Device { gpu_index } => {
                out.append("cuDeviceGet failed for GPU ");
                push_dec(&mut out, *gpu_index as u128);
            },
            OpenError::CudaContext => {
                out.append("cuCtxCreate failed");
            },
            OpenError::Open { status } => {
                out.append("NvEncOpenEncodeSessionEx failed: ");
                push_dec(&mut out, *status as u128);
            },
            OpenError::Capabilities { why } => {
                return why.message();
            },
            OpenError::Preset { status } => {
                out.append("NvEncGetEncodePresetConfigEx failed: ");
                push_dec(&mut out, *status as u128);
            },
            OpenError::Initialize { status } => {
                out.append("NvEncInitializeEncoder failed: ");
                push_dec(&mut out, *status as u128);
            },
            OpenError::Input { slot, status } => {
                out.append("NvEncCreateInputBuffer (slot ");
                push_dec(&mut out, *slot as u128);
                out.append(") failed: ");
                push_dec(&mut out, *status as u128);
            },
            OpenError::Bitstream { slot, status } => {
                out.append("NvEncCreateBitstreamBuffer (slot ");
                push_dec(&mut out, *slot as u128);
                out.append(") failed: ");
                push_dec(&mut out, *status as u128);
            },
        }
        assert(out@ =~= self.text());
        out
    }
}

/// The stage after one that succeeded.
pub open spec fn stage_after(s: Stage) -> Stage {
    match s {
        Stage::CudaInit => Stage::Device,
        Stage::Device => Stage::CudaContext,
        Stage::CudaContext => Stage::Open,
        Stage::Open => Stage::Capabilities,
        Stage::Capabilities => Stage::Preset,
        Stage::Preset => Stage::Initialize,
        Stage::Initialize => Stage::Input { slot: 0 },
        Stage::Input { slot } => Stage::Bitstream { slot },
        Stage::Bitstream { slot } => if slot + 1 < RING_SIZE {
            Stage::Input { slot: (slot + 1) as usize }
        } else {
            Stage::Ready
        },
        Stage::Ready => Stage::Ready,
    }
}

/// The stage after one that succeeded.
pub fn next_stage(s: Stage) -> (t: Stage)
    ensures
        t == stage_after(s),
{
    match s {
        Stage::CudaInit => Stage::Device,
        Stage::Device => Stage::CudaContext,
        Stage::CudaContext => Stage::Open,
        Stage::Open => Stage::Capabilities,
        Stage::Capabilities => Stage::Preset,
        Stage::Preset => Stage::Initialize,
        Stage::Initialize => Stage::Input { slot: 0 },
        Stage::Input { slot } => Stage::Bitstream { slot },
        Stage::Bitstream { slot } => if slot < RING_SIZE - 1 {
            Stage::Input { slot: slot + 1 }
        } else {
            Stage::Ready
        },
        Stage::Ready => Stage::Ready,
    }
}

/// The buffers of a ring that has `inputs` surfaces and `outputs` bitstream
/// buffers, from the last slot to the first.
pub open spec fn ring_buffers(inputs: nat, outputs: nat) -> Seq<Release>
    decreases inputs,
{
    if inputs == 0 {
        Seq::empty()
    } else {
        let slot = (inputs - 1) as usize;
        seq![Release::Input { slot }] + (if inputs - 1 < outputs {
            seq![Release::Bitstream { slot }]
        } else {
            Seq::empty()
        }) + ring_buffers((inputs - 1) as nat, outputs)
    }
}

/// Surfaces that exist when a stage is reached.
pub open spec fn inputs_at(s: Stage) -> nat {
    match s {
        Stage::Input { slot } => slot as nat,
        Stage::Bitstream { slot } => slot as nat + 1,
        Stage::Ready => RING_SIZE as nat,
        _ => 0,
    }
}

/// Bitstream buffers that exist when a stage is reached.
pub open spec fn outputs_at(s: Stage) -> nat {
    match s {
        Stage::Input { slot } => slot as nat,
        Stage::Bitstream { slot } => slot as nat,
        Stage::Ready => RING_SIZE as nat,
        _ => 0,
    }
}

/// What is given back when an attempt ends at a stage, and in which order.
pub open spec fn unwound(s: Stage) -> Seq<Release> {
    match s {
        Stage::CudaInit | Stage::Device | Stage::CudaContext => Seq::empty(),
        Stage::Open => seq![Release::Context],
        _ => ring_buffers(inputs_at(s), outputs_at(s)) + seq![Release::Encoder, Release::Context],
    }
}

/// Append a ring's buffers, from the last slot to the first.
fn push_ring(out: &mut Vec<Release>, inputs: usize, outputs: usize)
    ensures
        final(out)@ == old(out)@ + ring_buffers(inputs as nat, outputs as nat),
{
    let ghost before = out@;
    let mut left: usize = inputs;
    while left > 0
        invariant
            left <= inputs,
            out@ + ring_buffers(left as nat, outputs as nat) == before + ring_buffers(
                inputs as nat,
                outputs as nat,
            ),
        decreases left,
    {
        let ghost was = out@;
        let slot: usize = left - 1;
        out.push(Release::Input { slot });
        if slot < outputs {
            out.push(Release::Bitstream { slot });
        }
        proof {
            assert(was + ring_buffers(left as nat, outputs as nat) =~= out@ + ring_buffers(
                slot as nat,
                outputs as nat,
            ));
        }
        left = slot;
    }
    assert(out@ + ring_buffers(0, outputs as nat) =~= out@);
}

/// What to give back when opening failed, in order. The slot of a failed
/// buffer is one of the ring's.
pub fn unwind(e: &OpenError) -> (r: Vec<Release>)
    requires
        e matches OpenError::Input { slot, .. } ==> slot < RING_SIZE,
        e matches OpenError::Bitstream { slot, .. } ==> slot < RING_SIZE,
    ensures
        r@ == unwound(e.stage()),
{
    let mut out: Vec<Release> = Vec::new();
    match e {
        OpenError::CudaInit | OpenError::Device { .. } | OpenError::CudaContext => {
            return out;
        },
        OpenError::Open { .. } => {
            out.push(Release::Context);
            assert(out@ =~= seq![Release::Context]);
            return out;
        },
        OpenError::Input { slot, .. } => {
            push_ring(&mut out, *slot, *slot);
        },
        OpenError::Bitstream { slot, .. } => {
            push_ring(&mut out, *slot + 1, *slot);
        },
        _ => {},
    }
    out.push(Release::Encoder);
    out.push(Release::Context);
    assert(out@ =~= unwound(e.stage()));
    out
}

/// What to give back when a session is closed, in order.
pub fn close() -> (r: Vec<Release>)
    ensures
        r@ == unwound(Stage::Ready),
{
    let mut out: Vec<Release> = Vec::new();
    push_ring(&mut out, RING_SIZE, RING_SIZE);
    out.push(Release::Encoder);
    out.push(Release::Context);
    assert(out@ =~= unwound(Stage::Ready));
    out
}

/// Whether an object exists when a stage is reached.
pub open spec fn exists_at(s: Stage, r: Release) -> bool {
    match r {
        Release::Input { slot } => slot < inputs_at(s),
        Release::Bitstream { slot } => slot < outputs_at(s),
        Release::Encoder => !(s is CudaInit || s is Device || s is CudaContext || s is Open),
        Release::Context => !(s is CudaInit || s is Device || s is CudaContext),
    }
}

/// What the call of a stage brings into being.
pub open spec fn brings(s: Stage, r: Release) -> bool {
    match s {
        Stage::CudaContext => r == Release::Context,
        Stage::Open => r == Release::Encoder,
        Stage::Input { slot } => r == (Release::Input { slot }),
        Stage::Bitstream { slot } => r == (Release::Bitstream { slot }),
        _ => false,
    }
}

/// What exists at a stage is what the calls before it brought.
pub proof fn stages_add_what_their_call_brings(s: Stage, r: Release)
    requires
        s matches Stage::Input { slot } ==> slot < RING_SIZE,
        s matches Stage::Bitstream { slot } ==> slot < RING_SIZE,
    ensures
        exists_at(stage_after(s), r) <==> exists_at(s, r) || brings(s, r),
        !exists_at(Stage::CudaInit, r),
{
}

proof fn ring_buffers_hold(inputs: nat, outputs: nat)
    requires
        outputs <= inputs,
        inputs <= RING_SIZE,
    ensures
        ring_buffers(inputs, outputs).no_duplicates(),
        forall|r: Release| #[trigger]
            ring_buffers(inputs, outputs).contains(r) <==> match r {
                Release::Input { slot } => slot < inputs,
                Release::Bitstream { slot } => slot < outputs,
                _ => false,
            },
    decreases inputs,
{
    let all = ring_buffers(inputs, outputs);
    if inputs > 0 {
        let n = (inputs - 1) as nat;
        let slot = n as usize;
        // Fewer outputs belong to the slots below.
        let below: nat = if outputs > n {
            n
        } else {
            outputs
        };
        ring_buffers_agree(n, outputs, below);
        ring_buffers_hold(n, below);
        let rest = ring_buffers(n, below);
        let head = if n < outputs {
            seq![Release::Input { slot }, Release::Bitstream { slot }]
        } else {
            seq![Release::Input { slot }]
        };
        assert(all =~= head + rest);
        assert(!rest.contains(Release::Input { slot }));
        assert(!rest.contains(Release::Bitstream { slot }));
        assert forall|i: int, j: int| 0 <= i < all.len() && 0 <= j < all.len() && i
            != j implies all[i] != all[j] by {
            let k = head.len() as int;
            if i >= k && j >= k {
                assert(all[i] == rest[i - k] && all[j] == rest[j - k]);
            } else if i >= k {
                assert(rest.contains(rest[i - k]));
            } else if j >= k {
                assert(rest.contains(rest[j - k]));
            }
        }
        assert forall|r: Release| #[trigger] all.contains(r) <==> match r {
            Release::Input { slot } => slot < inputs,
            Release::Bitstream { slot } => slot < outputs,
            _ => false,
        } by {
            let k = head.len() as int;
            if all.contains(r) {
                let i = choose|i: int| 0 <= i < all.len() && all[i] == r;
                if i >= k {
                    assert(rest[i - k] == r);
                    assert(rest.contains(r));
                }
            }
            if rest.contains(r) {
                let i = choose|i: int| 0 <= i < rest.len() && rest[i] == r;
                assert(all[i + k] == r);
            }
            if r == (Release::Input { slot }) {
                assert(all[0] == r);
            }
            if n < outputs && r == (Release::Bitstream { slot }) {
                assert(all[1] == r);
            }
        }
    }
}

proof fn ring_buffers_agree(inputs: nat, a: nat, b: nat)
    requires
        a == b || (a >= inputs && b >= inputs),
    ensures
        ring_buffers(inputs, a) == ring_buffers(inputs, b),
    decreases inputs,
{
    if inputs > 0 {
        ring_buffers_agree((inputs - 1) as nat, a, b);
    }
}

/// A failed attempt leaks nothing and gives nothing back twice: what is given
/// back is what exists, each object once.
pub proof fn a_failed_attempt_leaks_nothing(s: Stage)
    requires
        s matches Stage::Input { slot } ==> slot < RING_SIZE,
        s matches Stage::Bitstream { slot } ==> slot < RING_SIZE,
    ensures
        unwound(s).no_duplicates(),
        forall|r: Release| #[trigger] unwound(s).contains(r) <==> exists_at(s, r),
{
    let all = unwound(s);
    match s {
        Stage::CudaInit | Stage::Device | Stage::CudaContext => {},
        Stage::Open => {
            assert(all[0] == Release::Context);
        },
        _ => {
            ring_buffers_hold(inputs_at(s), outputs_at(s));
            let ring = ring_buffers(inputs_at(s), outputs_at(s));
            let k = ring.len() as int;
            assert(all[k] == Release::Encoder);
            assert(all[k + 1] == Release::Context);
            assert forall|i: int, j: int| 0 <= i < all.len() && 0 <= j < all.len() && i
                != j implies all[i] != all[j] by {
                if i < k {
                    assert(ring.contains(ring[i]));
                }
                if j < k {
                    assert(ring.contains(ring[j]));
                }
            }
            assert forall|r: Release| #[trigger] all.contains(r) <==> exists_at(s, r) by {
                if all.contains(r) {
                    let i = choose|i: int| 0 <= i < all.len() && all[i] == r;
                    if i < k {
                        assert(ring[i] == r);
                        assert(ring.contains(r));
                    }
                }
                if ring.contains(r) {
                    let i = choose|i: int| 0 <= i < ring.len() && ring[i] == r;
                    assert(all[i] == r);
                }
            }
        },
    }
}

/// The encoder outlives its buffers and the context outlives the encoder.
pub proof fn owners_go_last(s: Stage, i: int)
    requires
        s matches Stage::Input { slot } ==> slot < RING_SIZE,
        s matches Stage::Bitstream { slot } ==> slot < RING_SIZE,
        0 <= i < unwound(s).len(),
    ensures
        unwound(s)[i] == Release::Context <==> i == unwound(s).len() - 1,
        unwound(s)[i] == Release::Encoder ==> i == unwound(s).len() - 2,
{
    match s {
        Stage::CudaInit | Stage::Device | Stage::CudaContext | Stage::Open => {},
        _ => {
            ring_buffers_hold(inputs_at(s), outputs_at(s));
            let ring = ring_buffers(inputs_at(s), outputs_at(s));
            if i < ring.len() {
                assert(unwound(s)[i] == ring[i]);
                assert(ring.contains(ring[i]));
            }
        },
    }
}

/// Place of a stage in the order of the calls.
pub open spec fn place(s: Stage) -> int {
    match s {
        Stage::CudaInit => 0,
        Stage::Device => 1,
        Stage::CudaContext => 2,
        Stage::Open => 3,
        Stage::Capabilities => 4,
        Stage::Preset => 5,
        Stage::Initialize => 6,
        Stage::Input { slot } => 7 + 2 * slot,
        Stage::Bitstream { slot } => 8 + 2 * slot,
        Stage::Ready => 39,
    }
}

/// No call is skipped or made twice: every stage leads to the one after it,
/// through a surface and a bitstream buffer for each of the sixteen slots, to
/// the open session.
pub proof fn no_call_is_skipped(s: Stage)
    requires
        s matches Stage::Input { slot } ==> slot < RING_SIZE,
        s matches Stage::Bitstream { slot } ==> slot < RING_SIZE,
    ensures
        s != Stage::Ready ==> place(stage_after(s)) == place(s) + 1,
        s == Stage::Ready ==> stage_after(s) == Stage::Ready,
        stage_after(s) == Stage::Ready ==> s == Stage::Ready || s == (Stage::Bitstream {
            slot: 15,
        }),
{
}

/// An error is one of the stage whose call failed.
pub proof fn an_error_belongs_to_its_stage(e: OpenError)
    ensures
        e.stage() is CudaInit <==> e is CudaInit,
        e.stage() is Device <==> e is Device,
        e.stage() is CudaContext <==> e is CudaContext,
        e.stage() is Open <==> e is Open,
        e.stage() is Capabilities <==> e is Capabilities,
        e.stage() is Preset <==> e is Preset,
        e.stage() is Initialize <==> e is Initialize,
        e matches OpenError::Input { slot, .. } ==> e.stage() == (Stage::Input { slot }),
        e matches OpenError::Bitstream { slot, .. } ==> e.stage() == (Stage::Bitstream { slot }),
        e.stage() != Stage::Ready,
{
}

} // verus!
