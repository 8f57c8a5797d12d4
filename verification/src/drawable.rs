//! The parameter binding and the drawable batch.
//!
//! A drawable bundles one mesh, one compiled program and one parameter
//! binding.  The binding has exactly five named slots — three textures and
//! two scalar phase offsets — and assembly validates once, at construction,
//! that the program declares exactly those slots.  After that only the two
//! scalar slots ever change, once per frame.

use vstd::prelude::*;

use crate::clock::PHASE_SCALE;
use crate::error::FlowError;
use crate::geometry::Vertex;
use crate::shader::ProgramSource;
use crate::texture::TextureHandle;

verus! {

/// A named slot of the parameter binding.  The application maps each uniform
/// or attribute name the backend reports to one of the five slots, and
/// anything else to `Unknown`.
#[derive(Clone, Copy, PartialEq, Eq, Structural, Debug)]
pub enum SlotName {
    /// The color map, `t_Color`.
    Color,
    /// The flow-direction map, `t_Flow`.
    Flow,
    /// The noise map, `t_Noise`.
    Noise,
    /// The first phase offset, `f_Offset0`.
    Offset0,
    /// The second phase offset, `f_Offset1`.
    Offset1,
    /// A declared name that is none of the five.
    Unknown,
}

/// The declared slots are exactly the five of the binding: five names, each
/// of the five present (hence each exactly once and none unknown).
pub open spec fn binding_slots_match(declared: Seq<SlotName>) -> bool {
    &&& declared.len() == 5
    &&& declared.contains(SlotName::Color)
    &&& declared.contains(SlotName::Flow)
    &&& declared.contains(SlotName::Noise)
    &&& declared.contains(SlotName::Offset0)
    &&& declared.contains(SlotName::Offset1)
}

/// A linked, backend-compatible program: the selected source pair together
/// with the slot names the backend reports for the compiled program.
pub struct ProgramHandle {
    pub source: ProgramSource,
    pub declared_slots: Vec<SlotName>,
}

impl ProgramHandle {
    /// Package what came back from the device's compile and link step.
    pub fn from_compiled(source: ProgramSource, declared_slots: Vec<SlotName>) -> (r:
        ProgramHandle)
        ensures
            r.source == source,
            r.declared_slots == declared_slots,
    {
        ProgramHandle { source, declared_slots }
    }
}

/// How the backend's compile and link step for the selected source ended:
/// a program with its declared slot names, or a diagnostic from the stage
/// that failed.
pub enum BackendBuildOutcome {
    Built(Vec<SlotName>),
    CompileFailed(String),
    LinkFailed(String),
}

/// Turn the backend's build outcome into a program handle, or into the
/// fatal startup error of the failed stage: a compile failure is a
/// `CompileError` and a link failure a `LinkError`, each carrying the
/// backend's diagnostic text.
pub fn accept_backend_build(source: ProgramSource, outcome: BackendBuildOutcome) -> (r: Result<
    ProgramHandle,
    FlowError,
>)
    ensures
        match outcome {
            BackendBuildOutcome::Built(slots) => (r matches Ok(p) && p.source == source
                && p.declared_slots == slots),
            BackendBuildOutcome::CompileFailed(d) => (r matches Err(e)
                && e matches FlowError::CompileError(d2) && d2 == d),
            BackendBuildOutcome::LinkFailed(d) => (r matches Err(e)
                && e matches FlowError::LinkError(d2) && d2 == d),
        },
{
    match outcome {
        BackendBuildOutcome::Built(slots) => Ok(ProgramHandle {
            source,
            declared_slots: slots,
        }),
        BackendBuildOutcome::CompileFailed(d) => Err(FlowError::CompileError(d)),
        BackendBuildOutcome::LinkFailed(d) => Err(FlowError::LinkError(d)),
    }
}

/// The five named slots presented to every draw call: three write-once
/// textures and two per-frame scalar phase offsets (in ticks of
/// [`PHASE_SCALE`]).
pub struct ParamsBinding {
    pub color: TextureHandle,
    pub flow: TextureHandle,
    pub noise: TextureHandle,
    pub offset0: u64,
    pub offset1: u64,
}

impl ParamsBinding {
    pub open spec fn wf(self) -> bool {
        &&& self.color.wf()
        &&& self.flow.wf()
        &&& self.noise.wf()
        &&& self.offset0 <= PHASE_SCALE
        &&& self.offset1 <= PHASE_SCALE
    }
}

/// The validated association of one mesh, one program and one parameter
/// binding; immutable in topology, only the scalar slots change per frame.
pub struct Drawable {
    pub mesh: Vec<Vertex>,
    pub program: ProgramHandle,
    pub params: ParamsBinding,
}

/// Whether `declared` holds `slot`.
fn declared_contains(declared: &Vec<SlotName>, slot: SlotName) -> (r: bool)
    ensures
        r == declared@.contains(slot),
{
    let mut i: usize = 0;
    while i < declared.len()
        invariant
            0 <= i <= declared@.len(),
            forall|j: int| 0 <= j < i ==> declared@[j] != slot,
        decreases declared@.len() - i,
    {
        if declared[i] == slot {
            return true;
        }
        i += 1;
    }
    false
}

impl Drawable {
    pub open spec fn wf(self) -> bool {
        &&& binding_slots_match(self.program.declared_slots@)
        &&& self.params.wf()
    }

    /// Assemble a drawable from its parts, validating that the program
    /// declares exactly the five binding slots.
    ///
    /// Fails with `BindingMismatchError` exactly when the declared slots do
    /// not match — a programmer or asset error, fatal at startup.
    pub fn assemble(
        mesh: Vec<Vertex>,
        program: ProgramHandle,
        color: TextureHandle,
        flow: TextureHandle,
        noise: TextureHandle,
        initial_offsets: (u64, u64),
    ) -> (r: Result<Drawable, FlowError>)
        requires
            color.wf(),
            flow.wf(),
            noise.wf(),
            initial_offsets.0 <= PHASE_SCALE,
            initial_offsets.1 <= PHASE_SCALE,
        ensures
            match r {
                Ok(d) => {
                    &&& binding_slots_match(program.declared_slots@)
                    &&& d.wf()
                    &&& d.mesh == mesh
                    &&& d.program == program
                    &&& d.params.color == color
                    &&& d.params.flow == flow
                    &&& d.params.noise == noise
                    &&& d.params.offset0 == initial_offsets.0
                    &&& d.params.offset1 == initial_offsets.1
                },
                Err(e) => {
                    &&& e is BindingMismatchError
                    &&& !binding_slots_match(program.declared_slots@)
                },
            },
    {
        let ok = program.declared_slots.len() == 5
            && declared_contains(&program.declared_slots, SlotName::Color)
            && declared_contains(&program.declared_slots, SlotName::Flow)
            && declared_contains(&program.declared_slots, SlotName::Noise)
            && declared_contains(&program.declared_slots, SlotName::Offset0)
            && declared_contains(&program.declared_slots, SlotName::Offset1);
        if ok {
            Ok(Drawable {
                mesh,
                program,
                params: ParamsBinding {
                    color,
                    flow,
                    noise,
                    offset0: initial_offsets.0,
                    offset1: initial_offsets.1,
                },
            })
        } else {
            Err(FlowError::BindingMismatchError)
        }
    }

    /// Rewrite the two scalar slots for this frame; everything else of the
    /// drawable stays as it was.  Cheap and allocation-free.
    pub fn set_offsets(&mut self, offset0: u64, offset1: u64)
        requires
            old(self).wf(),
            offset0 <= PHASE_SCALE,
            offset1 <= PHASE_SCALE,
        ensures
            final(self).wf(),
            final(self).params.offset0 == offset0,
            final(self).params.offset1 == offset1,
            final(self).params.color == old(self).params.color,
            final(self).params.flow == old(self).params.flow,
            final(self).params.noise == old(self).params.noise,
            final(self).mesh == old(self).mesh,
            final(self).program == old(self).program,
    {
        self.params.offset0 = offset0;
        self.params.offset1 = offset1;
    }
}

} // verus!
