//! The render loop: a two-state machine driven by per-frame input events.
//!
//! Each iteration while `Running` first scans the frame's events; a close
//! request or the escape key terminates the loop before anything else of the
//! iteration happens.  Otherwise the clock advances by the fixed step, the
//! new phases are written into the drawable's scalar slots, and one
//! clear-draw-present cycle is issued.  The application performs the device
//! work: it polls the real events, hands them in as plain values, and carries
//! out the returned frame commands; a failed draw submission is fatal and
//! ends the loop at once.

use vstd::prelude::*;

use crate::clock::{spec_advance_n, spec_advance_phase, AnimationClock, PHASE_SCALE};
use crate::drawable::Drawable;
use crate::error::FlowError;

verus! {

/// The key code the loop treats as the escape key.
pub const ESCAPE_KEY_CODE: u32 = 27;

/// One discrete input event of a frame, as the windowing collaborator
/// reports it.  The loop reacts only to `CloseRequested` and to
/// `KeyDown(ESCAPE_KEY_CODE)`; everything else is `KeyDown` of another key
/// or `Other`, and is ignored.
#[derive(Clone, Copy, PartialEq, Eq, Structural, Debug)]
pub enum InputEvent {
    KeyDown(u32),
    CloseRequested,
    Other,
}

/// The two states of the loop.
#[derive(Clone, Copy, PartialEq, Eq, Structural, Debug)]
pub enum LoopState {
    Running,
    Terminated,
}

/// The clear values issued at the head of every frame, in thousandths (the
/// engine state is exact integers; the application divides by 1000 for the
/// backend): color `(0.3, 0.3, 0.3, 1.0)`, depth `1.0`, stencil `0`.
#[derive(Clone, Copy, PartialEq, Eq, Structural, Debug)]
pub struct ClearParams {
    pub red_milli: u32,
    pub green_milli: u32,
    pub blue_milli: u32,
    pub alpha_milli: u32,
    pub depth_milli: u32,
    pub stencil: u32,
}

/// The fixed clear values of the loop.
pub open spec fn spec_clear_params() -> ClearParams {
    ClearParams {
        red_milli: 300u32,
        green_milli: 300u32,
        blue_milli: 300u32,
        alpha_milli: 1000u32,
        depth_milli: 1000u32,
        stencil: 0u32,
    }
}

/// What the application must do for one running frame, in order: clear with
/// these values, upload the two offsets, draw the batch, present.
#[derive(Clone, Copy, PartialEq, Eq, Structural, Debug)]
pub struct FrameCommands {
    pub clear: ClearParams,
    pub offset0: u64,
    pub offset1: u64,
}

/// `e` signals termination: a close request or the escape key.
pub open spec fn event_requests_stop(e: InputEvent) -> bool {
    e is CloseRequested || e == InputEvent::KeyDown(ESCAPE_KEY_CODE)
}

/// Some event of the frame signals termination.
pub open spec fn spec_should_stop(events: Seq<InputEvent>) -> bool {
    exists|i: int| 0 <= i < events.len() && event_requests_stop(events[i])
}

/// Whether the frame's events ask the loop to terminate.
pub fn should_stop(events: &Vec<InputEvent>) -> (r: bool)
    ensures
        r == spec_should_stop(events@),
{
    let mut i: usize = 0;
    while i < events.len()
        invariant
            0 <= i <= events@.len(),
            forall|j: int| 0 <= j < i ==> !event_requests_stop(events@[j]),
        decreases events@.len() - i,
    {
        let stop = match events[i] {
            InputEvent::CloseRequested => true,
            InputEvent::KeyDown(code) => code == ESCAPE_KEY_CODE,
            InputEvent::Other => false,
        };
        if stop {
            return true;
        }
        i += 1;
    }
    false
}

/// One iteration of the loop, given the frame's events.
///
/// If any event requests termination the loop transitions to `Terminated`
/// before this iteration's clock advance, offset write, clear, draw and
/// present: nothing changes and no commands are issued.  Otherwise the clock
/// advances by `step`, the new phases land in the drawable's scalar slots,
/// and the returned commands carry the fixed clear values and the new
/// offsets for one draw-present cycle.
pub fn frame(
    drawable: &mut Drawable,
    clock: &mut AnimationClock,
    events: &Vec<InputEvent>,
    step: u64,
) -> (r: (LoopState, Option<FrameCommands>))
    requires
        old(drawable).wf(),
        old(clock).wf(),
        0 < step < PHASE_SCALE,
    ensures
        final(drawable).wf(),
        final(clock).wf(),
        spec_should_stop(events@) ==> {
            &&& r.0 is Terminated
            &&& r.1 is None
            &&& *final(drawable) == *old(drawable)
            &&& *final(clock) == *old(clock)
        },
        !spec_should_stop(events@) ==> {
            &&& r.0 is Running
            &&& final(clock).cycle0 == spec_advance_phase(
                old(clock).cycle0 as int,
                step as int,
            )
            &&& final(clock).cycle1 == spec_advance_phase(
                old(clock).cycle1 as int,
                step as int,
            )
            &&& final(drawable).params.offset0 == final(clock).cycle0
            &&& final(drawable).params.offset1 == final(clock).cycle1
            &&& final(drawable).params.color == old(drawable).params.color
            &&& final(drawable).params.flow == old(drawable).params.flow
            &&& final(drawable).params.noise == old(drawable).params.noise
            &&& final(drawable).mesh == old(drawable).mesh
            &&& final(drawable).program == old(drawable).program
            &&& r.1 == Some(FrameCommands {
                clear: spec_clear_params(),
                offset0: final(clock).cycle0,
                offset1: final(clock).cycle1,
            })
        },
{
    if should_stop(events) {
        (LoopState::Terminated, None)
    } else {
        clock.advance(step);
        let offset0 = clock.cycle0;
        let offset1 = clock.cycle1;
        drawable.set_offsets(offset0, offset1);
        let commands = FrameCommands {
            clear: ClearParams {
                red_milli: 300,
                green_milli: 300,
                blue_milli: 300,
                alpha_milli: 1000,
                depth_milli: 1000,
                stencil: 0,
            },
            offset0,
            offset1,
        };
        (LoopState::Running, Some(commands))
    }
}

/// A draw submission that failed is fatal: it ends the loop at once with a
/// `DrawError` carrying the backend's diagnostic, instead of continuing with
/// a stale frame.
pub fn absorb_draw_outcome(draw_ok: bool, diagnostic: String) -> (r: Result<LoopState, FlowError>)
    ensures
        draw_ok <==> (r matches Ok(s) && s is Running),
        !draw_ok <==> (r matches Err(e) && e matches FlowError::DrawError(d) && d@ == diagnostic@),
{
    if draw_ok {
        Ok(LoopState::Running)
    } else {
        Err(FlowError::DrawError(diagnostic))
    }
}

/// The outcome of running the loop over a script of frames: the state the
/// loop ended in and how many frames were drawn and presented.
#[derive(Clone, Copy, PartialEq, Eq, Structural, Debug)]
pub struct ScriptOutcome {
    pub state: LoopState,
    pub frames_presented: usize,
}

/// Run the loop over a script: entry `i` of `script` holds the events the
/// windowing collaborator delivers on iteration `i`.
///
/// Frames are drawn for every iteration before the first one whose events
/// request termination; that iteration terminates the loop without drawing,
/// and later entries are never looked at.  A script without a termination
/// request runs to its end with the loop still `Running`.  The clock ends
/// exactly `frames_presented` steps ahead, and the drawable's scalar slots
/// hold the phases of the last drawn frame (or their initial values if no
/// frame ran); nothing else of the drawable changes.
pub fn run_script(
    drawable: &mut Drawable,
    clock: &mut AnimationClock,
    script: &Vec<Vec<InputEvent>>,
    step: u64,
) -> (r: ScriptOutcome)
    requires
        old(drawable).wf(),
        old(clock).wf(),
        0 < step < PHASE_SCALE,
    ensures
        final(drawable).wf(),
        final(clock).wf(),
        r.frames_presented <= script@.len(),
        forall|i: int| 0 <= i < r.frames_presented ==> !spec_should_stop(script@[i]@),
        r.frames_presented < script@.len() ==> {
            &&& spec_should_stop(script@[r.frames_presented as int]@)
            &&& r.state is Terminated
        },
        r.frames_presented == script@.len() ==> r.state is Running,
        final(clock).cycle0 == spec_advance_n(
            old(clock).cycle0 as int,
            step as int,
            r.frames_presented as nat,
        ),
        final(clock).cycle1 == spec_advance_n(
            old(clock).cycle1 as int,
            step as int,
            r.frames_presented as nat,
        ),
        r.frames_presented > 0 ==> {
            &&& final(drawable).params.offset0 == final(clock).cycle0
            &&& final(drawable).params.offset1 == final(clock).cycle1
        },
        r.frames_presented == 0 ==> final(drawable).params.offset0 == old(
            drawable,
        ).params.offset0 && final(drawable).params.offset1 == old(drawable).params.offset1,
        final(drawable).params.color == old(drawable).params.color,
        final(drawable).params.flow == old(drawable).params.flow,
        final(drawable).params.noise == old(drawable).params.noise,
        final(drawable).mesh == old(drawable).mesh,
        final(drawable).program == old(drawable).program,
{
    let ghost clock0 = *clock;
    let ghost drawable0 = *drawable;
    let mut i: usize = 0;
    while i < script.len()
        invariant
            clock0 == *old(clock),
            drawable0 == *old(drawable),
            0 <= i <= script@.len(),
            drawable.wf(),
            clock.wf(),
            0 < step < PHASE_SCALE,
            forall|j: int| 0 <= j < i ==> !spec_should_stop(script@[j]@),
            clock.cycle0 == spec_advance_n(clock0.cycle0 as int, step as int, i as nat),
            clock.cycle1 == spec_advance_n(clock0.cycle1 as int, step as int, i as nat),
            i > 0 ==> drawable.params.offset0 == clock.cycle0 && drawable.params.offset1
                == clock.cycle1,
            i == 0 ==> drawable.params.offset0 == drawable0.params.offset0
                && drawable.params.offset1 == drawable0.params.offset1,
            drawable.params.color == drawable0.params.color,
            drawable.params.flow == drawable0.params.flow,
            drawable.params.noise == drawable0.params.noise,
            drawable.mesh == drawable0.mesh,
            drawable.program == drawable0.program,
        decreases script@.len() - i,
    {
        let (state, _commands) = frame(drawable, clock, &script[i], step);
        match state {
            LoopState::Terminated => {
                return ScriptOutcome { state: LoopState::Terminated, frames_presented: i };
            },
            LoopState::Running => {
                // The application would clear, draw and present here with
                // `commands`; the simulation only tracks the state.
            },
        }
        i += 1;
    }
    ScriptOutcome { state: LoopState::Running, frames_presented: i }
}

} // verus!
