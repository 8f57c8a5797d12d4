//! The animation clock: two phase accumulators half a cycle apart.
//!
//! A phase is a point in one repeating animation period.  The engine state is
//! exact, so a phase is carried as a tick count `t` standing for the fraction
//! `t / PHASE_SCALE` of the period; the application divides by
//! [`PHASE_SCALE`] when it uploads the value as a shader uniform.  Each frame
//! both accumulators grow by a fixed step and wrap by subtracting one full
//! period once they exceed it, which preserves the fractional part across the
//! seam.

use vstd::prelude::*;
use vstd::arithmetic::div_mod::{
    lemma_add_mod_noop, lemma_mod_multiples_vanish, lemma_small_mod,
};

verus! {

/// Number of ticks in one full animation period.
pub const PHASE_SCALE: u64 = 1_000_000_000;

/// Half a period: the distance the two accumulators keep between them.
pub const HALF_CYCLE: u64 = 500_000_000;

/// The reference per-frame step: 1/400 of a period per frame.
pub const DEFAULT_STEP: u64 = 2_500_000;

/// One advance of a single phase: grow by `step`, and wrap by subtracting a
/// full period once the sum exceeds it.
pub open spec fn spec_advance_phase(v: int, step: int) -> int {
    if v + step > PHASE_SCALE { v + step - PHASE_SCALE } else { v + step }
}

/// `n` advances of a single phase by the same step.
pub open spec fn spec_advance_n(v: int, step: int, n: nat) -> int
    decreases n,
{
    if n == 0 {
        v
    } else {
        spec_advance_phase(spec_advance_n(v, step, (n - 1) as nat), step)
    }
}

/// The point of the period a tick count stands for, with a full period
/// identified with zero.
pub open spec fn phase_residue(v: int) -> int {
    v % (PHASE_SCALE as int)
}

/// The distance from phase `a` forward to phase `b`, in ticks within one
/// period.
pub open spec fn phase_diff(a: int, b: int) -> int {
    (b - a) % (PHASE_SCALE as int)
}

/// Advance one phase accumulator by `step` ticks.
///
/// The result is `v + step` when that does not exceed a full period, and
/// `v + step - PHASE_SCALE` otherwise; it lies strictly inside `(0,
/// PHASE_SCALE)` unless the sum lands exactly on a period boundary.
pub fn advance_phase(v: u64, step: u64) -> (r: u64)
    requires
        v <= PHASE_SCALE,
        0 < step < PHASE_SCALE,
    ensures
        r == spec_advance_phase(v as int, step as int),
        r == if v + step > PHASE_SCALE { v + step - PHASE_SCALE } else { v + step },
        0 < r <= PHASE_SCALE,
        v + step != PHASE_SCALE ==> r < PHASE_SCALE,
{
    let sum: u64 = v + step;
    if sum > PHASE_SCALE {
        sum - PHASE_SCALE
    } else {
        sum
    }
}

/// The two phase accumulators driving the cross-fade, half a period apart.
#[derive(Clone, Copy, PartialEq, Eq, Structural, Debug)]
pub struct AnimationClock {
    pub cycle0: u64,
    pub cycle1: u64,
}

impl AnimationClock {
    /// Both accumulators stay within one period (the boundary value stands
    /// for a whole period, reached only when an advance lands exactly on it).
    pub open spec fn wf(self) -> bool {
        self.cycle0 <= PHASE_SCALE && self.cycle1 <= PHASE_SCALE
    }

    /// The accumulators start at zero and at half a period.
    pub fn new() -> (r: AnimationClock)
        ensures
            r.cycle0 == 0,
            r.cycle1 == HALF_CYCLE,
            r.wf(),
    {
        AnimationClock { cycle0: 0, cycle1: HALF_CYCLE }
    }

    /// Advance both accumulators by the same step.
    pub fn advance(&mut self, step: u64)
        requires
            old(self).wf(),
            0 < step < PHASE_SCALE,
        ensures
            final(self).cycle0 == spec_advance_phase(old(self).cycle0 as int, step as int),
            final(self).cycle1 == spec_advance_phase(old(self).cycle1 as int, step as int),
            final(self).wf(),
    {
        self.cycle0 = advance_phase(self.cycle0, step);
        self.cycle1 = advance_phase(self.cycle1, step);
    }
}

/// Advancing keeps a phase within one period, and the point of the period it
/// stands for moves by exactly `step`.
pub proof fn lemma_advance_residue(v: int, step: int)
    requires
        0 <= v <= PHASE_SCALE,
        0 < step < PHASE_SCALE,
    ensures
        0 < spec_advance_phase(v, step) <= PHASE_SCALE,
        phase_residue(spec_advance_phase(v, step)) == phase_residue(v + step),
{
    let m = PHASE_SCALE as int;
    if v + step > m {
        lemma_mod_multiples_vanish(-1, v + step, m);
        assert(-m + (v + step) == v + step - m);
    }
}

/// Advancing two phases by the same step keeps the distance between them:
/// each moves by `step` within the period, so their difference within the
/// period does not change.
pub proof fn lemma_advance_preserves_diff(a: int, b: int, step: int)
    requires
        0 <= a <= PHASE_SCALE,
        0 <= b <= PHASE_SCALE,
        0 < step < PHASE_SCALE,
    ensures
        phase_diff(spec_advance_phase(a, step), spec_advance_phase(b, step)) == phase_diff(a, b),
{
    let m = PHASE_SCALE as int;
    let a2 = spec_advance_phase(a, step);
    let b2 = spec_advance_phase(b, step);
    // b2 - a2 differs from b - a by a multiple of the period.
    if a + step > m && b + step <= m {
        lemma_mod_multiples_vanish(1, b - a, m);
        assert(m + (b - a) == b2 - a2);
    } else if a + step <= m && b + step > m {
        lemma_mod_multiples_vanish(-1, b - a, m);
        assert(-m + (b - a) == b2 - a2);
    }
}

/// Repeated advancing keeps a phase within one period, and after `n` frames
/// the phase stands for the point `(v + n * step) mod PHASE_SCALE` of the
/// period.
pub proof fn lemma_advance_n_residue(v: int, step: int, n: nat)
    requires
        0 <= v <= PHASE_SCALE,
        0 < step < PHASE_SCALE,
    ensures
        0 <= spec_advance_n(v, step, n) <= PHASE_SCALE,
        phase_residue(spec_advance_n(v, step, n)) == (v + n * step) % (PHASE_SCALE as int),
    decreases n,
{
    let m = PHASE_SCALE as int;
    if n == 0 {
    } else {
        let prev = spec_advance_n(v, step, (n - 1) as nat);
        lemma_advance_n_residue(v, step, (n - 1) as nat);
        lemma_advance_residue(prev, step);
        // residue(prev + step) == (residue(prev) + step) mod m
        lemma_add_mod_noop(prev, step, m);
        lemma_small_mod(step as nat, m as nat);
        lemma_add_mod_noop(v + (n - 1) * step, step, m);
        assert(v + (n - 1) * step + step == v + n * step) by (nonlinear_arith);
    }
}

/// Two accumulators advanced together by the same step for any number of
/// frames keep the distance between them; started at zero and at half a
/// period, they stay exactly half a period apart, wrap or no wrap.
pub proof fn lemma_half_cycle_apart(step: int, n: nat)
    requires
        0 < step < PHASE_SCALE,
    ensures
        phase_diff(spec_advance_n(0, step, n), spec_advance_n(HALF_CYCLE as int, step, n))
            == HALF_CYCLE,
    decreases n,
{
    let m = PHASE_SCALE as int;
    if n == 0 {
        lemma_small_mod(HALF_CYCLE as nat, m as nat);
    } else {
        let p0 = spec_advance_n(0, step, (n - 1) as nat);
        let p1 = spec_advance_n(HALF_CYCLE as int, step, (n - 1) as nat);
        lemma_half_cycle_apart(step, (n - 1) as nat);
        lemma_advance_n_residue(0, step, (n - 1) as nat);
        lemma_advance_n_residue(HALF_CYCLE as int, step, (n - 1) as nat);
        lemma_advance_preserves_diff(p0, p1, step);
    }
}

} // verus!
