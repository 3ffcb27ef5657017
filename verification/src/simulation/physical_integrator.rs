//! Module with a trait for implementing the 2/3-time-step-averaging numerical
//! integration technique.
//!
//! A full step advances the state by two partial steps of `2/3 · dt` each —
//! deliberately overshooting the nominal `dt` — and then overwrites the state
//! with the merge (componentwise average) of the mid-point and the
//! over-advanced end-point.  Stepping past the nominal time and averaging
//! back damps the overshoot ("bouncing") of stiff sail and rudder forces
//! near a sign flip; it trades some bias for reduced oscillation.

use vstd::prelude::*;
use crate::spec_avg;

verus! {

/// Hard error of a recursive state merge: an entity present in one side's
/// nested dataset has no counterpart in the other side's, so the two states
/// being merged do not describe the same logical entity set.
#[derive(Clone, Copy, PartialEq, Eq, Structural, Debug)]
pub struct StructuralMismatch {
    /// Id of an entity that has no counterpart.
    pub missing_id: u64,
}

/// Largest time delta a full step accepts.
pub const MAX_TIME_STEP: i64 = 0x3fff_ffff_ffff_ffff;

/// Two thirds of a non-negative time delta, rounded down.
pub open spec fn spec_two_thirds(dt: int) -> int {
    (2 * dt) / 3
}

/// The sub-step length of the protocol: `2/3 · dt`, rounded down.
pub fn two_thirds(dt: i64) -> (r: i64)
    requires
        0 <= dt <= MAX_TIME_STEP,
    ensures
        r == spec_two_thirds(dt as int),
        0 <= r <= dt,
{
    (dt * 2) / 3
}

/// On a field that one partial step advances linearly by its own `dt`, the
/// protocol's two sub-steps land at `+2/3 · dt` and `+4/3 · dt` past the
/// start, and the average of those two points nets exactly `dt` — whenever
/// `dt` is a multiple of 3 fixed-point units, so that the sub-step is exact.
pub proof fn lemma_two_thirds_protocol_nets_dt(x: int, dt: int)
    requires
        0 <= dt,
        dt % 3 == 0,
    ensures
        spec_avg(x + spec_two_thirds(dt) + spec_two_thirds(dt), x + spec_two_thirds(dt)) == x + dt,
{
    let sub = spec_two_thirds(dt);
    assert(sub == 2 * (dt / 3)) by {
        assert((2 * dt) / 3 == 2 * (dt / 3) + (2 * (dt % 3)) / 3) by (nonlinear_arith);
    }
    assert(spec_avg(x + sub + sub, x + sub) == x + dt) by {
        assert((2 * x + 3 * sub) / 2 == x + (3 * sub) / 2) by (nonlinear_arith);
        assert((3 * (2 * (dt / 3))) / 2 == 3 * (dt / 3)) by (nonlinear_arith);
    }
}

/// The two-phase stepping and reconciliation protocol.  Generic over the
/// entity kind's read-only configuration (`STATIC`) and the externally
/// supplied time-varying environment (`DYNAMIC`).  An implementer supplies
/// the two primitives `partial_step` and `average_with_other_state` together
/// with their specification functions; `full_step` is built once on top of
/// them and is the only method meant to be called by tick drivers.
pub trait PhysicalIntegrator<STATIC, DYNAMIC>: Sized + View {
    /// Well-formed state: every scalar within its bound.
    spec fn inv(v: Self::V) -> bool;

    /// When a partial step of `dt` from `v` stays exact and within bounds.
    spec fn step_ok(v: Self::V, dt: int, static_: STATIC, dynamic: DYNAMIC) -> bool;

    /// The state one partial step of `dt` ahead of `v`.
    spec fn stepped(v: Self::V, dt: int, static_: STATIC, dynamic: DYNAMIC) -> Self::V;

    /// Whether `v` and `other` describe the same entity set, so that merging
    /// them succeeds.
    spec fn merge_ok(v: Self::V, other: Self::V) -> bool;

    /// The merge of two snapshots of the same entity: scalar fields are
    /// averaged, composite fields merged recursively.
    spec fn merged(v: Self::V, other: Self::V) -> Self::V;

    /// An owned snapshot of the state.
    fn duplicate(&self) -> (r: Self)
        ensures
            r@ == self@,
    ;

    /// Regular physics step: advances the state by exactly `dt` of simulated
    /// time.  Deterministic given identical inputs; must not itself recurse
    /// into `full_step`.
    fn partial_step(&mut self, dt: i64, static_: &STATIC, dynamic: &DYNAMIC)
        requires
            Self::inv(old(self)@),
            Self::step_ok(old(self)@, dt as int, *static_, *dynamic),
        ensures
            Self::inv(final(self)@),
            final(self)@ == Self::stepped(old(self)@, dt as int, *static_, *dynamic),
    ;

    /// Average self with corresponding fields of `other`.  A mismatch in
    /// nested dataset shape is an error and leaves the state untouched, never
    /// a best-effort partial merge.
    fn average_with_other_state(&mut self, other: Self, static_: &STATIC, dynamic: &DYNAMIC) -> (r:
        Result<(), StructuralMismatch>)
        requires
            Self::inv(old(self)@),
            Self::inv(other@),
        ensures
            match r {
                Ok(()) => Self::merge_ok(old(self)@, other@) && final(self)@ == Self::merged(
                    old(self)@,
                    other@,
                ),
                Err(_) => !Self::merge_ok(old(self)@, other@) && final(self)@ == old(self)@,
            },
    ;

    /// Special method I made up, should prevent "bouncing".
    /// This is the only method that should be called outside of this trait:
    /// it advances by `2/3 · dt` twice and overwrites the state with the
    /// average of the mid-point and the over-advanced end-point.
    fn full_step(&mut self, dt: i64, static_: &STATIC, dynamic: &DYNAMIC) -> (r: Result<
        (),
        StructuralMismatch,
    >)
        requires
            Self::inv(old(self)@),
            0 <= dt <= MAX_TIME_STEP,
            Self::step_ok(old(self)@, spec_two_thirds(dt as int), *static_, *dynamic),
            Self::step_ok(
                Self::stepped(old(self)@, spec_two_thirds(dt as int), *static_, *dynamic),
                spec_two_thirds(dt as int),
                *static_,
                *dynamic,
            ),
        ensures
            ({
                let sub = spec_two_thirds(dt as int);
                let mid = Self::stepped(old(self)@, sub, *static_, *dynamic);
                let end = Self::stepped(mid, sub, *static_, *dynamic);
                match r {
                    Ok(()) => Self::merge_ok(end, mid) && final(self)@ == Self::merged(end, mid),
                    Err(_) => !Self::merge_ok(end, mid) && final(self)@ == end,
                }
            }),
    {
        let sub = two_thirds(dt);
        self.partial_step(sub, static_, dynamic);
        let self_clone = self.duplicate();
        self.partial_step(sub, static_, dynamic);
        self.average_with_other_state(self_clone, static_, dynamic)
    }
}

} // verus!
