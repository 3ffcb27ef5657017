//! Class describing a flat object in fluid, such as a rudder or sail, may be
//! simplified.

use vstd::prelude::*;
use crate::average_scalar;
use crate::spec_avg;
use crate::SCALAR_LIMIT;
use crate::intv2::IntV2;
use super::physical_integrator::{PhysicalIntegrator, StructuralMismatch, spec_two_thirds};

verus! {

/// Read-only configuration of one flat object.
#[derive(Clone, Copy, PartialEq, Eq, Structural, Debug)]
pub struct FlatObjectStaticData {
    /// Area
    pub area: i64,
    /// Distance from pivot to center of pressure
    pub center_of_pressure: i64,
    /// Moment
    pub moment: i64,
    /// Angular drag
    pub angular_drag: i64,
    /// Fluid density
    pub fluid_density: i64,
}

/// Environment of one flat object for one tick.
#[derive(Clone, Copy, PartialEq, Eq, Structural, Debug)]
pub struct FlatObjectDynamicData {
    /// wrt. the pivot
    pub global_velocity: IntV2,
    pub global_angular_velocity: IntV2,
}

/// State of one flat object: its angle about the pivot and the rate of that
/// angle, both in fixed-point units.
#[derive(Clone, Copy, PartialEq, Eq, Structural, Debug)]
pub struct FlatObjectPhysicalIntegrator {
    pub angle: i64,
    pub angular_velocity: i64,
}

impl View for FlatObjectPhysicalIntegrator {
    type V = FlatObjectPhysicalIntegrator;

    open spec fn view(&self) -> FlatObjectPhysicalIntegrator {
        *self
    }
}

/// Both scalars within the scalar bound.
pub open spec fn flat_wf(v: FlatObjectPhysicalIntegrator) -> bool {
    &&& -SCALAR_LIMIT <= v.angle <= SCALAR_LIMIT
    &&& -SCALAR_LIMIT <= v.angular_velocity <= SCALAR_LIMIT
}

/// When one partial step of `dt` stays within bounds.
pub open spec fn flat_step_ok(v: FlatObjectPhysicalIntegrator, dt: int) -> bool {
    &&& 0 <= dt
    &&& -SCALAR_LIMIT <= v.angular_velocity * dt <= SCALAR_LIMIT
    &&& -SCALAR_LIMIT <= v.angle + v.angular_velocity * dt <= SCALAR_LIMIT
}

/// One partial step: the angle advances by the angular velocity over `dt`.
/// The torque that would change the angular velocity is folded in by the
/// owning entity between ticks, outside this object's own step.
pub open spec fn flat_stepped(
    v: FlatObjectPhysicalIntegrator,
    dt: int,
) -> FlatObjectPhysicalIntegrator {
    FlatObjectPhysicalIntegrator {
        angle: (v.angle + v.angular_velocity * dt) as i64,
        angular_velocity: v.angular_velocity,
    }
}

/// The merge of two snapshots: both scalars averaged componentwise.
pub open spec fn flat_merged(
    v: FlatObjectPhysicalIntegrator,
    other: FlatObjectPhysicalIntegrator,
) -> FlatObjectPhysicalIntegrator {
    FlatObjectPhysicalIntegrator {
        angle: spec_avg(v.angle as int, other.angle as int) as i64,
        angular_velocity: spec_avg(v.angular_velocity as int, other.angular_velocity as int) as i64,
    }
}

impl PhysicalIntegrator<FlatObjectStaticData, FlatObjectDynamicData> for FlatObjectPhysicalIntegrator {
    open spec fn inv(v: FlatObjectPhysicalIntegrator) -> bool {
        flat_wf(v)
    }

    open spec fn step_ok(
        v: FlatObjectPhysicalIntegrator,
        dt: int,
        static_: FlatObjectStaticData,
        dynamic: FlatObjectDynamicData,
    ) -> bool {
        flat_step_ok(v, dt)
    }

    open spec fn stepped(
        v: FlatObjectPhysicalIntegrator,
        dt: int,
        static_: FlatObjectStaticData,
        dynamic: FlatObjectDynamicData,
    ) -> FlatObjectPhysicalIntegrator {
        flat_stepped(v, dt)
    }

    open spec fn merge_ok(
        v: FlatObjectPhysicalIntegrator,
        other: FlatObjectPhysicalIntegrator,
    ) -> bool {
        true
    }

    open spec fn merged(
        v: FlatObjectPhysicalIntegrator,
        other: FlatObjectPhysicalIntegrator,
    ) -> FlatObjectPhysicalIntegrator {
        flat_merged(v, other)
    }

    fn duplicate(&self) -> (r: Self) {
        *self
    }

    fn partial_step(&mut self, dt: i64, static_: &FlatObjectStaticData, dynamic: &FlatObjectDynamicData) {
        self.angle = self.angle + self.angular_velocity * dt;
    }

    fn average_with_other_state(
        &mut self,
        other: Self,
        static_: &FlatObjectStaticData,
        dynamic: &FlatObjectDynamicData,
    ) -> (r: Result<(), StructuralMismatch>) {
        self.angle = average_scalar(self.angle, other.angle);
        self.angular_velocity = average_scalar(self.angular_velocity, other.angular_velocity);
        Ok(())
    }
}

/// With zero angular velocity a partial step moves nothing, and a full step
/// — two such sub-steps, then the merge of mid and end — reports the state
/// unchanged.
pub proof fn lemma_full_step_still_object(v: FlatObjectPhysicalIntegrator, dt: int)
    requires
        flat_wf(v),
        v.angular_velocity == 0,
        0 <= dt,
    ensures
        ({
            let sub = spec_two_thirds(dt);
            let mid = flat_stepped(v, sub);
            let end = flat_stepped(mid, sub);
            mid == v && end == v && flat_merged(end, mid) == v
        }),
{
}

/// With unit angular velocity a partial step advances the angle by exactly
/// its `dt`, so the two sub-steps overshoot to `4/3 · dt` past the start;
/// the merge of mid and end still nets exactly `dt` over the full step.
pub proof fn lemma_full_step_linear_increment(v: FlatObjectPhysicalIntegrator, dt: int)
    requires
        v.angular_velocity == 1,
        0 <= dt,
        dt % 3 == 0,
        -SCALAR_LIMIT <= v.angle,
        v.angle + 2 * dt <= SCALAR_LIMIT,
    ensures
        ({
            let sub = spec_two_thirds(dt);
            let mid = flat_stepped(v, sub);
            let end = flat_stepped(mid, sub);
            mid.angle == v.angle + sub && end.angle == v.angle + 2 * sub && flat_merged(
                end,
                mid,
            ).angle == v.angle + dt
        }),
{
    let sub = spec_two_thirds(dt);
    assert(sub == 2 * (dt / 3)) by {
        assert((2 * dt) / 3 == 2 * (dt / 3) + (2 * (dt % 3)) / 3) by (nonlinear_arith);
    }
    assert(0 <= sub <= dt);
    let mid = flat_stepped(v, sub);
    let end = flat_stepped(mid, sub);
    assert(mid.angle == v.angle + sub);
    assert(end.angle == v.angle + 2 * sub);
    crate::simulation::physical_integrator::lemma_two_thirds_protocol_nets_dt(
        v.angle as int,
        dt,
    );
}

} // verus!
