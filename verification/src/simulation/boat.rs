//! Physics simulation state for boats.

use vstd::prelude::*;
use vstd::pervasive::VecAdditionalExecFns;
use crate::average_iso;
use crate::average_scalar;
use crate::spec_average_iso;
use crate::spec_avg;
use crate::Iso;
use crate::SCALAR_LIMIT;
use crate::generic_ref::{
    lemma_spec_find_index_characterization,
    spec_find_index,
    spec_find_tuple,
    GenericDataset,
    GenericQuery,
    GenericRef,
};
use crate::intv2::IntV2;
use super::physical_integrator::{PhysicalIntegrator, StructuralMismatch};
use super::wind::Wind;

verus! {

/// Sheeting angle limit a new sail starts with.
pub const DEFAULT_SHEETING_ANGLE: i64 = 90;

/// Specification for a type of boat.
#[derive(Debug)]
pub struct BoatType {
    /// List of coordinates making up perimiter of hull
    pub perimeter: Vec<IntV2>,
    /// Distance from the center of the boat to the hull's center of lateral resistance without the rudder (+ is forward, - is aft)
    pub center_of_lateral_resistance: i64,
    /// Forward drag coefficient of the hull
    pub forward_drag: i64,
    /// Sideways drag coefficient of the hull
    pub sideways_drag: i64,
    /// Air drag (excluding sails, would include rest of rigging)
    pub air_drag: i64,
    /// Deepest part of hull
    pub max_draft: i64,
    /// Distance from center of boat to where the rudder pivot is (negative for most boats)
    pub rudder_pivot: i64,
    /// Rudder area
    pub rudder_area: i64,
    /// Distance from the rudder pivot to the rudder center of effort
    pub rudder_center_of_effort: i64,
    /// Length of the rudder, from the pivot aft
    pub rudder_len: i64,
    /// Net mass of entire boat
    pub mass: i64,
    /// Angular moment of entire boat
    pub moment: i64,
    /// Angular drag coefficient of the hull (without rudder)
    pub angular_drag: i64,
    /// Maximum hull hit-points
    pub max_hull_hp: i64,
    /// Maximum rudder hit-points
    pub max_rudder_hp: i64,
    /// Angle between the boat and the wind (apparent) where the boat is fastest upwind, used by the autopilot
    pub upwind_max_wind_angle: i64,
    /// Angle between the boat's momentum and the wind (apparent) where the boat is fastest upwind, used by the autopilot
    pub upwind_max_total_leeway: i64,
    /// Configuration of all the sails
    pub sails: GenericDataset<SailStatic>,
}

/// Read-only configuration of one sail.
#[derive(Clone, Copy, PartialEq, Eq, Structural, Debug)]
pub struct SailStatic {
    /// Area
    pub area: i64,
    /// Distance from the tack to the center of effort (from above)
    pub center_of_effort: i64,
    /// Distance between the tack and the center of the boat (+ is forward, - is aft)
    pub tack: i64,
    /// Length of the foot of the sail (only used for display purposes)
    pub foot_len: i64,
}

/// Live state of one sail.
#[derive(Clone, Copy, PartialEq, Eq, Structural, Debug)]
pub struct SailSaveState {
    /// Current angle relative to a line from the mast pointing straight aft, + = CCW, - = CW
    pub angle: i64,
    /// Maximum value of |angle|, always positive
    pub sheeting_angle: i64,
}

impl SailSaveState {
    /// Both scalars within the scalar bound.
    pub open spec fn wf(self) -> bool {
        &&& -SCALAR_LIMIT <= self.angle <= SCALAR_LIMIT
        &&& -SCALAR_LIMIT <= self.sheeting_angle <= SCALAR_LIMIT
    }

    /// The merge of two snapshots of the same sail: the live angle is
    /// averaged; the sheeting limit is configuration-like and is carried
    /// through from `self` unchanged.
    pub open spec fn spec_averaged(self, other: Self) -> Self {
        SailSaveState {
            angle: spec_avg(self.angle as int, other.angle as int) as i64,
            sheeting_angle: self.sheeting_angle,
        }
    }

    pub fn average_with_other_state(&mut self, other: &Self)
        requires
            old(self).wf(),
            other.wf(),
        ensures
            *final(self) == old(self).spec_averaged(*other),
            final(self).wf(),
    {
        self.angle = average_scalar(self.angle, other.angle);
    }
}

impl Default for SailSaveState {
    fn default() -> (r: Self)
        ensures
            r.angle == 0,
            r.sheeting_angle == DEFAULT_SHEETING_ANGLE,
    {
        Self { angle: 0, sheeting_angle: DEFAULT_SHEETING_ANGLE }
    }
}

/// Averaging two sails' live angles does not depend on the order of the
/// sides; only the configuration-like sheeting limit distinguishes the two
/// merge orders.
pub proof fn lemma_sail_average_commutative(a: SailSaveState, b: SailSaveState)
    ensures
        a.spec_averaged(b).angle == b.spec_averaged(a).angle,
{
}

/// Live state of one boat.
#[derive(Debug)]
pub struct BoatSaveState {
    /// Name of static boat type file (without .json)
    pub boat_type_name: String,
    /// Displacement, angle
    pub pos: Iso,
    /// Velocity, angular velocity
    pub vel: Iso,
    /// Rudder angle
    pub rudder_angle: i64,
    /// Rudder hit-points
    pub rudder_hp: bool,
    /// Hull hit-points
    pub hull_hp: i64,
    /// Sails
    pub sails: GenericDataset<SailSaveState>,
}

/// Abstract value of a boat's save state.
#[verifier::ext_equal]
pub ghost struct BoatStateView {
    pub boat_type_name: Seq<char>,
    pub pos: Iso,
    pub vel: Iso,
    pub rudder_angle: i64,
    pub rudder_hp: bool,
    pub hull_hp: i64,
    pub sails: Seq<(GenericRef<SailSaveState>, SailSaveState)>,
}

impl View for BoatSaveState {
    type V = BoatStateView;

    open spec fn view(&self) -> BoatStateView {
        BoatStateView {
            boat_type_name: self.boat_type_name@,
            pos: self.pos,
            vel: self.vel,
            rudder_angle: self.rudder_angle,
            rudder_hp: self.rudder_hp,
            hull_hp: self.hull_hp,
            sails: self.sails.items@,
        }
    }
}

impl BoatStateView {
    /// Every scalar within the scalar bound.
    pub open spec fn wf(self) -> bool {
        &&& self.pos.wf()
        &&& self.vel.wf()
        &&& -SCALAR_LIMIT <= self.rudder_angle <= SCALAR_LIMIT
        &&& -SCALAR_LIMIT <= self.hull_hp <= SCALAR_LIMIT
        &&& forall|i: int| 0 <= i < self.sails.len() ==> (#[trigger] self.sails[i]).1.wf()
    }

    /// Whether every sail of `self` has a counterpart in `other`, found by
    /// the sail ref's canonical query.
    pub open spec fn merge_ok(self, other: Self) -> bool {
        forall|i: int|
            0 <= i < self.sails.len() ==> spec_find_index(
                other.sails,
                (#[trigger] self.sails[i]).0.spec_to_query(),
            ) is Some
    }

    /// Field-by-field merge of two snapshots of the same boat: pose and
    /// velocity averaged as placements, plain scalars averaged, sails merged
    /// pairwise with the counterpart that each sail's canonical query finds.
    /// The type name and the rudder integrity flag are carried from `self`.
    pub open spec fn merged(self, other: Self) -> Self {
        BoatStateView {
            boat_type_name: self.boat_type_name,
            pos: spec_average_iso(self.pos, other.pos),
            vel: spec_average_iso(self.vel, other.vel),
            rudder_angle: spec_avg(self.rudder_angle as int, other.rudder_angle as int) as i64,
            rudder_hp: self.rudder_hp,
            hull_hp: spec_avg(self.hull_hp as int, other.hull_hp as int) as i64,
            sails: Seq::new(
                self.sails.len(),
                |i: int|
                    (
                        self.sails[i].0,
                        self.sails[i].1.spec_averaged(
                            spec_find_tuple(
                                other.sails,
                                self.sails[i].0.spec_to_query(),
                            ).unwrap().1,
                        ),
                    ),
            ),
        }
    }
}

impl Clone for BoatSaveState {
    fn clone(&self) -> (r: Self)
        ensures
            r@ == self@,
    {
        Self {
            boat_type_name: self.boat_type_name.clone(),
            pos: self.pos,
            vel: self.vel,
            rudder_angle: self.rudder_angle,
            rudder_hp: self.rudder_hp,
            hull_hp: self.hull_hp,
            sails: self.sails.clone(),
        }
    }
}

impl BoatSaveState {
    /// Merges `other`, a second snapshot of the same boat, into `self`.  A
    /// sail of `self` with no counterpart in `other` is a structural
    /// mismatch: the merge reports it and leaves `self` untouched.
    pub fn average_with_other_state(&mut self, other: Self) -> (r: Result<(), StructuralMismatch>)
        requires
            old(self)@.wf(),
            other@.wf(),
        ensures
            match r {
                Ok(()) => old(self)@.merge_ok(other@) && final(self)@ == old(self)@.merged(other@),
                Err(e) => {
                    &&& !old(self)@.merge_ok(other@)
                    &&& *final(self) == *old(self)
                    &&& exists|i: int|
                        0 <= i < old(self)@.sails.len() && (#[trigger] old(
                            self,
                        )@.sails[i]).0.id == e.missing_id && spec_find_index(
                            other@.sails,
                            old(self)@.sails[i].0.spec_to_query(),
                        ) is None
                },
            },
    {
        // First pass: every sail of `self` must have a counterpart in
        // `other`, else the merge is refused before anything is touched.
        let mut i: usize = 0;
        while i < self.sails.items.len()
            invariant
                i <= self.sails.items@.len(),
                forall|j: int|
                    0 <= j < i ==> spec_find_index(
                        other@.sails,
                        (#[trigger] self.sails.items@[j]).0.spec_to_query(),
                    ) is Some,
            decreases self.sails.items@.len() - i,
        {
            let q = self.sails.items[i].0.to_query();
            if other.sails.get_item_index_with_query(&q).is_none() {
                return Err(StructuralMismatch { missing_id: self.sails.items[i].0.id });
            }
            i = i + 1;
        }
        // Second pass: every counterpart exists; merge in place.
        self.pos = average_iso(&self.pos, &other.pos);
        self.vel = average_iso(&self.vel, &other.vel);
        self.rudder_angle = average_scalar(self.rudder_angle, other.rudder_angle);
        self.hull_hp = average_scalar(self.hull_hp, other.hull_hp);
        let ghost mid = *self;
        proof {
            assert(mid.sails.items@ == old(self)@.sails);
            assert(other@.sails == other.sails.items@);
            assert(forall|j: int|
                0 <= j < mid.sails.items@.len() ==> (#[trigger] mid.sails.items@[j]).1.wf());
        }
        let mut i: usize = 0;
        while i < self.sails.items.len()
            invariant
                other@.wf(),
                self.boat_type_name == mid.boat_type_name,
                self.pos == mid.pos,
                self.vel == mid.vel,
                self.rudder_angle == mid.rudder_angle,
                self.rudder_hp == mid.rudder_hp,
                self.hull_hp == mid.hull_hp,
                i <= self.sails.items@.len(),
                self.sails.items@.len() == mid.sails.items@.len(),
                forall|j: int|
                    0 <= j < mid.sails.items@.len() ==> spec_find_index(
                        other@.sails,
                        (#[trigger] mid.sails.items@[j]).0.spec_to_query(),
                    ) is Some,
                forall|j: int|
                    i <= j < mid.sails.items@.len() ==> self.sails.items@[j] == mid.sails.items@[j],
                forall|j: int|
                    0 <= j < i ==> self.sails.items@[j] == (
                        (#[trigger] mid.sails.items@[j]).0,
                        mid.sails.items@[j].1.spec_averaged(
                            spec_find_tuple(
                                other@.sails,
                                mid.sails.items@[j].0.spec_to_query(),
                            ).unwrap().1,
                        ),
                    ),
                forall|j: int|
                    0 <= j < mid.sails.items@.len() ==> (#[trigger] mid.sails.items@[j]).1.wf(),
            decreases self.sails.items@.len() - i,
        {
            let q = self.sails.items[i].0.to_query();
            proof {
                lemma_spec_find_index_characterization(other.sails.items@, q);
                assert(self.sails.items@[i as int] == mid.sails.items@[i as int]);
                assert(q == mid.sails.items@[i as int].0.spec_to_query());
                assert(spec_find_index(other@.sails, q) is Some);
            }
            match other.sails.get_item_tuple(&q) {
                Some((_, other_sail)) => {
                    proof {
                        assert(mid.sails.items@[i as int].1.wf());
                        assert(other@.sails == other.sails.items@);
                        let k = spec_find_index(other.sails.items@, q).unwrap();
                        assert(0 <= k < other.sails.items@.len());
                        assert(spec_find_tuple(other.sails.items@, q) == Some(
                            other.sails.items@[k],
                        ));
                        assert(other@.sails[k].1.wf());
                        assert(other_sail.wf());
                    }
                    let ref_ = self.sails.items[i].0.clone();
                    let mut sail = self.sails.items[i].1;
                    sail.average_with_other_state(other_sail);
                    self.sails.items.set(i, (ref_, sail));
                },
                None => {
                    proof {
                        assert(false);
                    }
                },
            }
            i = i + 1;
        }
        proof {
            assert(final(self)@.sails =~= old(self)@.merged(other@).sails);
            assert(final(self)@ =~= old(self)@.merged(other@));
        }
        Ok(())
    }
}

/// The integrator wrapped around a boat's save state: what the stepping
/// protocol advances and reconciles each tick.
struct BoatPhysicalIntegrator {
    state: BoatSaveState,
}

impl View for BoatPhysicalIntegrator {
    type V = BoatStateView;

    closed spec fn view(&self) -> BoatStateView {
        self.state@
    }
}

impl PhysicalIntegrator<BoatType, Wind> for BoatPhysicalIntegrator {
    open spec fn inv(v: BoatStateView) -> bool {
        v.wf()
    }

    open spec fn step_ok(v: BoatStateView, dt: int, static_: BoatType, dynamic: Wind) -> bool {
        true
    }

    open spec fn stepped(v: BoatStateView, dt: int, static_: BoatType, dynamic: Wind) -> BoatStateView {
        v
    }

    open spec fn merge_ok(v: BoatStateView, other: BoatStateView) -> bool {
        v.merge_ok(other)
    }

    open spec fn merged(v: BoatStateView, other: BoatStateView) -> BoatStateView {
        v.merged(other)
    }

    fn duplicate(&self) -> (r: Self) {
        BoatPhysicalIntegrator { state: self.state.clone() }
    }

    /// The hull, sail and rudder force model that would move the state is a
    /// collaborator outside this crate's scope; at this layer a partial step
    /// leaves the save state as it is.
    fn partial_step(&mut self, dt: i64, static_: &BoatType, dynamic: &Wind) {
    }

    fn average_with_other_state(&mut self, other: Self, static_: &BoatType, dynamic: &Wind) -> (r:
        Result<(), StructuralMismatch>) {
        self.state.average_with_other_state(other.state)
    }
}

/// Inputs a boat's owner hands to a tick: an optional rudder command and
/// target sheeting limits for named sails, applied before the tick's full
/// step.
#[derive(Debug)]
pub struct BoatInputs {
    pub rudder_control: Option<i64>,
    pub sheeting_angles: Vec<(GenericQuery<SailSaveState>, i64)>,
}

impl Default for BoatInputs {
    fn default() -> (r: Self)
        ensures
            r.rudder_control is None,
            r.sheeting_angles@.len() == 0,
    {
        Self { rudder_control: None, sheeting_angles: Vec::new() }
    }
}

/// Merging a well-formed boat state with itself reports it unchanged, as long
/// as its sail ids are distinct and its rotation components are zero: the
/// merge sums the pose and velocity rotation components instead of averaging
/// them, so a nonzero rotation component doubles rather than stays.
pub proof fn lemma_boat_merge_idempotent(v: BoatStateView)
    requires
        v.wf(),
        v.pos.rotation_re == 0,
        v.pos.rotation_im == 0,
        v.vel.rotation_re == 0,
        v.vel.rotation_im == 0,
        forall|i: int, j: int|
            0 <= i < j < v.sails.len() ==> (#[trigger] v.sails[i]).0.id != (#[trigger] v.sails[j]).0.id,
    ensures
        v.merge_ok(v),
        v.merged(v) == v,
{
    assert forall|i: int| 0 <= i < v.sails.len() implies spec_find_index(
        v.sails,
        (#[trigger] v.sails[i]).0.spec_to_query(),
    ) matches Some(k) && v.sails[k] == v.sails[i] by {
        lemma_spec_find_index_characterization(v.sails, v.sails[i].0.spec_to_query());
        assert(v.sails[i].0.spec_matches(v.sails[i].0.spec_to_query()));
        match spec_find_index(v.sails, v.sails[i].0.spec_to_query()) {
            Some(k) => {
                assert(v.sails[k].0.id == v.sails[i].0.id);
                if k < i {
                    assert(v.sails[k].0.id != v.sails[i].0.id);
                } else if i < k {
                    assert(!v.sails[i].0.spec_matches(v.sails[i].0.spec_to_query()));
                }
            },
            None => {
                assert(false);
            },
        }
    }
    assert(v.merged(v).sails =~= v.sails);
    assert(v.merged(v) =~= v);
}

} // verus!
