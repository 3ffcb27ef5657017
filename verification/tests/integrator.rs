//! Tests of the stepping protocol and the state-reconciliation rules.

use sailboat_simulator::average_iso;
use sailboat_simulator::average_scalar;
use sailboat_simulator::generic_ref::{GenericDataset, GenericRef};
use sailboat_simulator::intv2::IntV2;
use sailboat_simulator::simulation::boat::{BoatSaveState, SailSaveState};
use sailboat_simulator::simulation::flat_object_physics::{
    FlatObjectDynamicData, FlatObjectPhysicalIntegrator, FlatObjectStaticData,
};
use sailboat_simulator::simulation::physical_integrator::{two_thirds, PhysicalIntegrator};
use sailboat_simulator::Iso;
use sailboat_simulator::SCALAR_LIMIT;

fn flat_static() -> FlatObjectStaticData {
    FlatObjectStaticData {
        area: 1,
        center_of_pressure: 1,
        moment: 1,
        angular_drag: 0,
        fluid_density: 1,
    }
}

fn flat_dynamic() -> FlatObjectDynamicData {
    FlatObjectDynamicData {
        global_velocity: IntV2(0, 0),
        global_angular_velocity: IntV2(0, 0),
    }
}

#[test]
fn two_thirds_rounds_down() {
    assert_eq!(two_thirds(3), 2);
    assert_eq!(two_thirds(3000), 2000);
    assert_eq!(two_thirds(1), 0);
    assert_eq!(two_thirds(0), 0);
}

#[test]
fn full_step_of_still_object_changes_nothing() {
    let mut obj = FlatObjectPhysicalIntegrator { angle: 42, angular_velocity: 0 };
    let r = obj.full_step(3000, &flat_static(), &flat_dynamic());
    assert!(r.is_ok());
    assert_eq!(obj.angle, 42);
    assert_eq!(obj.angular_velocity, 0);
}

#[test]
fn full_step_nets_exactly_dt_on_linear_increment() {
    // With unit angular velocity each partial step advances the angle by its
    // own dt, so the sub-steps land at +2 and +4 for dt = 3; the merge of mid
    // and end reports +3: the net effect equals dt although the second
    // sub-step overshot to 4/3 of it.
    let mut obj = FlatObjectPhysicalIntegrator { angle: 0, angular_velocity: 1 };
    let r = obj.full_step(3, &flat_static(), &flat_dynamic());
    assert!(r.is_ok());
    assert_eq!(obj.angle, 3);
    assert_eq!(obj.angular_velocity, 1);
}

#[test]
fn partial_step_advances_by_angular_velocity() {
    let mut obj = FlatObjectPhysicalIntegrator { angle: 10, angular_velocity: 5 };
    obj.partial_step(4, &flat_static(), &flat_dynamic());
    assert_eq!(obj.angle, 30);
    assert_eq!(obj.angular_velocity, 5);
}

#[test]
fn scalar_average_is_commutative() {
    assert_eq!(average_scalar(10, 30), 20);
    assert_eq!(average_scalar(30, 10), 20);
    assert_eq!(average_scalar(-5, 5), 0);
    assert_eq!(average_scalar(5, -5), 0);
}

#[test]
fn scalar_average_rounds_down() {
    assert_eq!(average_scalar(0, 5), 2);
    assert_eq!(average_scalar(0, -5), -3);
}

#[test]
fn sail_merge_averages_angle_keeps_sheeting_limit() {
    let mut a = SailSaveState { angle: 10, sheeting_angle: 90 };
    let b = SailSaveState { angle: 30, sheeting_angle: 45 };
    a.average_with_other_state(&b);
    assert_eq!(a.angle, 20);
    assert_eq!(a.sheeting_angle, 90);

    let mut b2 = SailSaveState { angle: 30, sheeting_angle: 45 };
    let a2 = SailSaveState { angle: 10, sheeting_angle: 90 };
    b2.average_with_other_state(&a2);
    assert_eq!(b2.angle, 20);
    assert_eq!(b2.sheeting_angle, 45);
}

#[test]
fn sail_default_has_no_trim_and_free_sheet() {
    let s: SailSaveState = Default::default();
    assert_eq!(s.angle, 0);
    assert_eq!(s.sheeting_angle, 90);
}

#[test]
fn average_iso_averages_translation_sums_rotation() {
    let a = Iso { translation: IntV2(10, 20), rotation_re: 1000, rotation_im: 0 };
    let b = Iso { translation: IntV2(30, 40), rotation_re: 0, rotation_im: 1000 };
    let m = average_iso(&a, &b);
    assert_eq!(m.translation, IntV2(20, 30));
    assert_eq!(m.rotation_re, 1000);
    assert_eq!(m.rotation_im, 1000);
}

fn still_pose() -> Iso {
    Iso { translation: IntV2(0, 0), rotation_re: 0, rotation_im: 0 }
}

fn boat_with_sails(sails: Vec<(u64, i64, i64)>) -> BoatSaveState {
    let mut dataset: GenericDataset<SailSaveState> = GenericDataset::new();
    for (id, angle, sheeting_angle) in sails {
        dataset.items.push((GenericRef::id(id), SailSaveState { angle, sheeting_angle }));
    }
    BoatSaveState {
        boat_type_name: "sloop".to_string(),
        pos: still_pose(),
        vel: still_pose(),
        rudder_angle: 0,
        rudder_hp: true,
        hull_hp: 100,
        sails: dataset,
    }
}

#[test]
fn nested_merge_averages_matching_sails() {
    let mut ours = boat_with_sails(vec![(1, 10, 90), (2, -5, 80)]);
    let theirs = boat_with_sails(vec![(1, 20, 70), (2, 5, 60)]);
    let r = ours.average_with_other_state(theirs);
    assert!(r.is_ok());
    assert_eq!(ours.sails.items[0].1.angle, 15);
    assert_eq!(ours.sails.items[1].1.angle, 0);
    // Sheeting limits are configuration-like and come from `self` unchanged.
    assert_eq!(ours.sails.items[0].1.sheeting_angle, 90);
    assert_eq!(ours.sails.items[1].1.sheeting_angle, 80);
}

#[test]
fn nested_merge_matches_sails_by_id_not_position() {
    let mut ours = boat_with_sails(vec![(1, 10, 90), (2, -5, 80)]);
    // Same sails, opposite insertion order on the other side.
    let theirs = boat_with_sails(vec![(2, 5, 60), (1, 20, 70)]);
    let r = ours.average_with_other_state(theirs);
    assert!(r.is_ok());
    assert_eq!(ours.sails.items[0].1.angle, 15);
    assert_eq!(ours.sails.items[1].1.angle, 0);
}

#[test]
fn nested_merge_without_counterpart_is_a_structural_mismatch() {
    let mut ours = boat_with_sails(vec![(1, 10, 90), (7, -5, 80)]);
    let theirs = boat_with_sails(vec![(1, 20, 70)]);
    let r = ours.average_with_other_state(theirs);
    let e = r.unwrap_err();
    assert_eq!(e.missing_id, 7);
    // Not a partial result: nothing was touched.
    assert_eq!(ours.sails.items[0].1.angle, 10);
    assert_eq!(ours.sails.items[1].1.angle, -5);
    assert_eq!(ours.rudder_angle, 0);
    assert_eq!(ours.hull_hp, 100);
}

#[test]
fn boat_merge_averages_scalars_and_pose() {
    let mut ours = boat_with_sails(vec![(1, 0, 90)]);
    ours.pos = Iso { translation: IntV2(10, 20), rotation_re: 1000, rotation_im: 0 };
    ours.vel = Iso { translation: IntV2(4, 0), rotation_re: 0, rotation_im: 0 };
    ours.rudder_angle = 10;
    ours.hull_hp = 100;
    let mut theirs = boat_with_sails(vec![(1, 0, 70)]);
    theirs.pos = Iso { translation: IntV2(30, 40), rotation_re: 0, rotation_im: 1000 };
    theirs.vel = Iso { translation: IntV2(8, 2), rotation_re: 0, rotation_im: 0 };
    theirs.rudder_angle = 30;
    theirs.hull_hp = 50;
    let r = ours.average_with_other_state(theirs);
    assert!(r.is_ok());
    assert_eq!(ours.pos.translation, IntV2(20, 30));
    assert_eq!(ours.pos.rotation_re, 1000);
    assert_eq!(ours.pos.rotation_im, 1000);
    assert_eq!(ours.vel.translation, IntV2(6, 1));
    assert_eq!(ours.rudder_angle, 20);
    assert_eq!(ours.hull_hp, 75);
    assert_eq!(ours.boat_type_name, "sloop");
    assert!(ours.rudder_hp);
}

#[test]
fn flat_merge_averages_both_scalars() {
    let mut a = FlatObjectPhysicalIntegrator { angle: 10, angular_velocity: 4 };
    let b = FlatObjectPhysicalIntegrator { angle: 30, angular_velocity: 0 };
    let r = a.average_with_other_state(b, &flat_static(), &flat_dynamic());
    assert!(r.is_ok());
    assert_eq!(a.angle, 20);
    assert_eq!(a.angular_velocity, 2);
}

#[test]
fn scalar_average_at_the_bound() {
    assert_eq!(average_scalar(SCALAR_LIMIT, SCALAR_LIMIT), SCALAR_LIMIT);
    assert_eq!(average_scalar(-SCALAR_LIMIT, -SCALAR_LIMIT), -SCALAR_LIMIT);
    assert_eq!(average_scalar(-SCALAR_LIMIT, SCALAR_LIMIT), 0);
}

#[test]
fn full_step_nets_dt_at_millisecond_scale() {
    // Same linear-increment protocol at a finer fixed-point time scale.
    let mut obj = FlatObjectPhysicalIntegrator { angle: 0, angular_velocity: 1 };
    let r = obj.full_step(3000, &flat_static(), &flat_dynamic());
    assert!(r.is_ok());
    assert_eq!(obj.angle, 3000);
}
