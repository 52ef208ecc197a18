use physics_bridge::collider_component_set::{ColliderBundle, ColliderComponentsSet};
use physics_bridge::components::{
    ColliderParent, ColliderPosition, Isometry, RigidBodyType, RigidBodyVelocity, Vect,
    CO_CHANGE_PARENT, CO_CHANGE_POSITION, RB_CHANGE_ALL, RB_CHANGE_POSITION, RB_CHANGE_SLEEP,
    RB_CHANGE_VELOCITY, RigidBodyActivation,
};
use physics_bridge::identity::Index;
use physics_bridge::rigid_body_component_set::{RigidBodyBundle, RigidBodyComponentsSet};

#[test]
fn fresh_spawn_flags_every_category() {
    let mut s = RigidBodyComponentsSet::new();
    let h = Index::from_raw_parts(0, 0);
    s.attach(h, RigidBodyBundle::default());
    s.detect_changes();
    s.detect_activation_changes();
    let c = s.changes(h).copied().unwrap();
    assert_eq!(c.bits, RB_CHANGE_ALL | RB_CHANGE_SLEEP);
}

#[test]
fn fresh_collider_flags_every_bundle_category() {
    let mut s = ColliderComponentsSet::new();
    let h = Index::from_raw_parts(0, 0);
    s.attach(h, ColliderBundle::default());
    s.detect_changes();
    let c = s.changes(h).copied().unwrap();
    assert_eq!(c.bits, 1 | 2 | 4 | 8);
}

#[test]
fn mutation_flags_its_category_on_the_next_pass() {
    let mut s = RigidBodyComponentsSet::new();
    let h = Index::from_raw_parts(4, 1);
    s.attach(h, RigidBodyBundle::default());
    s.detect_changes();
    s.set_changes(h, physics_bridge::components::RigidBodyChanges { bits: 0 });
    s.detect_changes();
    let v = RigidBodyVelocity { linvel: Vect { x: 1, y: 2, z: 3 }, angvel: Vect::zero() };
    s.set_velocity(h, v);
    s.detect_changes();
    let c = s.changes(h).copied().unwrap();
    assert_eq!(c.bits & RB_CHANGE_VELOCITY, RB_CHANGE_VELOCITY);
    assert_eq!(c.bits & RB_CHANGE_POSITION, 0);
}

#[test]
fn a_tick_with_no_writes_flags_nothing_new() {
    let mut s = RigidBodyComponentsSet::new();
    let h = Index::from_raw_parts(4, 1);
    s.attach(h, RigidBodyBundle::default());
    s.detect_changes();
    let before = s.changes(h).copied().unwrap();
    s.detect_changes();
    let after = s.changes(h).copied().unwrap();
    assert_eq!(before, after);
}

#[test]
fn flags_accumulate_by_or_within_a_tick() {
    let mut s = RigidBodyComponentsSet::new();
    let h = Index::from_raw_parts(9, 0);
    s.attach(h, RigidBodyBundle::default());
    s.detect_changes();
    s.set_changes(h, physics_bridge::components::RigidBodyChanges { bits: 0 });
    s.detect_changes();
    s.set_velocity(
        h,
        RigidBodyVelocity { linvel: Vect { x: 5, y: 0, z: 0 }, angvel: Vect::zero() },
    );
    s.detect_changes();
    s.set_position(h, physics_bridge::components::RigidBodyPosition::default());
    s.detect_changes();
    let c = s.changes(h).copied().unwrap();
    assert_eq!(
        c.bits & (RB_CHANGE_VELOCITY | RB_CHANGE_POSITION),
        RB_CHANGE_VELOCITY | RB_CHANGE_POSITION
    );
}

#[test]
fn activation_pass_runs_at_its_own_cadence() {
    let mut s = RigidBodyComponentsSet::new();
    let h = Index::from_raw_parts(2, 0);
    s.attach(h, RigidBodyBundle::default());
    s.detect_changes();
    s.detect_activation_changes();
    s.set_changes(h, physics_bridge::components::RigidBodyChanges { bits: 0 });
    s.set_activation(h, RigidBodyActivation { energy: 0, sleeping: true });
    s.detect_changes();
    let c = s.changes(h).copied().unwrap();
    assert_eq!(c.bits & RB_CHANGE_SLEEP, 0);
    s.detect_activation_changes();
    let c = s.changes(h).copied().unwrap();
    assert_eq!(c.bits & RB_CHANGE_SLEEP, RB_CHANGE_SLEEP);
}

#[test]
fn collider_parent_write_flags_the_parent_category() {
    let mut s = ColliderComponentsSet::new();
    let body = Index::from_raw_parts(0, 0);
    let member = Index::from_raw_parts(1, 0);
    s.attach(member, ColliderBundle::default());
    s.detect_changes();
    s.set_changes(member, physics_bridge::components::ColliderChanges { bits: 0 });
    s.detect_changes();
    s.set_parent(
        member,
        ColliderParent { handle: body, pos_wrt_parent: Isometry::identity() },
    );
    s.detect_changes();
    let c = s.changes(member).copied().unwrap();
    assert_eq!(c.bits & CO_CHANGE_PARENT, CO_CHANGE_PARENT);
}

#[test]
fn collider_position_write_flags_its_category() {
    let mut s = ColliderComponentsSet::new();
    let h = Index::from_raw_parts(6, 2);
    s.attach(h, ColliderBundle::default());
    s.detect_changes();
    s.set_changes(h, physics_bridge::components::ColliderChanges { bits: 0 });
    s.set_position(h, ColliderPosition::default());
    s.detect_changes();
    let c = s.changes(h).copied().unwrap();
    assert_eq!(c.bits & CO_CHANGE_POSITION, CO_CHANGE_POSITION);
}

#[test]
fn despawn_evicts_the_complete_component_set() {
    let mut s = RigidBodyComponentsSet::new();
    let h = Index::from_raw_parts(1, 1);
    s.attach(h, RigidBodyBundle::default());
    assert!(s.contains(h));
    assert!(s.position(h).is_some());
    s.despawn(h);
    assert!(!s.contains(h));
    assert_eq!(s.position(h), None);
    assert_eq!(s.velocity(h), None);
    assert_eq!(s.changes(h), None);
    assert_eq!(s.body_type(h), None);
}

#[test]
fn bundle_attachment_is_atomic() {
    let mut s = RigidBodyComponentsSet::new();
    let h = Index::from_raw_parts(8, 0);
    assert_eq!(s.position(h), None);
    assert_eq!(s.body_type(h), None);
    s.attach(h, RigidBodyBundle::default());
    assert!(s.position(h).is_some());
    assert!(s.velocity(h).is_some());
    assert!(s.mass_props(h).is_some());
    assert!(s.ids(h).is_some());
    assert!(s.forces(h).is_some());
    assert!(s.activation(h).is_some());
    assert!(s.changes(h).is_some());
    assert!(s.ccd(h).is_some());
    assert!(s.colliders(h).is_some());
    assert!(s.damping(h).is_some());
    assert!(s.dominance(h).is_some());
    assert_eq!(s.body_type(h), Some(&RigidBodyType::Dynamic));
}

#[test]
fn rigid_body_for_each_visits_each_body_once() {
    let mut s = RigidBodyComponentsSet::new();
    let h1 = Index::from_raw_parts(1, 0);
    let h2 = Index::from_raw_parts(2, 0);
    s.attach(h1, RigidBodyBundle::default());
    s.attach(h2, RigidBodyBundle::default());
    let mut seen = s.for_each_position();
    assert_eq!(seen.len(), 2);
    seen.sort_by_key(|(h, _)| h.into_raw_parts());
    assert_eq!(seen[0].0, h1);
    assert_eq!(seen[1].0, h2);
}

#[test]
fn map_mut_updates_a_component_and_flags_its_category() {
    let mut s = RigidBodyComponentsSet::new();
    let h = Index::from_raw_parts(3, 0);
    s.attach(h, RigidBodyBundle::default());
    s.detect_changes();
    s.set_changes(h, physics_bridge::components::RigidBodyChanges { bits: 0 });
    s.detect_changes();
    let old_x = s.map_mut_velocity(h, |mut v| {
        let was = v.linvel.x;
        v.linvel.x = 9;
        (v, was)
    });
    assert_eq!(old_x, Some(0));
    assert_eq!(s.velocity(h).unwrap().linvel.x, 9);
    s.detect_changes();
    let c = s.changes(h).copied().unwrap();
    assert_eq!(c.bits & RB_CHANGE_VELOCITY, RB_CHANGE_VELOCITY);
}

#[test]
fn map_mut_on_a_missing_body_is_empty() {
    let mut s = RigidBodyComponentsSet::new();
    let h = Index::from_raw_parts(3, 0);
    let r = s.map_mut_position(h, |p| (p, ()));
    assert_eq!(r, None);
}

#[test]
fn collider_map_mut_updates_broad_phase_data() {
    let mut s = ColliderComponentsSet::new();
    let h = Index::from_raw_parts(5, 0);
    s.attach(h, ColliderBundle::default());
    let r = s.map_mut_broad_phase_data(h, |mut d| {
        d.proxy_index = 77;
        (d, ())
    });
    assert_eq!(r, Some(()));
    assert_eq!(s.broad_phase_data(h).unwrap().proxy_index, 77);
}
