use physics_bridge::collider_component_set::{ColliderBundle, ColliderComponentsSet};
use physics_bridge::component_set::BundleBuilder;
use physics_bridge::components::{
    ColliderShape, ColliderType, RigidBodyType, Vect, REAL_BITS_HALF, REAL_BITS_ONE,
    REAL_BITS_ZERO,
};
use physics_bridge::identity::Index;
use physics_bridge::rigid_body_component_set::RigidBodyBundle;

#[test]
fn rigid_body_bundle_defaults_to_a_dynamic_body_at_the_origin() {
    let b = RigidBodyBundle::default();
    assert_eq!(b.body_type, RigidBodyType::Dynamic);
    assert_eq!(b.position.position.translation, Vect { x: 0, y: 0, z: 0 });
    assert_eq!(b.position.position.rotation.w, REAL_BITS_ONE);
    assert_eq!(b.velocity.linvel, Vect { x: 0, y: 0, z: 0 });
    assert_eq!(b.velocity.angvel, Vect { x: 0, y: 0, z: 0 });
    assert_eq!(b.forces.force, Vect { x: 0, y: 0, z: 0 });
    assert_eq!(b.forces.gravity_scale, REAL_BITS_ONE);
    assert_eq!(b.damping.linear_damping, REAL_BITS_ZERO);
    assert_eq!(b.damping.angular_damping, REAL_BITS_ZERO);
    assert_eq!(b.dominance.0, 0);
    assert!(!b.ccd.ccd_enabled);
    assert_eq!(b.changes.bits, 0);
    assert_eq!(b.colliders.len, 0);
}

#[test]
fn collider_bundle_defaults_to_a_solid_unit_ball() {
    let b = ColliderBundle::default();
    assert_eq!(b.collider_type, ColliderType::Solid);
    assert_eq!(b.shape, ColliderShape::Ball { radius: REAL_BITS_HALF });
    assert_eq!(REAL_BITS_HALF, 0.5f32.to_bits());
    assert_eq!(b.material.friction, REAL_BITS_HALF);
    assert_eq!(b.material.restitution, REAL_BITS_ZERO);
    assert_eq!(b.changes.bits, 0);
}

#[test]
fn real_bit_patterns_match_their_numbers() {
    assert_eq!(REAL_BITS_ZERO, 0.0f32.to_bits());
    assert_eq!(REAL_BITS_ONE, 1.0f32.to_bits());
}

#[test]
fn bundle_builders_reproduce_their_bundles() {
    let rb = RigidBodyBundle::default();
    assert_eq!(rb.bundle(), rb);
    let co = ColliderBundle::default();
    assert_eq!(co.bundle(), co);
}

#[test]
fn attached_collider_has_no_parent_until_one_is_set() {
    let mut s = ColliderComponentsSet::new();
    let h = Index::from_raw_parts(0, 0);
    s.attach(h, ColliderBundle::default());
    assert!(s.contains(h));
    assert_eq!(s.parent(h), None);
    assert!(s.shape(h).is_some());
    assert!(s.material(h).is_some());
    assert!(s.mass_props(h).is_some());
    assert!(s.broad_phase_data(h).is_some());
}
