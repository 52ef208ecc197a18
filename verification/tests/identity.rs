use physics_bridge::identity::{
    ColliderHandle, Entity, Index, IntoEntity, IntoHandle, JointHandle, RigidBodyHandle,
};

#[test]
fn entity_to_index_and_back() {
    let e = Entity::new(7, 3);
    let h: Index = e.handle();
    assert_eq!(h.into_raw_parts(), (7, 3));
    assert_eq!(h.entity(), e);
}

#[test]
fn entity_to_rigid_body_handle_and_back() {
    let e = Entity::new(123, 456);
    let h: RigidBodyHandle = e.handle();
    assert_eq!(h.0.into_raw_parts(), (123, 456));
    assert_eq!(h.entity(), e);
}

#[test]
fn entity_to_collider_handle_and_back() {
    let e = Entity::new(u32::MAX, 0);
    let h: ColliderHandle = e.handle();
    assert_eq!(h.entity(), e);
}

#[test]
fn entity_to_joint_handle_and_back() {
    let e = Entity::new(0, u32::MAX);
    let h: JointHandle = e.handle();
    assert_eq!(h.entity(), e);
}

#[test]
fn index_to_entity_and_back() {
    let h = Index::from_raw_parts(42, 9);
    let e = h.entity();
    assert_eq!(e.id(), 42);
    assert_eq!(e.generation(), 9);
    let h2: Index = e.handle();
    assert_eq!(h2, h);
}

#[test]
fn bits_round_trip() {
    let e = Entity::new(0xDEAD_BEEF, 0x1234_5678);
    let bits = e.to_bits();
    assert_eq!(bits, (0x1234_5678u64 << 32) | 0xDEAD_BEEFu64);
    assert_eq!(Entity::from_bits(bits), e);
}

#[test]
fn distinct_generations_stay_distinct() {
    let a = Entity::new(5, 1);
    let b = Entity::new(5, 2);
    let ha: Index = a.handle();
    let hb: Index = b.handle();
    assert_ne!(ha, hb);
    assert_ne!(ha.entity(), hb.entity());
}
