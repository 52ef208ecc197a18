use physics_bridge::collider_component_set::{
    ColliderBundle, ColliderComponentsSet, QueryPipelineColliderComponentsSet,
};
use physics_bridge::components::{ColliderShape, REAL_BITS_HALF};
use physics_bridge::identity::Index;

#[test]
fn read_view_exposes_positions_shapes_and_flags() {
    let mut s = ColliderComponentsSet::new();
    let h1 = Index::from_raw_parts(1, 0);
    let h2 = Index::from_raw_parts(2, 0);
    s.attach(h1, ColliderBundle::default());
    s.attach(h2, ColliderBundle::default());
    let view = QueryPipelineColliderComponentsSet::new(&s);
    assert_eq!(view.shape(h1), Some(&ColliderShape::Ball { radius: REAL_BITS_HALF }));
    assert!(view.position(h2).is_some());
    assert!(view.flags(h1).is_some());
    assert_eq!(view.position(Index::from_raw_parts(3, 0)), None);
    assert_eq!(view.size_hint(), 0);
    let seen = view.for_each_shape();
    assert_eq!(seen.len(), 2);
}

#[test]
fn read_view_reflects_the_store_it_was_split_from() {
    let mut s = ColliderComponentsSet::new();
    let h = Index::from_raw_parts(7, 3);
    s.attach(h, ColliderBundle::default());
    s.despawn(h);
    let view = QueryPipelineColliderComponentsSet::new(&s);
    assert_eq!(view.shape(h), None);
    assert!(view.for_each_position().is_empty());
}
