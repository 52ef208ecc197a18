use physics_bridge::component_set::QueryComponentSetMut;
use physics_bridge::identity::Index;

#[test]
fn write_then_read() {
    let mut s: QueryComponentSetMut<u64> = QueryComponentSetMut::new();
    let h = Index::from_raw_parts(1, 0);
    s.insert(h, 10);
    s.set_internal(h, 42);
    assert_eq!(s.get(h), Some(&42));
}

#[test]
fn read_of_missing_component_is_empty() {
    let s: QueryComponentSetMut<u64> = QueryComponentSetMut::new();
    assert_eq!(s.get(Index::from_raw_parts(3, 0)), None);
}

#[test]
fn read_after_removal_is_empty() {
    let mut s: QueryComponentSetMut<u64> = QueryComponentSetMut::new();
    let h = Index::from_raw_parts(1, 0);
    s.insert(h, 10);
    s.remove(h);
    assert_eq!(s.get(h), None);
}

#[test]
fn set_on_missing_component_is_a_noop_not_an_error() {
    let mut s: QueryComponentSetMut<u64> = QueryComponentSetMut::new();
    let h = Index::from_raw_parts(1, 0);
    s.set_internal(h, 42);
    assert_eq!(s.get(h), None);
}

#[test]
fn for_each_visits_every_carrier_exactly_once() {
    let mut s: QueryComponentSetMut<u64> = QueryComponentSetMut::new();
    let h1 = Index::from_raw_parts(1, 0);
    let h2 = Index::from_raw_parts(2, 0);
    let h3 = Index::from_raw_parts(1, 1);
    s.insert(h1, 100);
    s.insert(h2, 200);
    s.insert(h3, 300);
    let mut visited = s.for_each();
    assert_eq!(visited.len(), 3);
    visited.sort_by_key(|(h, _)| h.into_raw_parts());
    assert_eq!(visited, vec![(h1, 100), (h3, 300), (h2, 200)]);
}

#[test]
fn for_each_skips_removed_entities() {
    let mut s: QueryComponentSetMut<u64> = QueryComponentSetMut::new();
    let h1 = Index::from_raw_parts(1, 0);
    let h2 = Index::from_raw_parts(2, 0);
    s.insert(h1, 100);
    s.insert(h2, 200);
    s.remove(h1);
    let visited = s.for_each();
    assert_eq!(visited, vec![(h2, 200)]);
}

#[test]
fn map_mut_updates_in_place_and_returns_the_mapped_value() {
    let mut s: QueryComponentSetMut<u64> = QueryComponentSetMut::new();
    let h = Index::from_raw_parts(1, 0);
    s.insert(h, 21);
    let r = s.map_mut_internal(h, |v| (v * 2, v));
    assert_eq!(r, Some(21));
    assert_eq!(s.get(h), Some(&42));
}

#[test]
fn map_mut_on_missing_component_is_empty() {
    let mut s: QueryComponentSetMut<u64> = QueryComponentSetMut::new();
    let h = Index::from_raw_parts(1, 0);
    let r = s.map_mut_internal(h, |v: u64| (v, v));
    assert_eq!(r, None);
}

#[test]
fn size_hint_promises_nothing() {
    let mut s: QueryComponentSetMut<u64> = QueryComponentSetMut::new();
    assert_eq!(s.size_hint(), 0);
    s.insert(Index::from_raw_parts(1, 0), 1);
    assert_eq!(s.size_hint(), 0);
}
