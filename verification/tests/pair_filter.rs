use physics_bridge::identity::{ColliderHandle, Index};
use physics_bridge::pair_filter::{
    PairFilterContext, PhysicsHooksWithQuery, SameUserDataFilter, SolverFlags,
    SOLVER_FLAGS_COMPUTE_IMPULSES,
};
use physics_bridge::store::ComponentMap;

const GROUP_A: u64 = 1;
const GROUP_B: u64 = 2;

fn tagged(pairs: &[(u32, u64)]) -> ComponentMap<u64> {
    let mut tags: ComponentMap<u64> = ComponentMap::new();
    for (i, (id, tag)) in pairs.iter().enumerate() {
        tags.insert(Index::from_raw_parts(*id, 0), *tag, (i + 1) as u64);
    }
    tags
}

fn handle(id: u32) -> ColliderHandle {
    ColliderHandle(Index::from_raw_parts(id, 0))
}

#[test]
fn full_symmetric_tag_matrix() {
    let tags = tagged(&[(0, GROUP_A), (1, GROUP_A), (2, GROUP_B), (3, GROUP_B)]);
    let participate = Some(SolverFlags(SOLVER_FLAGS_COMPUTE_IMPULSES));
    for i in 0..4u32 {
        for j in 0..4u32 {
            let r = SameUserDataFilter::decide(&tags, handle(i), handle(j));
            let same_group = (i < 2) == (j < 2);
            if same_group {
                assert_eq!(r, participate, "expected participation for pair ({i}, {j})");
            } else {
                assert_eq!(r, None, "expected skip for pair ({i}, {j})");
            }
        }
    }
}

#[test]
fn both_untagged_colliders_participate() {
    let tags = tagged(&[]);
    let r = SameUserDataFilter::decide(&tags, handle(0), handle(1));
    assert_eq!(r, Some(SolverFlags(SOLVER_FLAGS_COMPUTE_IMPULSES)));
}

#[test]
fn one_untagged_collider_skips() {
    let tags = tagged(&[(0, GROUP_A)]);
    assert_eq!(SameUserDataFilter::decide(&tags, handle(0), handle(1)), None);
    assert_eq!(SameUserDataFilter::decide(&tags, handle(1), handle(0)), None);
}

#[test]
fn hook_trait_dispatches_to_the_same_decision() {
    let tags = tagged(&[(0, GROUP_A), (1, GROUP_B), (2, GROUP_A)]);
    let hook = SameUserDataFilter;
    let ctx = PairFilterContext { collider1: handle(0), collider2: handle(2) };
    assert_eq!(
        hook.filter_contact_pair(&ctx, &tags),
        Some(SolverFlags(SOLVER_FLAGS_COMPUTE_IMPULSES))
    );
    let ctx = PairFilterContext { collider1: handle(0), collider2: handle(1) };
    assert_eq!(hook.filter_contact_pair(&ctx, &tags), None);
}
