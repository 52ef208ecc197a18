//! The pluggable contact-pair filter.
//!
//! Once per broad-phase-reported candidate pair per step, the pipeline
//! asks the installed hook whether the pair participates in the solver
//! with computed impulses or is skipped entirely. The hook reads physics
//! state through the same adapters as everything else and is total: it
//! cannot fail mid-step and leave solver state invalid.

use vstd::prelude::*;
use crate::identity::ColliderHandle;
use crate::store::ComponentMap;

verus! {

/// Answer flag: solve the pair and compute its impulses.
pub const SOLVER_FLAGS_COMPUTE_IMPULSES: u32 = 1;

/// How a candidate pair is to be solved.
#[derive(Clone, Copy, PartialEq, Eq, Structural, Debug)]
pub struct SolverFlags(pub u32);

/// One broad-phase-reported candidate contact pair.
#[derive(Clone, Copy, PartialEq, Eq, Structural, Debug)]
pub struct PairFilterContext {
    pub collider1: ColliderHandle,
    pub collider2: ColliderHandle,
}

/// A user-installable contact-pair filter with read-only access to a tag
/// component of type `T` on the colliding entities. `Some(flags)` means
/// "participate, solved as the flags say"; `None` means "skip entirely".
pub trait PhysicsHooksWithQuery<T> {
    fn filter_contact_pair(
        &self,
        context: &PairFilterContext,
        tags: &ComponentMap<T>,
    ) -> Option<SolverFlags>;
}

/// The tag-equality filter: a pair participates exactly when the two
/// colliders' tag lookups agree — both carrying the same tag value, or
/// both carrying none.
pub struct SameUserDataFilter;

impl SameUserDataFilter {
    /// Whether a pair with these two tag lookups participates.
    pub open spec fn spec_participates(t1: Option<u64>, t2: Option<u64>) -> bool {
        t1 == t2
    }

    /// Decides one candidate pair. Total: every pair gets an answer, so
    /// no failure can leave the step's solver state invalid.
    pub fn decide(tags: &ComponentMap<u64>, c1: ColliderHandle, c2: ColliderHandle) -> (r:
        Option<SolverFlags>)
        ensures
            r == if SameUserDataFilter::spec_participates(
                tags.spec_value(c1.0),
                tags.spec_value(c2.0),
            ) {
                Some(SolverFlags(SOLVER_FLAGS_COMPUTE_IMPULSES))
            } else {
                None::<SolverFlags>
            },
    {
        let t1 = tags.get(c1.0);
        let t2 = tags.get(c2.0);
        let same = match (t1, t2) {
            (Some(a), Some(b)) => *a == *b,
            (None, None) => true,
            _ => false,
        };
        if same {
            Some(SolverFlags(SOLVER_FLAGS_COMPUTE_IMPULSES))
        } else {
            None
        }
    }
}

impl PhysicsHooksWithQuery<u64> for SameUserDataFilter {
    fn filter_contact_pair(
        &self,
        context: &PairFilterContext,
        tags: &ComponentMap<u64>,
    ) -> Option<SolverFlags> {
        SameUserDataFilter::decide(tags, context.collider1, context.collider2)
    }
}

} // verus!
