//! The collider side of the bridge: the full component set, its bundle,
//! the optional parent link for compound bodies, the change-computation
//! pass, and the narrow read-only view the query pipeline consumes.

use vstd::prelude::*;
use crate::identity::Index;
use crate::store::{ComponentMap, Entry, doms_agree, lemma_stamps_le_mono};
use crate::components::{
    ColliderChanges, ColliderPosition, ColliderBroadPhaseData, ColliderShape, ColliderType,
    ColliderMaterial, ColliderFlags, ColliderMassProps, ColliderParent, CO_CHANGE_POSITION,
    CO_CHANGE_FLAGS, CO_CHANGE_SHAPE, CO_CHANGE_TYPE, CO_CHANGE_PARENT, CO_CHANGE_ALL,
};
use crate::component_set::BundleBuilder;

verus! {

/// One collider's full component set, attached atomically. The parent
/// link is not part of the bundle: free colliders have none and compound
/// members gain one afterwards.
#[derive(Clone, Copy, PartialEq, Eq, Structural, Debug)]
pub struct ColliderBundle {
    pub collider_type: ColliderType,
    pub shape: ColliderShape,
    pub position: ColliderPosition,
    pub material: ColliderMaterial,
    pub flags: ColliderFlags,
    pub mass_properties: ColliderMassProps,
    pub changes: ColliderChanges,
    pub bf_data: ColliderBroadPhaseData,
}

impl ColliderBundle {
    /// A solid unit-diameter ball at the origin with default friction,
    /// zero restitution and no parent.
    pub open spec fn spec_default() -> ColliderBundle {
        ColliderBundle {
            collider_type: ColliderType::Solid,
            shape: (ColliderShape::Ball { radius: crate::components::REAL_BITS_HALF }),
            position: ColliderPosition::spec_default(),
            material: ColliderMaterial::spec_default(),
            flags: ColliderFlags::spec_default(),
            mass_properties: ColliderMassProps::spec_default(),
            changes: ColliderChanges::spec_default(),
            bf_data: ColliderBroadPhaseData::spec_default(),
        }
    }
}

impl Default for ColliderBundle {
    fn default() -> (r: ColliderBundle)
        ensures
            r == ColliderBundle::spec_default(),
    {
        ColliderBundle {
            collider_type: ColliderType::Solid,
            shape: ColliderShape::ball(crate::components::REAL_BITS_HALF),
            position: ColliderPosition::default(),
            material: ColliderMaterial::default(),
            flags: ColliderFlags::default(),
            mass_properties: ColliderMassProps::default(),
            changes: ColliderChanges::default(),
            bf_data: ColliderBroadPhaseData::default(),
        }
    }
}

impl BundleBuilder for ColliderBundle {
    type Bundle = ColliderBundle;

    fn bundle(&self) -> Self::Bundle {
        *self
    }
}

/// The collider component store: one `ComponentMap` per component type,
/// the optional parent-link slice, a write clock, and the observation
/// snapshot of the change-computation pass.
pub struct ColliderComponentsSet {
    changes: ComponentMap<ColliderChanges>,
    positions: ComponentMap<ColliderPosition>,
    bf_data: ComponentMap<ColliderBroadPhaseData>,
    shapes: ComponentMap<ColliderShape>,
    co_types: ComponentMap<ColliderType>,
    materials: ComponentMap<ColliderMaterial>,
    flags: ComponentMap<ColliderFlags>,
    mass_props: ComponentMap<ColliderMassProps>,
    parents: ComponentMap<ColliderParent>,
    clock: u64,
    change_observed: u64,
}

impl ColliderComponentsSet {
    pub closed spec fn spec_changes(self) -> ComponentMap<ColliderChanges> {
        self.changes
    }

    pub closed spec fn spec_positions(self) -> ComponentMap<ColliderPosition> {
        self.positions
    }

    pub closed spec fn spec_bf_data(self) -> ComponentMap<ColliderBroadPhaseData> {
        self.bf_data
    }

    pub closed spec fn spec_shapes(self) -> ComponentMap<ColliderShape> {
        self.shapes
    }

    pub closed spec fn spec_co_types(self) -> ComponentMap<ColliderType> {
        self.co_types
    }

    pub closed spec fn spec_materials(self) -> ComponentMap<ColliderMaterial> {
        self.materials
    }

    pub closed spec fn spec_flags(self) -> ComponentMap<ColliderFlags> {
        self.flags
    }

    pub closed spec fn spec_mass_props(self) -> ComponentMap<ColliderMassProps> {
        self.mass_props
    }

    pub closed spec fn spec_parents(self) -> ComponentMap<ColliderParent> {
        self.parents
    }

    /// The write clock: strictly increases with every write.
    pub closed spec fn spec_clock(self) -> u64 {
        self.clock
    }

    /// The snapshot the change-computation pass last observed up to.
    pub closed spec fn spec_change_observed(self) -> u64 {
        self.change_observed
    }

    /// Well-formedness: every slice is keyed uniquely, every collider
    /// carries the complete bundle field set or none of it, a parent link
    /// only ever belongs to a live collider, no stamp exceeds the clock,
    /// and the pass has not observed past the clock.
    pub open spec fn wf(self) -> bool {
        &&& self.spec_changes().wf()
        &&& self.spec_positions().wf()
        &&& self.spec_bf_data().wf()
        &&& self.spec_shapes().wf()
        &&& self.spec_co_types().wf()
        &&& self.spec_materials().wf()
        &&& self.spec_flags().wf()
        &&& self.spec_mass_props().wf()
        &&& self.spec_parents().wf()
        &&& doms_agree(self.spec_changes(), self.spec_positions())
        &&& doms_agree(self.spec_changes(), self.spec_bf_data())
        &&& doms_agree(self.spec_changes(), self.spec_shapes())
        &&& doms_agree(self.spec_changes(), self.spec_co_types())
        &&& doms_agree(self.spec_changes(), self.spec_materials())
        &&& doms_agree(self.spec_changes(), self.spec_flags())
        &&& doms_agree(self.spec_changes(), self.spec_mass_props())
        &&& forall|h: Index| (#[trigger] self.spec_parents().spec_entry(h)) is Some ==> self.spec_changes().spec_entry(h) is Some
        &&& self.spec_changes().stamps_le(self.spec_clock())
        &&& self.spec_positions().stamps_le(self.spec_clock())
        &&& self.spec_bf_data().stamps_le(self.spec_clock())
        &&& self.spec_shapes().stamps_le(self.spec_clock())
        &&& self.spec_co_types().stamps_le(self.spec_clock())
        &&& self.spec_materials().stamps_le(self.spec_clock())
        &&& self.spec_flags().stamps_le(self.spec_clock())
        &&& self.spec_mass_props().stamps_le(self.spec_clock())
        &&& self.spec_parents().stamps_le(self.spec_clock())
        &&& self.spec_change_observed() <= self.spec_clock()
    }

    /// Whether a live collider stands at this handle.
    pub open spec fn spec_contains(self, handle: Index) -> bool {
        self.spec_changes().contains(handle)
    }

    pub fn new() -> (s: ColliderComponentsSet)
        ensures
            s.wf(),
            s.spec_clock() == 0,
            s.spec_change_observed() == 0,
            forall|h: Index| !(#[trigger] s.spec_contains(h)),
            forall|h: Index| (#[trigger] s.spec_changes().spec_entry(h)) is None,
            forall|h: Index| (#[trigger] s.spec_positions().spec_entry(h)) is None,
            forall|h: Index| (#[trigger] s.spec_bf_data().spec_entry(h)) is None,
            forall|h: Index| (#[trigger] s.spec_shapes().spec_entry(h)) is None,
            forall|h: Index| (#[trigger] s.spec_co_types().spec_entry(h)) is None,
            forall|h: Index| (#[trigger] s.spec_materials().spec_entry(h)) is None,
            forall|h: Index| (#[trigger] s.spec_flags().spec_entry(h)) is None,
            forall|h: Index| (#[trigger] s.spec_mass_props().spec_entry(h)) is None,
            forall|h: Index| (#[trigger] s.spec_parents().spec_entry(h)) is None,
    {
        ColliderComponentsSet {
            changes: ComponentMap::new(),
            positions: ComponentMap::new(),
            bf_data: ComponentMap::new(),
            shapes: ComponentMap::new(),
            co_types: ComponentMap::new(),
            materials: ComponentMap::new(),
            flags: ComponentMap::new(),
            mass_props: ComponentMap::new(),
            parents: ComponentMap::new(),
            clock: 0,
            change_observed: 0,
        }
    }

    pub fn contains(&self, handle: Index) -> (r: bool)
        ensures
            r == self.spec_contains(handle),
    {
        match self.changes.get(handle) {
            Some(_) => true,
            None => false,
        }
    }

    /// The pipeline's lower-bound hint on the collider count; this set
    /// never promises one.
    pub fn size_hint(&self) -> (r: usize)
        ensures
            r == 0,
    {
        0
    }

    /// Atomically attaches one collider's full component set at
    /// `handle`, stamped with the same fresh clock value. The parent
    /// link, not being part of the bundle, stays absent.
    pub fn attach(&mut self, handle: Index, bundle: ColliderBundle)
        requires
            old(self).wf(),
            !old(self).spec_contains(handle),
            old(self).spec_clock() < u64::MAX,
        ensures
            final(self).wf(),
            final(self).spec_clock() == old(self).spec_clock() + 1,
            final(self).spec_change_observed() == old(self).spec_change_observed(),
            final(self).spec_contains(handle),
            final(self).spec_changes().spec_entry(handle) == Some(
                Entry {
                    value: bundle.changes,
                    modified: final(self).spec_clock(),
                    added: final(self).spec_clock(),
                },
            ),
            final(self).spec_positions().spec_entry(handle) == Some(
                Entry {
                    value: bundle.position,
                    modified: final(self).spec_clock(),
                    added: final(self).spec_clock(),
                },
            ),
            final(self).spec_bf_data().spec_entry(handle) == Some(
                Entry {
                    value: bundle.bf_data,
                    modified: final(self).spec_clock(),
                    added: final(self).spec_clock(),
                },
            ),
            final(self).spec_shapes().spec_entry(handle) == Some(
                Entry {
                    value: bundle.shape,
                    modified: final(self).spec_clock(),
                    added: final(self).spec_clock(),
                },
            ),
            final(self).spec_co_types().spec_entry(handle) == Some(
                Entry {
                    value: bundle.collider_type,
                    modified: final(self).spec_clock(),
                    added: final(self).spec_clock(),
                },
            ),
            final(self).spec_materials().spec_entry(handle) == Some(
                Entry {
                    value: bundle.material,
                    modified: final(self).spec_clock(),
                    added: final(self).spec_clock(),
                },
            ),
            final(self).spec_flags().spec_entry(handle) == Some(
                Entry {
                    value: bundle.flags,
                    modified: final(self).spec_clock(),
                    added: final(self).spec_clock(),
                },
            ),
            final(self).spec_mass_props().spec_entry(handle) == Some(
                Entry {
                    value: bundle.mass_properties,
                    modified: final(self).spec_clock(),
                    added: final(self).spec_clock(),
                },
            ),
            final(self).spec_parents() == old(self).spec_parents(),
            forall|h2: Index|
                h2 != handle ==> (#[trigger] final(self).spec_changes().spec_entry(h2)) == old(
                    self,
                ).spec_changes().spec_entry(h2),
            forall|h2: Index|
                h2 != handle ==> (#[trigger] final(self).spec_positions().spec_entry(h2)) == old(
                    self,
                ).spec_positions().spec_entry(h2),
            forall|h2: Index|
                h2 != handle ==> (#[trigger] final(self).spec_bf_data().spec_entry(h2)) == old(
                    self,
                ).spec_bf_data().spec_entry(h2),
            forall|h2: Index|
                h2 != handle ==> (#[trigger] final(self).spec_shapes().spec_entry(h2)) == old(
                    self,
                ).spec_shapes().spec_entry(h2),
            forall|h2: Index|
                h2 != handle ==> (#[trigger] final(self).spec_co_types().spec_entry(h2)) == old(
                    self,
                ).spec_co_types().spec_entry(h2),
            forall|h2: Index|
                h2 != handle ==> (#[trigger] final(self).spec_materials().spec_entry(h2)) == old(
                    self,
                ).spec_materials().spec_entry(h2),
            forall|h2: Index|
                h2 != handle ==> (#[trigger] final(self).spec_flags().spec_entry(h2)) == old(
                    self,
                ).spec_flags().spec_entry(h2),
            forall|h2: Index|
                h2 != handle ==> (#[trigger] final(self).spec_mass_props().spec_entry(h2)) == old(
                    self,
                ).spec_mass_props().spec_entry(h2),
    {
        self.clock = self.clock + 1;
        let stamp = self.clock;
        self.changes.insert(handle, bundle.changes, stamp);
        self.positions.insert(handle, bundle.position, stamp);
        self.bf_data.insert(handle, bundle.bf_data, stamp);
        self.shapes.insert(handle, bundle.shape, stamp);
        self.co_types.insert(handle, bundle.collider_type, stamp);
        self.materials.insert(handle, bundle.material, stamp);
        self.flags.insert(handle, bundle.flags, stamp);
        self.mass_props.insert(handle, bundle.mass_properties, stamp);
        proof {
            lemma_stamps_le_mono(old(self).spec_changes(), old(self).spec_clock(), stamp);
            lemma_stamps_le_mono(old(self).spec_positions(), old(self).spec_clock(), stamp);
            lemma_stamps_le_mono(old(self).spec_bf_data(), old(self).spec_clock(), stamp);
            lemma_stamps_le_mono(old(self).spec_shapes(), old(self).spec_clock(), stamp);
            lemma_stamps_le_mono(old(self).spec_co_types(), old(self).spec_clock(), stamp);
            lemma_stamps_le_mono(old(self).spec_materials(), old(self).spec_clock(), stamp);
            lemma_stamps_le_mono(old(self).spec_flags(), old(self).spec_clock(), stamp);
            lemma_stamps_le_mono(old(self).spec_mass_props(), old(self).spec_clock(), stamp);
            lemma_stamps_le_mono(old(self).spec_parents(), old(self).spec_clock(), stamp);
        }
    }

    /// Removes the collider's complete component set, parent link
    /// included, as on entity despawn.
    pub fn despawn(&mut self, handle: Index)
        requires
            old(self).wf(),
        ensures
            final(self).wf(),
            final(self).spec_clock() == old(self).spec_clock(),
            final(self).spec_change_observed() == old(self).spec_change_observed(),
            !final(self).spec_contains(handle),
            final(self).spec_changes().spec_entry(handle) is None,
            final(self).spec_positions().spec_entry(handle) is None,
            final(self).spec_bf_data().spec_entry(handle) is None,
            final(self).spec_shapes().spec_entry(handle) is None,
            final(self).spec_co_types().spec_entry(handle) is None,
            final(self).spec_materials().spec_entry(handle) is None,
            final(self).spec_flags().spec_entry(handle) is None,
            final(self).spec_mass_props().spec_entry(handle) is None,
            final(self).spec_parents().spec_entry(handle) is None,
            forall|h2: Index|
                h2 != handle ==> (#[trigger] final(self).spec_changes().spec_entry(h2)) == old(
                    self,
                ).spec_changes().spec_entry(h2),
            forall|h2: Index|
                h2 != handle ==> (#[trigger] final(self).spec_positions().spec_entry(h2)) == old(
                    self,
                ).spec_positions().spec_entry(h2),
            forall|h2: Index|
                h2 != handle ==> (#[trigger] final(self).spec_bf_data().spec_entry(h2)) == old(
                    self,
                ).spec_bf_data().spec_entry(h2),
            forall|h2: Index|
                h2 != handle ==> (#[trigger] final(self).spec_shapes().spec_entry(h2)) == old(
                    self,
                ).spec_shapes().spec_entry(h2),
            forall|h2: Index|
                h2 != handle ==> (#[trigger] final(self).spec_co_types().spec_entry(h2)) == old(
                    self,
                ).spec_co_types().spec_entry(h2),
            forall|h2: Index|
                h2 != handle ==> (#[trigger] final(self).spec_materials().spec_entry(h2)) == old(
                    self,
                ).spec_materials().spec_entry(h2),
            forall|h2: Index|
                h2 != handle ==> (#[trigger] final(self).spec_flags().spec_entry(h2)) == old(
                    self,
                ).spec_flags().spec_entry(h2),
            forall|h2: Index|
                h2 != handle ==> (#[trigger] final(self).spec_mass_props().spec_entry(h2)) == old(
                    self,
                ).spec_mass_props().spec_entry(h2),
            forall|h2: Index|
                h2 != handle ==> (#[trigger] final(self).spec_parents().spec_entry(h2)) == old(
                    self,
                ).spec_parents().spec_entry(h2),
    {
        self.changes.remove(handle);
        self.positions.remove(handle);
        self.bf_data.remove(handle);
        self.shapes.remove(handle);
        self.co_types.remove(handle);
        self.materials.remove(handle);
        self.flags.remove(handle);
        self.mass_props.remove(handle);
        self.parents.remove(handle);
    }

    /// Point lookup of the collider's `ColliderChanges`; empty if the entity lacks
    /// it or no longer exists.
    pub fn changes(&self, handle: Index) -> (r: Option<&ColliderChanges>)
        ensures
            match r {
                Some(v) => self.spec_changes().spec_value(handle) == Some(*v),
                None => self.spec_changes().spec_value(handle) is None,
            },
    {
        self.changes.get(handle)
    }

    /// Visits every live collider carrying `ColliderChanges` exactly once; the order
    /// is unspecified and callers must not depend on it.
    pub fn for_each_changes(&self) -> (r: Vec<(Index, ColliderChanges)>)
        requires
            self.wf(),
        ensures
            r@.len() == self.spec_changes().spec_len(),
            forall|i: int|
                0 <= i < r@.len() ==> self.spec_changes().spec_value(#[trigger] r@[i].0) == Some(
                    r@[i].1,
                ),
            forall|i: int, j: int|
                0 <= i < j < r@.len() ==> (#[trigger] r@[i].0) != (#[trigger] r@[j].0),
            forall|h: Index|
                self.spec_changes().contains(h) ==> exists|i: int|
                    0 <= i < r@.len() && (#[trigger] r@[i].0) == h,
    {
        self.changes.for_each()
    }

    /// Point lookup of the collider's `ColliderPosition`; empty if the entity lacks
    /// it or no longer exists.
    pub fn position(&self, handle: Index) -> (r: Option<&ColliderPosition>)
        ensures
            match r {
                Some(v) => self.spec_positions().spec_value(handle) == Some(*v),
                None => self.spec_positions().spec_value(handle) is None,
            },
    {
        self.positions.get(handle)
    }

    /// Visits every live collider carrying `ColliderPosition` exactly once; the order
    /// is unspecified and callers must not depend on it.
    pub fn for_each_position(&self) -> (r: Vec<(Index, ColliderPosition)>)
        requires
            self.wf(),
        ensures
            r@.len() == self.spec_positions().spec_len(),
            forall|i: int|
                0 <= i < r@.len() ==> self.spec_positions().spec_value(#[trigger] r@[i].0) == Some(
                    r@[i].1,
                ),
            forall|i: int, j: int|
                0 <= i < j < r@.len() ==> (#[trigger] r@[i].0) != (#[trigger] r@[j].0),
            forall|h: Index|
                self.spec_positions().contains(h) ==> exists|i: int|
                    0 <= i < r@.len() && (#[trigger] r@[i].0) == h,
    {
        self.positions.for_each()
    }

    /// Point lookup of the collider's `ColliderBroadPhaseData`; empty if the entity lacks
    /// it or no longer exists.
    pub fn broad_phase_data(&self, handle: Index) -> (r: Option<&ColliderBroadPhaseData>)
        ensures
            match r {
                Some(v) => self.spec_bf_data().spec_value(handle) == Some(*v),
                None => self.spec_bf_data().spec_value(handle) is None,
            },
    {
        self.bf_data.get(handle)
    }

    /// Visits every live collider carrying `ColliderBroadPhaseData` exactly once; the order
    /// is unspecified and callers must not depend on it.
    pub fn for_each_broad_phase_data(&self) -> (r: Vec<(Index, ColliderBroadPhaseData)>)
        requires
            self.wf(),
        ensures
            r@.len() == self.spec_bf_data().spec_len(),
            forall|i: int|
                0 <= i < r@.len() ==> self.spec_bf_data().spec_value(#[trigger] r@[i].0) == Some(
                    r@[i].1,
                ),
            forall|i: int, j: int|
                0 <= i < j < r@.len() ==> (#[trigger] r@[i].0) != (#[trigger] r@[j].0),
            forall|h: Index|
                self.spec_bf_data().contains(h) ==> exists|i: int|
                    0 <= i < r@.len() && (#[trigger] r@[i].0) == h,
    {
        self.bf_data.for_each()
    }

    /// Point lookup of the collider's `ColliderShape`; empty if the entity lacks
    /// it or no longer exists.
    pub fn shape(&self, handle: Index) -> (r: Option<&ColliderShape>)
        ensures
            match r {
                Some(v) => self.spec_shapes().spec_value(handle) == Some(*v),
                None => self.spec_shapes().spec_value(handle) is None,
            },
    {
        self.shapes.get(handle)
    }

    /// Visits every live collider carrying `ColliderShape` exactly once; the order
    /// is unspecified and callers must not depend on it.
    pub fn for_each_shape(&self) -> (r: Vec<(Index, ColliderShape)>)
        requires
            self.wf(),
        ensures
            r@.len() == self.spec_shapes().spec_len(),
            forall|i: int|
                0 <= i < r@.len() ==> self.spec_shapes().spec_value(#[trigger] r@[i].0) == Some(
                    r@[i].1,
                ),
            forall|i: int, j: int|
                0 <= i < j < r@.len() ==> (#[trigger] r@[i].0) != (#[trigger] r@[j].0),
            forall|h: Index|
                self.spec_shapes().contains(h) ==> exists|i: int|
                    0 <= i < r@.len() && (#[trigger] r@[i].0) == h,
    {
        self.shapes.for_each()
    }

    /// Point lookup of the collider's `ColliderType`; empty if the entity lacks
    /// it or no longer exists.
    pub fn collider_type(&self, handle: Index) -> (r: Option<&ColliderType>)
        ensures
            match r {
                Some(v) => self.spec_co_types().spec_value(handle) == Some(*v),
                None => self.spec_co_types().spec_value(handle) is None,
            },
    {
        self.co_types.get(handle)
    }

    /// Visits every live collider carrying `ColliderType` exactly once; the order
    /// is unspecified and callers must not depend on it.
    pub fn for_each_collider_type(&self) -> (r: Vec<(Index, ColliderType)>)
        requires
            self.wf(),
        ensures
            r@.len() == self.spec_co_types().spec_len(),
            forall|i: int|
                0 <= i < r@.len() ==> self.spec_co_types().spec_value(#[trigger] r@[i].0) == Some(
                    r@[i].1,
                ),
            forall|i: int, j: int|
                0 <= i < j < r@.len() ==> (#[trigger] r@[i].0) != (#[trigger] r@[j].0),
            forall|h: Index|
                self.spec_co_types().contains(h) ==> exists|i: int|
                    0 <= i < r@.len() && (#[trigger] r@[i].0) == h,
    {
        self.co_types.for_each()
    }

    /// Point lookup of the collider's `ColliderMaterial`; empty if the entity lacks
    /// it or no longer exists.
    pub fn material(&self, handle: Index) -> (r: Option<&ColliderMaterial>)
        ensures
            match r {
                Some(v) => self.spec_materials().spec_value(handle) == Some(*v),
                None => self.spec_materials().spec_value(handle) is None,
            },
    {
        self.materials.get(handle)
    }

    /// Visits every live collider carrying `ColliderMaterial` exactly once; the order
    /// is unspecified and callers must not depend on it.
    pub fn for_each_material(&self) -> (r: Vec<(Index, ColliderMaterial)>)
        requires
            self.wf(),
        ensures
            r@.len() == self.spec_materials().spec_len(),
            forall|i: int|
                0 <= i < r@.len() ==> self.spec_materials().spec_value(#[trigger] r@[i].0) == Some(
                    r@[i].1,
                ),
            forall|i: int, j: int|
                0 <= i < j < r@.len() ==> (#[trigger] r@[i].0) != (#[trigger] r@[j].0),
            forall|h: Index|
                self.spec_materials().contains(h) ==> exists|i: int|
                    0 <= i < r@.len() && (#[trigger] r@[i].0) == h,
    {
        self.materials.for_each()
    }

    /// Point lookup of the collider's `ColliderFlags`; empty if the entity lacks
    /// it or no longer exists.
    pub fn flags(&self, handle: Index) -> (r: Option<&ColliderFlags>)
        ensures
            match r {
                Some(v) => self.spec_flags().spec_value(handle) == Some(*v),
                None => self.spec_flags().spec_value(handle) is None,
            },
    {
        self.flags.get(handle)
    }

    /// Visits every live collider carrying `ColliderFlags` exactly once; the order
    /// is unspecified and callers must not depend on it.
    pub fn for_each_flags(&self) -> (r: Vec<(Index, ColliderFlags)>)
        requires
            self.wf(),
        ensures
            r@.len() == self.spec_flags().spec_len(),
            forall|i: int|
                0 <= i < r@.len() ==> self.spec_flags().spec_value(#[trigger] r@[i].0) == Some(
                    r@[i].1,
                ),
            forall|i: int, j: int|
                0 <= i < j < r@.len() ==> (#[trigger] r@[i].0) != (#[trigger] r@[j].0),
            forall|h: Index|
                self.spec_flags().contains(h) ==> exists|i: int|
                    0 <= i < r@.len() && (#[trigger] r@[i].0) == h,
    {
        self.flags.for_each()
    }

    /// Point lookup of the collider's `ColliderMassProps`; empty if the entity lacks
    /// it or no longer exists.
    pub fn mass_props(&self, handle: Index) -> (r: Option<&ColliderMassProps>)
        ensures
            match r {
                Some(v) => self.spec_mass_props().spec_value(handle) == Some(*v),
                None => self.spec_mass_props().spec_value(handle) is None,
            },
    {
        self.mass_props.get(handle)
    }

    /// Visits every live collider carrying `ColliderMassProps` exactly once; the order
    /// is unspecified and callers must not depend on it.
    pub fn for_each_mass_props(&self) -> (r: Vec<(Index, ColliderMassProps)>)
        requires
            self.wf(),
        ensures
            r@.len() == self.spec_mass_props().spec_len(),
            forall|i: int|
                0 <= i < r@.len() ==> self.spec_mass_props().spec_value(#[trigger] r@[i].0) == Some(
                    r@[i].1,
                ),
            forall|i: int, j: int|
                0 <= i < j < r@.len() ==> (#[trigger] r@[i].0) != (#[trigger] r@[j].0),
            forall|h: Index|
                self.spec_mass_props().contains(h) ==> exists|i: int|
                    0 <= i < r@.len() && (#[trigger] r@[i].0) == h,
    {
        self.mass_props.for_each()
    }

    /// Point lookup of the collider's optional parent link; empty both
    /// for a missing collider and for a live collider without a parent.
    pub fn parent(&self, handle: Index) -> (r: Option<&ColliderParent>)
        ensures
            match r {
                Some(v) => self.spec_parents().spec_value(handle) == Some(*v),
                None => self.spec_parents().spec_value(handle) is None,
            },
    {
        self.parents.get(handle)
    }

    /// Point update of the collider's `ColliderChanges`, stamped by the write
    /// clock; a no-op (not an error) if the entity lacks it.
    pub fn set_changes(&mut self, handle: Index, value: ColliderChanges)
        requires
            old(self).wf(),
            old(self).spec_clock() < u64::MAX,
        ensures
            final(self).wf(),
            final(self).spec_clock() == old(self).spec_clock() + 1,
            final(self).spec_change_observed() == old(self).spec_change_observed(),
            match old(self).spec_changes().spec_entry(handle) {
                Some(e) => final(self).spec_changes().spec_entry(handle) == Some(
                    Entry { value, modified: final(self).spec_clock(), added: e.added },
                ),
                None => final(self).spec_changes().spec_entry(handle) is None,
            },
            forall|h2: Index|
                h2 != handle ==> (#[trigger] final(self).spec_changes().spec_entry(h2)) == old(
                    self,
                ).spec_changes().spec_entry(h2),
            final(self).spec_positions() == old(self).spec_positions(),
            final(self).spec_bf_data() == old(self).spec_bf_data(),
            final(self).spec_shapes() == old(self).spec_shapes(),
            final(self).spec_co_types() == old(self).spec_co_types(),
            final(self).spec_materials() == old(self).spec_materials(),
            final(self).spec_flags() == old(self).spec_flags(),
            final(self).spec_mass_props() == old(self).spec_mass_props(),
            final(self).spec_parents() == old(self).spec_parents(),
    {
        self.clock = self.clock + 1;
        self.changes.set(handle, value, self.clock);
        proof {
            lemma_stamps_le_mono(old(self).spec_changes(), old(self).spec_clock(), self.clock);
            lemma_stamps_le_mono(old(self).spec_positions(), old(self).spec_clock(), self.clock);
            lemma_stamps_le_mono(old(self).spec_bf_data(), old(self).spec_clock(), self.clock);
            lemma_stamps_le_mono(old(self).spec_shapes(), old(self).spec_clock(), self.clock);
            lemma_stamps_le_mono(old(self).spec_co_types(), old(self).spec_clock(), self.clock);
            lemma_stamps_le_mono(old(self).spec_materials(), old(self).spec_clock(), self.clock);
            lemma_stamps_le_mono(old(self).spec_flags(), old(self).spec_clock(), self.clock);
            lemma_stamps_le_mono(old(self).spec_mass_props(), old(self).spec_clock(), self.clock);
            lemma_stamps_le_mono(old(self).spec_parents(), old(self).spec_clock(), self.clock);
        }
    }

    /// Point update of the collider's `ColliderPosition`, stamped by the write
    /// clock; a no-op (not an error) if the entity lacks it.
    pub fn set_position(&mut self, handle: Index, value: ColliderPosition)
        requires
            old(self).wf(),
            old(self).spec_clock() < u64::MAX,
        ensures
            final(self).wf(),
            final(self).spec_clock() == old(self).spec_clock() + 1,
            final(self).spec_change_observed() == old(self).spec_change_observed(),
            match old(self).spec_positions().spec_entry(handle) {
                Some(e) => final(self).spec_positions().spec_entry(handle) == Some(
                    Entry { value, modified: final(self).spec_clock(), added: e.added },
                ),
                None => final(self).spec_positions().spec_entry(handle) is None,
            },
            forall|h2: Index|
                h2 != handle ==> (#[trigger] final(self).spec_positions().spec_entry(h2)) == old(
                    self,
                ).spec_positions().spec_entry(h2),
            final(self).spec_changes() == old(self).spec_changes(),
            final(self).spec_bf_data() == old(self).spec_bf_data(),
            final(self).spec_shapes() == old(self).spec_shapes(),
            final(self).spec_co_types() == old(self).spec_co_types(),
            final(self).spec_materials() == old(self).spec_materials(),
            final(self).spec_flags() == old(self).spec_flags(),
            final(self).spec_mass_props() == old(self).spec_mass_props(),
            final(self).spec_parents() == old(self).spec_parents(),
    {
        self.clock = self.clock + 1;
        self.positions.set(handle, value, self.clock);
        proof {
            lemma_stamps_le_mono(old(self).spec_changes(), old(self).spec_clock(), self.clock);
            lemma_stamps_le_mono(old(self).spec_positions(), old(self).spec_clock(), self.clock);
            lemma_stamps_le_mono(old(self).spec_bf_data(), old(self).spec_clock(), self.clock);
            lemma_stamps_le_mono(old(self).spec_shapes(), old(self).spec_clock(), self.clock);
            lemma_stamps_le_mono(old(self).spec_co_types(), old(self).spec_clock(), self.clock);
            lemma_stamps_le_mono(old(self).spec_materials(), old(self).spec_clock(), self.clock);
            lemma_stamps_le_mono(old(self).spec_flags(), old(self).spec_clock(), self.clock);
            lemma_stamps_le_mono(old(self).spec_mass_props(), old(self).spec_clock(), self.clock);
            lemma_stamps_le_mono(old(self).spec_parents(), old(self).spec_clock(), self.clock);
        }
    }

    /// Point update of the collider's `ColliderBroadPhaseData`, stamped by the write
    /// clock; a no-op (not an error) if the entity lacks it.
    pub fn set_broad_phase_data(&mut self, handle: Index, value: ColliderBroadPhaseData)
        requires
            old(self).wf(),
            old(self).spec_clock() < u64::MAX,
        ensures
            final(self).wf(),
            final(self).spec_clock() == old(self).spec_clock() + 1,
            final(self).spec_change_observed() == old(self).spec_change_observed(),
            match old(self).spec_bf_data().spec_entry(handle) {
                Some(e) => final(self).spec_bf_data().spec_entry(handle) == Some(
                    Entry { value, modified: final(self).spec_clock(), added: e.added },
                ),
                None => final(self).spec_bf_data().spec_entry(handle) is None,
            },
            forall|h2: Index|
                h2 != handle ==> (#[trigger] final(self).spec_bf_data().spec_entry(h2)) == old(
                    self,
                ).spec_bf_data().spec_entry(h2),
            final(self).spec_changes() == old(self).spec_changes(),
            final(self).spec_positions() == old(self).spec_positions(),
            final(self).spec_shapes() == old(self).spec_shapes(),
            final(self).spec_co_types() == old(self).spec_co_types(),
            final(self).spec_materials() == old(self).spec_materials(),
            final(self).spec_flags() == old(self).spec_flags(),
            final(self).spec_mass_props() == old(self).spec_mass_props(),
            final(self).spec_parents() == old(self).spec_parents(),
    {
        self.clock = self.clock + 1;
        self.bf_data.set(handle, value, self.clock);
        proof {
            lemma_stamps_le_mono(old(self).spec_changes(), old(self).spec_clock(), self.clock);
            lemma_stamps_le_mono(old(self).spec_positions(), old(self).spec_clock(), self.clock);
            lemma_stamps_le_mono(old(self).spec_bf_data(), old(self).spec_clock(), self.clock);
            lemma_stamps_le_mono(old(self).spec_shapes(), old(self).spec_clock(), self.clock);
            lemma_stamps_le_mono(old(self).spec_co_types(), old(self).spec_clock(), self.clock);
            lemma_stamps_le_mono(old(self).spec_materials(), old(self).spec_clock(), self.clock);
            lemma_stamps_le_mono(old(self).spec_flags(), old(self).spec_clock(), self.clock);
            lemma_stamps_le_mono(old(self).spec_mass_props(), old(self).spec_clock(), self.clock);
            lemma_stamps_le_mono(old(self).spec_parents(), old(self).spec_clock(), self.clock);
        }
    }

    /// Gives a live collider a parent link, or replaces the one it has:
    /// how a compound body adopts a member. Stamped like any write, so
    /// the next pass flags the parent category.
    pub fn set_parent(&mut self, handle: Index, value: ColliderParent)
        requires
            old(self).wf(),
            old(self).spec_contains(handle),
            old(self).spec_clock() < u64::MAX,
        ensures
            final(self).wf(),
            final(self).spec_clock() == old(self).spec_clock() + 1,
            final(self).spec_change_observed() == old(self).spec_change_observed(),
            match old(self).spec_parents().spec_entry(handle) {
                Some(e) => final(self).spec_parents().spec_entry(handle) == Some(
                    Entry { value, modified: final(self).spec_clock(), added: e.added },
                ),
                None => final(self).spec_parents().spec_entry(handle) == Some(
                    Entry {
                        value,
                        modified: final(self).spec_clock(),
                        added: final(self).spec_clock(),
                    },
                ),
            },
            forall|h2: Index|
                h2 != handle ==> (#[trigger] final(self).spec_parents().spec_entry(h2)) == old(
                    self,
                ).spec_parents().spec_entry(h2),
            final(self).spec_changes() == old(self).spec_changes(),
            final(self).spec_positions() == old(self).spec_positions(),
            final(self).spec_bf_data() == old(self).spec_bf_data(),
            final(self).spec_shapes() == old(self).spec_shapes(),
            final(self).spec_co_types() == old(self).spec_co_types(),
            final(self).spec_materials() == old(self).spec_materials(),
            final(self).spec_flags() == old(self).spec_flags(),
            final(self).spec_mass_props() == old(self).spec_mass_props(),
    {
        self.clock = self.clock + 1;
        let present = match self.parents.get(handle) {
            Some(_) => true,
            None => false,
        };
        if present {
            self.parents.set(handle, value, self.clock);
        } else {
            self.parents.insert(handle, value, self.clock);
        }
        proof {
            lemma_stamps_le_mono(old(self).spec_changes(), old(self).spec_clock(), self.clock);
            lemma_stamps_le_mono(old(self).spec_positions(), old(self).spec_clock(), self.clock);
            lemma_stamps_le_mono(old(self).spec_bf_data(), old(self).spec_clock(), self.clock);
            lemma_stamps_le_mono(old(self).spec_shapes(), old(self).spec_clock(), self.clock);
            lemma_stamps_le_mono(old(self).spec_co_types(), old(self).spec_clock(), self.clock);
            lemma_stamps_le_mono(old(self).spec_materials(), old(self).spec_clock(), self.clock);
            lemma_stamps_le_mono(old(self).spec_flags(), old(self).spec_clock(), self.clock);
            lemma_stamps_le_mono(old(self).spec_mass_props(), old(self).spec_clock(), self.clock);
            lemma_stamps_le_mono(old(self).spec_parents(), old(self).spec_clock(), self.clock);
        }
    }

    /// In-place mapping of the body of `ColliderChanges` at `handle`: applies `f`
    /// and stores the first half of its result, stamped by the write
    /// clock; `None`, and no write, if the entity lacks it.
    pub fn map_mut_changes<Res, F: FnOnce(ColliderChanges) -> (ColliderChanges, Res)>(
        &mut self,
        handle: Index,
        f: F,
    ) -> (r: Option<Res>)
        requires
            old(self).wf(),
            old(self).spec_clock() < u64::MAX,
            forall|v: ColliderChanges|
                old(self).spec_changes().spec_value(handle) == Some(v) ==> call_requires(f, (v,)),
        ensures
            final(self).wf(),
            final(self).spec_clock() == old(self).spec_clock() + 1,
            final(self).spec_change_observed() == old(self).spec_change_observed(),
            match old(self).spec_changes().spec_entry(handle) {
                Some(e) => exists|p: (ColliderChanges, Res)|
                    {
                        &&& #[trigger] call_ensures(f, (e.value,), p)
                        &&& final(self).spec_changes().spec_entry(handle) == Some(
                            Entry { value: p.0, modified: final(self).spec_clock(), added: e.added },
                        )
                        &&& r == Some(p.1)
                    },
                None => final(self).spec_changes().spec_entry(handle) is None && r is None,
            },
            forall|h2: Index|
                h2 != handle ==> (#[trigger] final(self).spec_changes().spec_entry(h2)) == old(
                    self,
                ).spec_changes().spec_entry(h2),
            final(self).spec_positions() == old(self).spec_positions(),
            final(self).spec_bf_data() == old(self).spec_bf_data(),
            final(self).spec_shapes() == old(self).spec_shapes(),
            final(self).spec_co_types() == old(self).spec_co_types(),
            final(self).spec_materials() == old(self).spec_materials(),
            final(self).spec_flags() == old(self).spec_flags(),
            final(self).spec_mass_props() == old(self).spec_mass_props(),
            final(self).spec_parents() == old(self).spec_parents(),
    {
        self.clock = self.clock + 1;
        let r = self.changes.map_mut(handle, f, self.clock);
        proof {
            lemma_stamps_le_mono(old(self).spec_changes(), old(self).spec_clock(), self.clock);
            lemma_stamps_le_mono(old(self).spec_positions(), old(self).spec_clock(), self.clock);
            lemma_stamps_le_mono(old(self).spec_bf_data(), old(self).spec_clock(), self.clock);
            lemma_stamps_le_mono(old(self).spec_shapes(), old(self).spec_clock(), self.clock);
            lemma_stamps_le_mono(old(self).spec_co_types(), old(self).spec_clock(), self.clock);
            lemma_stamps_le_mono(old(self).spec_materials(), old(self).spec_clock(), self.clock);
            lemma_stamps_le_mono(old(self).spec_flags(), old(self).spec_clock(), self.clock);
            lemma_stamps_le_mono(old(self).spec_mass_props(), old(self).spec_clock(), self.clock);
            lemma_stamps_le_mono(old(self).spec_parents(), old(self).spec_clock(), self.clock);
        }
        r
    }

    /// In-place mapping of the body of `ColliderPosition` at `handle`: applies `f`
    /// and stores the first half of its result, stamped by the write
    /// clock; `None`, and no write, if the entity lacks it.
    pub fn map_mut_position<Res, F: FnOnce(ColliderPosition) -> (ColliderPosition, Res)>(
        &mut self,
        handle: Index,
        f: F,
    ) -> (r: Option<Res>)
        requires
            old(self).wf(),
            old(self).spec_clock() < u64::MAX,
            forall|v: ColliderPosition|
                old(self).spec_positions().spec_value(handle) == Some(v) ==> call_requires(f, (v,)),
        ensures
            final(self).wf(),
            final(self).spec_clock() == old(self).spec_clock() + 1,
            final(self).spec_change_observed() == old(self).spec_change_observed(),
            match old(self).spec_positions().spec_entry(handle) {
                Some(e) => exists|p: (ColliderPosition, Res)|
                    {
                        &&& #[trigger] call_ensures(f, (e.value,), p)
                        &&& final(self).spec_positions().spec_entry(handle) == Some(
                            Entry { value: p.0, modified: final(self).spec_clock(), added: e.added },
                        )
                        &&& r == Some(p.1)
                    },
                None => final(self).spec_positions().spec_entry(handle) is None && r is None,
            },
            forall|h2: Index|
                h2 != handle ==> (#[trigger] final(self).spec_positions().spec_entry(h2)) == old(
                    self,
                ).spec_positions().spec_entry(h2),
            final(self).spec_changes() == old(self).spec_changes(),
            final(self).spec_bf_data() == old(self).spec_bf_data(),
            final(self).spec_shapes() == old(self).spec_shapes(),
            final(self).spec_co_types() == old(self).spec_co_types(),
            final(self).spec_materials() == old(self).spec_materials(),
            final(self).spec_flags() == old(self).spec_flags(),
            final(self).spec_mass_props() == old(self).spec_mass_props(),
            final(self).spec_parents() == old(self).spec_parents(),
    {
        self.clock = self.clock + 1;
        let r = self.positions.map_mut(handle, f, self.clock);
        proof {
            lemma_stamps_le_mono(old(self).spec_changes(), old(self).spec_clock(), self.clock);
            lemma_stamps_le_mono(old(self).spec_positions(), old(self).spec_clock(), self.clock);
            lemma_stamps_le_mono(old(self).spec_bf_data(), old(self).spec_clock(), self.clock);
            lemma_stamps_le_mono(old(self).spec_shapes(), old(self).spec_clock(), self.clock);
            lemma_stamps_le_mono(old(self).spec_co_types(), old(self).spec_clock(), self.clock);
            lemma_stamps_le_mono(old(self).spec_materials(), old(self).spec_clock(), self.clock);
            lemma_stamps_le_mono(old(self).spec_flags(), old(self).spec_clock(), self.clock);
            lemma_stamps_le_mono(old(self).spec_mass_props(), old(self).spec_clock(), self.clock);
            lemma_stamps_le_mono(old(self).spec_parents(), old(self).spec_clock(), self.clock);
        }
        r
    }

    /// In-place mapping of the body of `ColliderBroadPhaseData` at `handle`: applies `f`
    /// and stores the first half of its result, stamped by the write
    /// clock; `None`, and no write, if the entity lacks it.
    pub fn map_mut_broad_phase_data<Res, F: FnOnce(ColliderBroadPhaseData) -> (ColliderBroadPhaseData, Res)>(
        &mut self,
        handle: Index,
        f: F,
    ) -> (r: Option<Res>)
        requires
            old(self).wf(),
            old(self).spec_clock() < u64::MAX,
            forall|v: ColliderBroadPhaseData|
                old(self).spec_bf_data().spec_value(handle) == Some(v) ==> call_requires(f, (v,)),
        ensures
            final(self).wf(),
            final(self).spec_clock() == old(self).spec_clock() + 1,
            final(self).spec_change_observed() == old(self).spec_change_observed(),
            match old(self).spec_bf_data().spec_entry(handle) {
                Some(e) => exists|p: (ColliderBroadPhaseData, Res)|
                    {
                        &&& #[trigger] call_ensures(f, (e.value,), p)
                        &&& final(self).spec_bf_data().spec_entry(handle) == Some(
                            Entry { value: p.0, modified: final(self).spec_clock(), added: e.added },
                        )
                        &&& r == Some(p.1)
                    },
                None => final(self).spec_bf_data().spec_entry(handle) is None && r is None,
            },
            forall|h2: Index|
                h2 != handle ==> (#[trigger] final(self).spec_bf_data().spec_entry(h2)) == old(
                    self,
                ).spec_bf_data().spec_entry(h2),
            final(self).spec_changes() == old(self).spec_changes(),
            final(self).spec_positions() == old(self).spec_positions(),
            final(self).spec_shapes() == old(self).spec_shapes(),
            final(self).spec_co_types() == old(self).spec_co_types(),
            final(self).spec_materials() == old(self).spec_materials(),
            final(self).spec_flags() == old(self).spec_flags(),
            final(self).spec_mass_props() == old(self).spec_mass_props(),
            final(self).spec_parents() == old(self).spec_parents(),
    {
        self.clock = self.clock + 1;
        let r = self.bf_data.map_mut(handle, f, self.clock);
        proof {
            lemma_stamps_le_mono(old(self).spec_changes(), old(self).spec_clock(), self.clock);
            lemma_stamps_le_mono(old(self).spec_positions(), old(self).spec_clock(), self.clock);
            lemma_stamps_le_mono(old(self).spec_bf_data(), old(self).spec_clock(), self.clock);
            lemma_stamps_le_mono(old(self).spec_shapes(), old(self).spec_clock(), self.clock);
            lemma_stamps_le_mono(old(self).spec_co_types(), old(self).spec_clock(), self.clock);
            lemma_stamps_le_mono(old(self).spec_materials(), old(self).spec_clock(), self.clock);
            lemma_stamps_le_mono(old(self).spec_flags(), old(self).spec_clock(), self.clock);
            lemma_stamps_le_mono(old(self).spec_mass_props(), old(self).spec_clock(), self.clock);
            lemma_stamps_le_mono(old(self).spec_parents(), old(self).spec_clock(), self.clock);
        }
        r
    }

    /// The change categories the pass computes for `handle` from the
    /// write stamps: one bit per watched field category whose component
    /// was modified or added since the pass last observed. Insertion
    /// counts as a write; an absent parent link never fires its
    /// category.
    pub open spec fn spec_category_bits(self, handle: Index) -> u32 {
        (if self.spec_positions().spec_modified_since(handle, self.spec_change_observed()) {
            CO_CHANGE_POSITION
        } else {
            0
        }) | (if self.spec_flags().spec_modified_since(handle, self.spec_change_observed()) {
            CO_CHANGE_FLAGS
        } else {
            0
        }) | (if self.spec_shapes().spec_modified_since(handle, self.spec_change_observed()) {
            CO_CHANGE_SHAPE
        } else {
            0
        }) | (if self.spec_co_types().spec_modified_since(
            handle,
            self.spec_change_observed(),
        ) {
            CO_CHANGE_TYPE
        } else {
            0
        }) | (if self.spec_parents().spec_modified_since(handle, self.spec_change_observed()) {
            CO_CHANGE_PARENT
        } else {
            0
        })
    }

    /// The change-computation pass: for every live collider, ORs the
    /// freshly computed category bits into its changes bitset, then
    /// records that it has observed up to the current clock. It mutably
    /// borrows only the changes slice; every watched slice is read.
    pub fn detect_changes(&mut self)
        requires
            old(self).wf(),
        ensures
            final(self).wf(),
            final(self).spec_clock() == old(self).spec_clock(),
            final(self).spec_change_observed() == old(self).spec_clock(),
            final(self).spec_positions() == old(self).spec_positions(),
            final(self).spec_bf_data() == old(self).spec_bf_data(),
            final(self).spec_shapes() == old(self).spec_shapes(),
            final(self).spec_co_types() == old(self).spec_co_types(),
            final(self).spec_materials() == old(self).spec_materials(),
            final(self).spec_flags() == old(self).spec_flags(),
            final(self).spec_mass_props() == old(self).spec_mass_props(),
            final(self).spec_parents() == old(self).spec_parents(),
            forall|h: Index|
                (#[trigger] final(self).spec_changes().spec_value(h)) == match old(
                    self,
                ).spec_changes().spec_value(h) {
                    Some(c) => Some(
                        ColliderChanges { bits: c.bits | old(self).spec_category_bits(h) },
                    ),
                    None => None,
                },
    {
        let observed = self.change_observed;
        let keys = self.changes.for_each();
        let n = keys.len();
        let mut i: usize = 0;
        while i < n
            invariant
                i <= n,
                n == keys@.len(),
                self.clock == old(self).spec_clock(),
                self.change_observed == old(self).spec_change_observed(),
                observed == old(self).spec_change_observed(),
                self.positions == old(self).spec_positions(),
                self.bf_data == old(self).spec_bf_data(),
                self.shapes == old(self).spec_shapes(),
                self.co_types == old(self).spec_co_types(),
                self.materials == old(self).spec_materials(),
                self.flags == old(self).spec_flags(),
                self.mass_props == old(self).spec_mass_props(),
                self.parents == old(self).spec_parents(),
                self.changes.wf(),
                self.changes.stamps_le(self.clock),
                forall|h: Index|
                    ((#[trigger] self.changes.spec_entry(h)) is Some) == (old(
                        self,
                    ).spec_changes().spec_entry(h) is Some),
                forall|j: int|
                    0 <= j < n ==> old(self).spec_changes().spec_value(#[trigger] keys@[j].0)
                        == Some(keys@[j].1),
                forall|j: int, k: int|
                    0 <= j < k < n ==> (#[trigger] keys@[j].0) != (#[trigger] keys@[k].0),
                forall|h: Index|
                    old(self).spec_changes().contains(h) ==> exists|j: int|
                        0 <= j < n && (#[trigger] keys@[j].0) == h,
                forall|j: int|
                    0 <= j < i ==> (#[trigger] self.changes.spec_value(keys@[j].0)) == Some(
                        ColliderChanges {
                            bits: keys@[j].1.bits | old(self).spec_category_bits(keys@[j].0),
                        },
                    ),
                forall|h: Index|
                    (forall|j: int| 0 <= j < i ==> (#[trigger] keys@[j].0) != h) ==> (
                    #[trigger] self.changes.spec_entry(h)) == old(
                        self,
                    ).spec_changes().spec_entry(h),
            decreases n - i,
        {
            let h = keys[i].0;
            let b0: u32 = if self.positions.changed_since(h, observed) {
                CO_CHANGE_POSITION
            } else {
                0
            };
            let b1: u32 = if self.flags.changed_since(h, observed) {
                CO_CHANGE_FLAGS
            } else {
                0
            };
            let b2: u32 = if self.shapes.changed_since(h, observed) {
                CO_CHANGE_SHAPE
            } else {
                0
            };
            let b3: u32 = if self.co_types.changed_since(h, observed) {
                CO_CHANGE_TYPE
            } else {
                0
            };
            let b4: u32 = if self.parents.changed_since(h, observed) {
                CO_CHANGE_PARENT
            } else {
                0
            };
            let bits: u32 = b0 | b1 | b2 | b3 | b4;
            proof {
                assert(bits == old(self).spec_category_bits(h));
                assert(forall|j: int| 0 <= j < i ==> (#[trigger] keys@[j].0) != h);
                assert(self.changes.spec_entry(h) == old(self).spec_changes().spec_entry(h));
            }
            let cur = keys[i].1;
            let ghost prev = self.changes;
            self.changes.set(h, ColliderChanges { bits: cur.bits | bits }, self.clock);
            proof {
                assert forall|j: int|
                    0 <= j < i + 1 implies (#[trigger] self.changes.spec_value(keys@[j].0))
                    == Some(
                    ColliderChanges {
                        bits: keys@[j].1.bits | old(self).spec_category_bits(keys@[j].0),
                    },
                ) by {
                    if j < i as int {
                        assert(keys@[j].0 != h);
                        assert(self.changes.spec_entry(keys@[j].0) == prev.spec_entry(
                            keys@[j].0,
                        ));
                        assert(prev.spec_value(keys@[j].0) == Some(
                            ColliderChanges {
                                bits: keys@[j].1.bits | old(self).spec_category_bits(
                                    keys@[j].0,
                                ),
                            },
                        ));
                    } else {
                        assert(keys@[j].0 == h);
                    }
                }
                assert forall|h2: Index|
                    ((#[trigger] self.changes.spec_entry(h2)) is Some) == (old(
                        self,
                    ).spec_changes().spec_entry(h2) is Some) by {
                    if h2 != h {
                        assert(self.changes.spec_entry(h2) == prev.spec_entry(h2));
                    }
                }
            }
            i += 1;
        }
        self.change_observed = self.clock;
        proof {
            assert forall|h: Index|
                (#[trigger] self.changes.spec_value(h)) == match old(
                    self,
                ).spec_changes().spec_value(h) {
                    Some(c) => Some(
                        ColliderChanges { bits: c.bits | old(self).spec_category_bits(h) },
                    ),
                    None => None,
                } by {
                if old(self).spec_changes().contains(h) {
                    let j = choose|j: int| 0 <= j < n && (#[trigger] keys@[j].0) == h;
                    assert(self.changes.spec_value(keys@[j].0) == Some(
                        ColliderChanges {
                            bits: keys@[j].1.bits | old(self).spec_category_bits(keys@[j].0),
                        },
                    ));
                } else {
                    assert(forall|j: int| 0 <= j < i ==> (#[trigger] keys@[j].0) != h);
                }
            }
        }
    }
}

/// Read-only view of exactly the collider components the query pipeline
/// consumes: positions, shapes and flags. Borrowing the slices shared
/// keeps it disjoint, by construction, from any mutable view.
pub struct QueryPipelineColliderComponentsSet<'a> {
    positions: &'a ComponentMap<ColliderPosition>,
    shapes: &'a ComponentMap<ColliderShape>,
    flags: &'a ComponentMap<ColliderFlags>,
}

impl<'a> QueryPipelineColliderComponentsSet<'a> {
    pub closed spec fn spec_positions(self) -> ComponentMap<ColliderPosition> {
        *self.positions
    }

    pub closed spec fn spec_shapes(self) -> ComponentMap<ColliderShape> {
        *self.shapes
    }

    pub closed spec fn spec_flags(self) -> ComponentMap<ColliderFlags> {
        *self.flags
    }

    pub open spec fn wf(self) -> bool {
        &&& self.spec_positions().wf()
        &&& self.spec_shapes().wf()
        &&& self.spec_flags().wf()
    }

    /// Splits the narrow read view out of the full collider set.
    pub fn new(set: &'a ColliderComponentsSet) -> (q: QueryPipelineColliderComponentsSet<'a>)
        requires
            set.wf(),
        ensures
            q.wf(),
            q.spec_positions() == set.spec_positions(),
            q.spec_shapes() == set.spec_shapes(),
            q.spec_flags() == set.spec_flags(),
    {
        QueryPipelineColliderComponentsSet {
            positions: &set.positions,
            shapes: &set.shapes,
            flags: &set.flags,
        }
    }

    /// The pipeline's lower-bound hint on the collider count; this view
    /// never promises one.
    pub fn size_hint(&self) -> (r: usize)
        ensures
            r == 0,
    {
        0
    }

    /// Point lookup of the collider's `ColliderPosition` through the read view.
    pub fn position(&self, handle: Index) -> (r: Option<&ColliderPosition>)
        ensures
            match r {
                Some(v) => self.spec_positions().spec_value(handle) == Some(*v),
                None => self.spec_positions().spec_value(handle) is None,
            },
    {
        self.positions.get(handle)
    }

    /// Visits every live collider carrying `ColliderPosition` exactly once through
    /// the read view; the order is unspecified.
    pub fn for_each_position(&self) -> (r: Vec<(Index, ColliderPosition)>)
        requires
            self.wf(),
        ensures
            r@.len() == self.spec_positions().spec_len(),
            forall|i: int|
                0 <= i < r@.len() ==> self.spec_positions().spec_value(#[trigger] r@[i].0) == Some(
                    r@[i].1,
                ),
            forall|i: int, j: int|
                0 <= i < j < r@.len() ==> (#[trigger] r@[i].0) != (#[trigger] r@[j].0),
            forall|h: Index|
                self.spec_positions().contains(h) ==> exists|i: int|
                    0 <= i < r@.len() && (#[trigger] r@[i].0) == h,
    {
        self.positions.for_each()
    }

    /// Point lookup of the collider's `ColliderShape` through the read view.
    pub fn shape(&self, handle: Index) -> (r: Option<&ColliderShape>)
        ensures
            match r {
                Some(v) => self.spec_shapes().spec_value(handle) == Some(*v),
                None => self.spec_shapes().spec_value(handle) is None,
            },
    {
        self.shapes.get(handle)
    }

    /// Visits every live collider carrying `ColliderShape` exactly once through
    /// the read view; the order is unspecified.
    pub fn for_each_shape(&self) -> (r: Vec<(Index, ColliderShape)>)
        requires
            self.wf(),
        ensures
            r@.len() == self.spec_shapes().spec_len(),
            forall|i: int|
                0 <= i < r@.len() ==> self.spec_shapes().spec_value(#[trigger] r@[i].0) == Some(
                    r@[i].1,
                ),
            forall|i: int, j: int|
                0 <= i < j < r@.len() ==> (#[trigger] r@[i].0) != (#[trigger] r@[j].0),
            forall|h: Index|
                self.spec_shapes().contains(h) ==> exists|i: int|
                    0 <= i < r@.len() && (#[trigger] r@[i].0) == h,
    {
        self.shapes.for_each()
    }

    /// Point lookup of the collider's `ColliderFlags` through the read view.
    pub fn flags(&self, handle: Index) -> (r: Option<&ColliderFlags>)
        ensures
            match r {
                Some(v) => self.spec_flags().spec_value(handle) == Some(*v),
                None => self.spec_flags().spec_value(handle) is None,
            },
    {
        self.flags.get(handle)
    }

    /// Visits every live collider carrying `ColliderFlags` exactly once through
    /// the read view; the order is unspecified.
    pub fn for_each_flags(&self) -> (r: Vec<(Index, ColliderFlags)>)
        requires
            self.wf(),
        ensures
            r@.len() == self.spec_flags().spec_len(),
            forall|i: int|
                0 <= i < r@.len() ==> self.spec_flags().spec_value(#[trigger] r@[i].0) == Some(
                    r@[i].1,
                ),
            forall|i: int, j: int|
                0 <= i < j < r@.len() ==> (#[trigger] r@[i].0) != (#[trigger] r@[j].0),
            forall|h: Index|
                self.spec_flags().contains(h) ==> exists|i: int|
                    0 <= i < r@.len() && (#[trigger] r@[i].0) == h,
    {
        self.flags.for_each()
    }

}

/// Law: fresh-spawn semantics for colliders. When every bundle component
/// of `handle` was added after the pass's last observation, the pass
/// computes every bundle category; if a parent link was also freshly
/// added, every category of all.
pub proof fn lemma_fresh_collider_flags_all_categories(s: ColliderComponentsSet, handle: Index)
    requires
        s.wf(),
        s.spec_positions().spec_added_since(handle, s.spec_change_observed()),
        s.spec_flags().spec_added_since(handle, s.spec_change_observed()),
        s.spec_shapes().spec_added_since(handle, s.spec_change_observed()),
        s.spec_co_types().spec_added_since(handle, s.spec_change_observed()),
    ensures
        !s.spec_parents().contains(handle) ==> s.spec_category_bits(handle) == (
        CO_CHANGE_POSITION | CO_CHANGE_FLAGS | CO_CHANGE_SHAPE | CO_CHANGE_TYPE),
        s.spec_parents().spec_added_since(handle, s.spec_change_observed())
            ==> s.spec_category_bits(handle) == CO_CHANGE_ALL,
{
    assert(1u32 | 2u32 | 4u32 | 8u32 | 16u32 == 31u32) by (bit_vector);
    assert(1u32 | 2u32 | 4u32 | 8u32 | 0u32 == (1u32 | 2u32 | 4u32 | 8u32)) by (bit_vector);
}

/// Law: change propagation for colliders. After a watched field of a
/// collider was written, the next pass computes that field's category for
/// it, whatever else was or was not written.
pub proof fn lemma_collider_change_propagation(s: ColliderComponentsSet, handle: Index)
    requires
        s.wf(),
    ensures
        s.spec_positions().spec_modified_since(handle, s.spec_change_observed())
            ==> s.spec_category_bits(handle) & CO_CHANGE_POSITION == CO_CHANGE_POSITION,
        s.spec_flags().spec_modified_since(handle, s.spec_change_observed())
            ==> s.spec_category_bits(handle) & CO_CHANGE_FLAGS == CO_CHANGE_FLAGS,
        s.spec_shapes().spec_modified_since(handle, s.spec_change_observed())
            ==> s.spec_category_bits(handle) & CO_CHANGE_SHAPE == CO_CHANGE_SHAPE,
        s.spec_co_types().spec_modified_since(handle, s.spec_change_observed())
            ==> s.spec_category_bits(handle) & CO_CHANGE_TYPE == CO_CHANGE_TYPE,
        s.spec_parents().spec_modified_since(handle, s.spec_change_observed())
            ==> s.spec_category_bits(handle) & CO_CHANGE_PARENT == CO_CHANGE_PARENT,
{
    let t0: u32 = if s.spec_positions().spec_modified_since(
        handle,
        s.spec_change_observed(),
    ) {
        CO_CHANGE_POSITION
    } else {
        0
    };
    let t1: u32 = if s.spec_flags().spec_modified_since(handle, s.spec_change_observed()) {
        CO_CHANGE_FLAGS
    } else {
        0
    };
    let t2: u32 = if s.spec_shapes().spec_modified_since(handle, s.spec_change_observed()) {
        CO_CHANGE_SHAPE
    } else {
        0
    };
    let t3: u32 = if s.spec_co_types().spec_modified_since(handle, s.spec_change_observed()) {
        CO_CHANGE_TYPE
    } else {
        0
    };
    let t4: u32 = if s.spec_parents().spec_modified_since(handle, s.spec_change_observed()) {
        CO_CHANGE_PARENT
    } else {
        0
    };
    assert(s.spec_category_bits(handle) == t0 | t1 | t2 | t3 | t4);
    assert((1u32 | t1 | t2 | t3 | t4) & 1u32 == 1u32) by (bit_vector);
    assert((t0 | 2u32 | t2 | t3 | t4) & 2u32 == 2u32) by (bit_vector);
    assert((t0 | t1 | 4u32 | t3 | t4) & 4u32 == 4u32) by (bit_vector);
    assert((t0 | t1 | t2 | 8u32 | t4) & 8u32 == 8u32) by (bit_vector);
    assert((t0 | t1 | t2 | t3 | 16u32) & 16u32 == 16u32) by (bit_vector);
}

/// Law: a tick with no collider writes flags nothing new. When no watched
/// field was written since the last observation, the pass computes no
/// category, and ORing the empty computation leaves every changes bitset
/// exactly as it was.
pub proof fn lemma_collider_quiescent_tick_flags_nothing(s: ColliderComponentsSet, handle: Index)
    requires
        s.wf(),
        !s.spec_positions().spec_modified_since(handle, s.spec_change_observed()),
        !s.spec_flags().spec_modified_since(handle, s.spec_change_observed()),
        !s.spec_shapes().spec_modified_since(handle, s.spec_change_observed()),
        !s.spec_co_types().spec_modified_since(handle, s.spec_change_observed()),
        !s.spec_parents().spec_modified_since(handle, s.spec_change_observed()),
    ensures
        s.spec_category_bits(handle) == 0,
        forall|c: ColliderChanges|
            (ColliderChanges { bits: c.bits | s.spec_category_bits(handle) }) == c,
{
    assert(0u32 | 0u32 | 0u32 | 0u32 | 0u32 == 0u32) by (bit_vector);
    assert forall|c: ColliderChanges|
        (ColliderChanges { bits: c.bits | s.spec_category_bits(handle) }) == c by {
        let b = c.bits;
        assert(b | 0u32 == b) by (bit_vector);
    }
}

} // verus!
