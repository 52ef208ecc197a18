//! The rigid-body side of the bridge: the full component set, its
//! bundle, and the change-computation passes.
//!
//! The set partitions access the way the pipeline consumes it: broad
//! read access per component type, point writes of exactly the fields
//! the pipeline writes back, a change-computation pass that owns the
//! changes bitset, and a separate activation pass at its own cadence.
//! Each operation borrows only the slices it names, so at most one
//! mutable view is open at any instant by construction.

use vstd::prelude::*;
use crate::identity::Index;
use crate::store::{ComponentMap, Entry, doms_agree, lemma_stamps_le_mono};
use crate::components::{
    RigidBodyPosition, RigidBodyVelocity, RigidBodyMassProps, RigidBodyIds, RigidBodyForces,
    RigidBodyActivation, RigidBodyChanges, RigidBodyCcd, RigidBodyColliders, RigidBodyDamping,
    RigidBodyDominance, RigidBodyType, RB_CHANGE_POSITION, RB_CHANGE_VELOCITY, RB_CHANGE_FORCES,
    RB_CHANGE_TYPE, RB_CHANGE_COLLIDERS, RB_CHANGE_SLEEP, RB_CHANGE_ALL,
};
use crate::component_set::BundleBuilder;

verus! {

/// One rigid body's full component set, attached atomically: no partially
/// initialized body is ever observable.
#[derive(Clone, Copy, PartialEq, Debug)]
pub struct RigidBodyBundle {
    pub body_type: RigidBodyType,
    pub position: RigidBodyPosition,
    pub velocity: RigidBodyVelocity,
    pub mass_properties: RigidBodyMassProps,
    pub forces: RigidBodyForces,
    pub activation: RigidBodyActivation,
    pub damping: RigidBodyDamping,
    pub dominance: RigidBodyDominance,
    pub ccd: RigidBodyCcd,
    pub changes: RigidBodyChanges,
    pub ids: RigidBodyIds,
    pub colliders: RigidBodyColliders,
}

impl RigidBodyBundle {
    /// A dynamic body at the origin with zero velocity and forces and
    /// default damping and dominance.
    pub open spec fn spec_default() -> RigidBodyBundle {
        RigidBodyBundle {
            body_type: RigidBodyType::Dynamic,
            position: RigidBodyPosition::spec_default(),
            velocity: RigidBodyVelocity::spec_default(),
            mass_properties: RigidBodyMassProps::spec_default(),
            forces: RigidBodyForces::spec_default(),
            activation: RigidBodyActivation::spec_default(),
            damping: RigidBodyDamping::spec_default(),
            dominance: RigidBodyDominance::spec_default(),
            ccd: RigidBodyCcd::spec_default(),
            changes: RigidBodyChanges::spec_default(),
            ids: RigidBodyIds::spec_default(),
            colliders: RigidBodyColliders::spec_default(),
        }
    }
}

impl Default for RigidBodyBundle {
    fn default() -> (r: RigidBodyBundle)
        ensures
            r == RigidBodyBundle::spec_default(),
    {
        RigidBodyBundle {
            body_type: RigidBodyType::Dynamic,
            position: RigidBodyPosition::default(),
            velocity: RigidBodyVelocity::default(),
            mass_properties: RigidBodyMassProps::default(),
            forces: RigidBodyForces::default(),
            activation: RigidBodyActivation::default(),
            damping: RigidBodyDamping::default(),
            dominance: RigidBodyDominance::default(),
            ccd: RigidBodyCcd::default(),
            changes: RigidBodyChanges::default(),
            ids: RigidBodyIds::default(),
            colliders: RigidBodyColliders::default(),
        }
    }
}

impl BundleBuilder for RigidBodyBundle {
    type Bundle = RigidBodyBundle;

    fn bundle(&self) -> Self::Bundle {
        *self
    }
}

/// The rigid-body component store: one `ComponentMap` per component type,
/// a write clock, and the observation snapshots of the two
/// change-detection passes.
pub struct RigidBodyComponentsSet {
    positions: ComponentMap<RigidBodyPosition>,
    velocities: ComponentMap<RigidBodyVelocity>,
    mass_props: ComponentMap<RigidBodyMassProps>,
    ids: ComponentMap<RigidBodyIds>,
    forces: ComponentMap<RigidBodyForces>,
    activations: ComponentMap<RigidBodyActivation>,
    changes: ComponentMap<RigidBodyChanges>,
    ccds: ComponentMap<RigidBodyCcd>,
    colliders: ComponentMap<RigidBodyColliders>,
    dampings: ComponentMap<RigidBodyDamping>,
    dominances: ComponentMap<RigidBodyDominance>,
    body_types: ComponentMap<RigidBodyType>,
    clock: u64,
    change_observed: u64,
    activation_observed: u64,
}

impl RigidBodyComponentsSet {
    pub closed spec fn spec_positions(self) -> ComponentMap<RigidBodyPosition> {
        self.positions
    }

    pub closed spec fn spec_velocities(self) -> ComponentMap<RigidBodyVelocity> {
        self.velocities
    }

    pub closed spec fn spec_mass_props(self) -> ComponentMap<RigidBodyMassProps> {
        self.mass_props
    }

    pub closed spec fn spec_ids(self) -> ComponentMap<RigidBodyIds> {
        self.ids
    }

    pub closed spec fn spec_forces(self) -> ComponentMap<RigidBodyForces> {
        self.forces
    }

    pub closed spec fn spec_activations(self) -> ComponentMap<RigidBodyActivation> {
        self.activations
    }

    pub closed spec fn spec_changes(self) -> ComponentMap<RigidBodyChanges> {
        self.changes
    }

    pub closed spec fn spec_ccds(self) -> ComponentMap<RigidBodyCcd> {
        self.ccds
    }

    pub closed spec fn spec_colliders(self) -> ComponentMap<RigidBodyColliders> {
        self.colliders
    }

    pub closed spec fn spec_dampings(self) -> ComponentMap<RigidBodyDamping> {
        self.dampings
    }

    pub closed spec fn spec_dominances(self) -> ComponentMap<RigidBodyDominance> {
        self.dominances
    }

    pub closed spec fn spec_body_types(self) -> ComponentMap<RigidBodyType> {
        self.body_types
    }

    /// The write clock: strictly increases with every write.
    pub closed spec fn spec_clock(self) -> u64 {
        self.clock
    }

    /// The snapshot the full change-computation pass last observed up to.
    pub closed spec fn spec_change_observed(self) -> u64 {
        self.change_observed
    }

    /// The snapshot the activation pass last observed up to.
    pub closed spec fn spec_activation_observed(self) -> u64 {
        self.activation_observed
    }

    /// Well-formedness: every slice is keyed uniquely, every entity
    /// carries the complete rigid-body field set or none of it, no stamp
    /// exceeds the clock, and neither pass has observed past the clock.
    pub open spec fn wf(self) -> bool {
        &&& self.spec_positions().wf()
        &&& self.spec_velocities().wf()
        &&& self.spec_mass_props().wf()
        &&& self.spec_ids().wf()
        &&& self.spec_forces().wf()
        &&& self.spec_activations().wf()
        &&& self.spec_changes().wf()
        &&& self.spec_ccds().wf()
        &&& self.spec_colliders().wf()
        &&& self.spec_dampings().wf()
        &&& self.spec_dominances().wf()
        &&& self.spec_body_types().wf()
        &&& doms_agree(self.spec_positions(), self.spec_velocities())
        &&& doms_agree(self.spec_positions(), self.spec_mass_props())
        &&& doms_agree(self.spec_positions(), self.spec_ids())
        &&& doms_agree(self.spec_positions(), self.spec_forces())
        &&& doms_agree(self.spec_positions(), self.spec_activations())
        &&& doms_agree(self.spec_positions(), self.spec_changes())
        &&& doms_agree(self.spec_positions(), self.spec_ccds())
        &&& doms_agree(self.spec_positions(), self.spec_colliders())
        &&& doms_agree(self.spec_positions(), self.spec_dampings())
        &&& doms_agree(self.spec_positions(), self.spec_dominances())
        &&& doms_agree(self.spec_positions(), self.spec_body_types())
        &&& self.spec_positions().stamps_le(self.spec_clock())
        &&& self.spec_velocities().stamps_le(self.spec_clock())
        &&& self.spec_mass_props().stamps_le(self.spec_clock())
        &&& self.spec_ids().stamps_le(self.spec_clock())
        &&& self.spec_forces().stamps_le(self.spec_clock())
        &&& self.spec_activations().stamps_le(self.spec_clock())
        &&& self.spec_changes().stamps_le(self.spec_clock())
        &&& self.spec_ccds().stamps_le(self.spec_clock())
        &&& self.spec_colliders().stamps_le(self.spec_clock())
        &&& self.spec_dampings().stamps_le(self.spec_clock())
        &&& self.spec_dominances().stamps_le(self.spec_clock())
        &&& self.spec_body_types().stamps_le(self.spec_clock())
        &&& self.spec_change_observed() <= self.spec_clock()
        &&& self.spec_activation_observed() <= self.spec_clock()
    }

    /// Whether a live rigid body stands at this handle.
    pub open spec fn spec_contains(self, handle: Index) -> bool {
        self.spec_positions().contains(handle)
    }

    pub fn new() -> (s: RigidBodyComponentsSet)
        ensures
            s.wf(),
            s.spec_clock() == 0,
            s.spec_change_observed() == 0,
            s.spec_activation_observed() == 0,
            forall|h: Index| !(#[trigger] s.spec_contains(h)),
            forall|h: Index| (#[trigger] s.spec_positions().spec_entry(h)) is None,
            forall|h: Index| (#[trigger] s.spec_velocities().spec_entry(h)) is None,
            forall|h: Index| (#[trigger] s.spec_mass_props().spec_entry(h)) is None,
            forall|h: Index| (#[trigger] s.spec_ids().spec_entry(h)) is None,
            forall|h: Index| (#[trigger] s.spec_forces().spec_entry(h)) is None,
            forall|h: Index| (#[trigger] s.spec_activations().spec_entry(h)) is None,
            forall|h: Index| (#[trigger] s.spec_changes().spec_entry(h)) is None,
            forall|h: Index| (#[trigger] s.spec_ccds().spec_entry(h)) is None,
            forall|h: Index| (#[trigger] s.spec_colliders().spec_entry(h)) is None,
            forall|h: Index| (#[trigger] s.spec_dampings().spec_entry(h)) is None,
            forall|h: Index| (#[trigger] s.spec_dominances().spec_entry(h)) is None,
            forall|h: Index| (#[trigger] s.spec_body_types().spec_entry(h)) is None,
    {
        RigidBodyComponentsSet {
            positions: ComponentMap::new(),
            velocities: ComponentMap::new(),
            mass_props: ComponentMap::new(),
            ids: ComponentMap::new(),
            forces: ComponentMap::new(),
            activations: ComponentMap::new(),
            changes: ComponentMap::new(),
            ccds: ComponentMap::new(),
            colliders: ComponentMap::new(),
            dampings: ComponentMap::new(),
            dominances: ComponentMap::new(),
            body_types: ComponentMap::new(),
            clock: 0,
            change_observed: 0,
            activation_observed: 0,
        }
    }

    pub fn contains(&self, handle: Index) -> (r: bool)
        ensures
            r == self.spec_contains(handle),
    {
        match self.positions.get(handle) {
            Some(_) => true,
            None => false,
        }
    }

    /// The pipeline's lower-bound hint on the body count; this set never
    /// promises one.
    pub fn size_hint(&self) -> (r: usize)
        ensures
            r == 0,
    {
        0
    }

    /// Atomically attaches one physics object's full component set at
    /// `handle`. Every member component is inserted in the same
    /// operation, stamped with the same fresh clock value, so the next
    /// change-computation pass sees every category as freshly added.
    pub fn attach(&mut self, handle: Index, bundle: RigidBodyBundle)
        requires
            old(self).wf(),
            !old(self).spec_contains(handle),
            old(self).spec_clock() < u64::MAX,
        ensures
            final(self).wf(),
            final(self).spec_clock() == old(self).spec_clock() + 1,
            final(self).spec_change_observed() == old(self).spec_change_observed(),
            final(self).spec_activation_observed() == old(self).spec_activation_observed(),
            final(self).spec_contains(handle),
            final(self).spec_positions().spec_entry(handle) == Some(
                Entry {
                    value: bundle.position,
                    modified: final(self).spec_clock(),
                    added: final(self).spec_clock(),
                },
            ),
            final(self).spec_velocities().spec_entry(handle) == Some(
                Entry {
                    value: bundle.velocity,
                    modified: final(self).spec_clock(),
                    added: final(self).spec_clock(),
                },
            ),
            final(self).spec_mass_props().spec_entry(handle) == Some(
                Entry {
                    value: bundle.mass_properties,
                    modified: final(self).spec_clock(),
                    added: final(self).spec_clock(),
                },
            ),
            final(self).spec_ids().spec_entry(handle) == Some(
                Entry {
                    value: bundle.ids,
                    modified: final(self).spec_clock(),
                    added: final(self).spec_clock(),
                },
            ),
            final(self).spec_forces().spec_entry(handle) == Some(
                Entry {
                    value: bundle.forces,
                    modified: final(self).spec_clock(),
                    added: final(self).spec_clock(),
                },
            ),
            final(self).spec_activations().spec_entry(handle) == Some(
                Entry {
                    value: bundle.activation,
                    modified: final(self).spec_clock(),
                    added: final(self).spec_clock(),
                },
            ),
            final(self).spec_changes().spec_entry(handle) == Some(
                Entry {
                    value: bundle.changes,
                    modified: final(self).spec_clock(),
                    added: final(self).spec_clock(),
                },
            ),
            final(self).spec_ccds().spec_entry(handle) == Some(
                Entry {
                    value: bundle.ccd,
                    modified: final(self).spec_clock(),
                    added: final(self).spec_clock(),
                },
            ),
            final(self).spec_colliders().spec_entry(handle) == Some(
                Entry {
                    value: bundle.colliders,
                    modified: final(self).spec_clock(),
                    added: final(self).spec_clock(),
                },
            ),
            final(self).spec_dampings().spec_entry(handle) == Some(
                Entry {
                    value: bundle.damping,
                    modified: final(self).spec_clock(),
                    added: final(self).spec_clock(),
                },
            ),
            final(self).spec_dominances().spec_entry(handle) == Some(
                Entry {
                    value: bundle.dominance,
                    modified: final(self).spec_clock(),
                    added: final(self).spec_clock(),
                },
            ),
            final(self).spec_body_types().spec_entry(handle) == Some(
                Entry {
                    value: bundle.body_type,
                    modified: final(self).spec_clock(),
                    added: final(self).spec_clock(),
                },
            ),
            forall|h2: Index|
                h2 != handle ==> (#[trigger] final(self).spec_positions().spec_entry(h2)) == old(
                    self,
                ).spec_positions().spec_entry(h2),
            forall|h2: Index|
                h2 != handle ==> (#[trigger] final(self).spec_velocities().spec_entry(h2)) == old(
                    self,
                ).spec_velocities().spec_entry(h2),
            forall|h2: Index|
                h2 != handle ==> (#[trigger] final(self).spec_mass_props().spec_entry(h2)) == old(
                    self,
                ).spec_mass_props().spec_entry(h2),
            forall|h2: Index|
                h2 != handle ==> (#[trigger] final(self).spec_ids().spec_entry(h2)) == old(
                    self,
                ).spec_ids().spec_entry(h2),
            forall|h2: Index|
                h2 != handle ==> (#[trigger] final(self).spec_forces().spec_entry(h2)) == old(
                    self,
                ).spec_forces().spec_entry(h2),
            forall|h2: Index|
                h2 != handle ==> (#[trigger] final(self).spec_activations().spec_entry(h2)) == old(
                    self,
                ).spec_activations().spec_entry(h2),
            forall|h2: Index|
                h2 != handle ==> (#[trigger] final(self).spec_changes().spec_entry(h2)) == old(
                    self,
                ).spec_changes().spec_entry(h2),
            forall|h2: Index|
                h2 != handle ==> (#[trigger] final(self).spec_ccds().spec_entry(h2)) == old(
                    self,
                ).spec_ccds().spec_entry(h2),
            forall|h2: Index|
                h2 != handle ==> (#[trigger] final(self).spec_colliders().spec_entry(h2)) == old(
                    self,
                ).spec_colliders().spec_entry(h2),
            forall|h2: Index|
                h2 != handle ==> (#[trigger] final(self).spec_dampings().spec_entry(h2)) == old(
                    self,
                ).spec_dampings().spec_entry(h2),
            forall|h2: Index|
                h2 != handle ==> (#[trigger] final(self).spec_dominances().spec_entry(h2)) == old(
                    self,
                ).spec_dominances().spec_entry(h2),
            forall|h2: Index|
                h2 != handle ==> (#[trigger] final(self).spec_body_types().spec_entry(h2)) == old(
                    self,
                ).spec_body_types().spec_entry(h2),
    {
        self.clock = self.clock + 1;
        let stamp = self.clock;
        self.positions.insert(handle, bundle.position, stamp);
        self.velocities.insert(handle, bundle.velocity, stamp);
        self.mass_props.insert(handle, bundle.mass_properties, stamp);
        self.ids.insert(handle, bundle.ids, stamp);
        self.forces.insert(handle, bundle.forces, stamp);
        self.activations.insert(handle, bundle.activation, stamp);
        self.changes.insert(handle, bundle.changes, stamp);
        self.ccds.insert(handle, bundle.ccd, stamp);
        self.colliders.insert(handle, bundle.colliders, stamp);
        self.dampings.insert(handle, bundle.damping, stamp);
        self.dominances.insert(handle, bundle.dominance, stamp);
        self.body_types.insert(handle, bundle.body_type, stamp);
        proof {
            lemma_stamps_le_mono(old(self).spec_positions(), old(self).spec_clock(), stamp);
            lemma_stamps_le_mono(old(self).spec_velocities(), old(self).spec_clock(), stamp);
            lemma_stamps_le_mono(old(self).spec_mass_props(), old(self).spec_clock(), stamp);
            lemma_stamps_le_mono(old(self).spec_ids(), old(self).spec_clock(), stamp);
            lemma_stamps_le_mono(old(self).spec_forces(), old(self).spec_clock(), stamp);
            lemma_stamps_le_mono(old(self).spec_activations(), old(self).spec_clock(), stamp);
            lemma_stamps_le_mono(old(self).spec_changes(), old(self).spec_clock(), stamp);
            lemma_stamps_le_mono(old(self).spec_ccds(), old(self).spec_clock(), stamp);
            lemma_stamps_le_mono(old(self).spec_colliders(), old(self).spec_clock(), stamp);
            lemma_stamps_le_mono(old(self).spec_dampings(), old(self).spec_clock(), stamp);
            lemma_stamps_le_mono(old(self).spec_dominances(), old(self).spec_clock(), stamp);
            lemma_stamps_le_mono(old(self).spec_body_types(), old(self).spec_clock(), stamp);
        }
    }

    /// Removes the body's complete component set, as on entity despawn;
    /// the pipeline observes the eviction through the emptied lookups.
    pub fn despawn(&mut self, handle: Index)
        requires
            old(self).wf(),
        ensures
            final(self).wf(),
            final(self).spec_clock() == old(self).spec_clock(),
            final(self).spec_change_observed() == old(self).spec_change_observed(),
            final(self).spec_activation_observed() == old(self).spec_activation_observed(),
            !final(self).spec_contains(handle),
            final(self).spec_positions().spec_entry(handle) is None,
            final(self).spec_velocities().spec_entry(handle) is None,
            final(self).spec_mass_props().spec_entry(handle) is None,
            final(self).spec_ids().spec_entry(handle) is None,
            final(self).spec_forces().spec_entry(handle) is None,
            final(self).spec_activations().spec_entry(handle) is None,
            final(self).spec_changes().spec_entry(handle) is None,
            final(self).spec_ccds().spec_entry(handle) is None,
            final(self).spec_colliders().spec_entry(handle) is None,
            final(self).spec_dampings().spec_entry(handle) is None,
            final(self).spec_dominances().spec_entry(handle) is None,
            final(self).spec_body_types().spec_entry(handle) is None,
            forall|h2: Index|
                h2 != handle ==> (#[trigger] final(self).spec_positions().spec_entry(h2)) == old(
                    self,
                ).spec_positions().spec_entry(h2),
            forall|h2: Index|
                h2 != handle ==> (#[trigger] final(self).spec_velocities().spec_entry(h2)) == old(
                    self,
                ).spec_velocities().spec_entry(h2),
            forall|h2: Index|
                h2 != handle ==> (#[trigger] final(self).spec_mass_props().spec_entry(h2)) == old(
                    self,
                ).spec_mass_props().spec_entry(h2),
            forall|h2: Index|
                h2 != handle ==> (#[trigger] final(self).spec_ids().spec_entry(h2)) == old(
                    self,
                ).spec_ids().spec_entry(h2),
            forall|h2: Index|
                h2 != handle ==> (#[trigger] final(self).spec_forces().spec_entry(h2)) == old(
                    self,
                ).spec_forces().spec_entry(h2),
            forall|h2: Index|
                h2 != handle ==> (#[trigger] final(self).spec_activations().spec_entry(h2)) == old(
                    self,
                ).spec_activations().spec_entry(h2),
            forall|h2: Index|
                h2 != handle ==> (#[trigger] final(self).spec_changes().spec_entry(h2)) == old(
                    self,
                ).spec_changes().spec_entry(h2),
            forall|h2: Index|
                h2 != handle ==> (#[trigger] final(self).spec_ccds().spec_entry(h2)) == old(
                    self,
                ).spec_ccds().spec_entry(h2),
            forall|h2: Index|
                h2 != handle ==> (#[trigger] final(self).spec_colliders().spec_entry(h2)) == old(
                    self,
                ).spec_colliders().spec_entry(h2),
            forall|h2: Index|
                h2 != handle ==> (#[trigger] final(self).spec_dampings().spec_entry(h2)) == old(
                    self,
                ).spec_dampings().spec_entry(h2),
            forall|h2: Index|
                h2 != handle ==> (#[trigger] final(self).spec_dominances().spec_entry(h2)) == old(
                    self,
                ).spec_dominances().spec_entry(h2),
            forall|h2: Index|
                h2 != handle ==> (#[trigger] final(self).spec_body_types().spec_entry(h2)) == old(
                    self,
                ).spec_body_types().spec_entry(h2),
    {
        self.positions.remove(handle);
        self.velocities.remove(handle);
        self.mass_props.remove(handle);
        self.ids.remove(handle);
        self.forces.remove(handle);
        self.activations.remove(handle);
        self.changes.remove(handle);
        self.ccds.remove(handle);
        self.colliders.remove(handle);
        self.dampings.remove(handle);
        self.dominances.remove(handle);
        self.body_types.remove(handle);
    }

    /// Point lookup of the body's `RigidBodyPosition`; empty if the entity lacks it
    /// or no longer exists.
    pub fn position(&self, handle: Index) -> (r: Option<&RigidBodyPosition>)
        ensures
            match r {
                Some(v) => self.spec_positions().spec_value(handle) == Some(*v),
                None => self.spec_positions().spec_value(handle) is None,
            },
    {
        self.positions.get(handle)
    }

    /// Visits every live body carrying `RigidBodyPosition` exactly once; the order is
    /// unspecified and callers must not depend on it.
    pub fn for_each_position(&self) -> (r: Vec<(Index, RigidBodyPosition)>)
        requires
            self.wf(),
        ensures
            r@.len() == self.spec_positions().spec_len(),
            forall|i: int|
                0 <= i < r@.len() ==> self.spec_positions().spec_value(#[trigger] r@[i].0) == Some(
                    r@[i].1,
                ),
            forall|i: int, j: int|
                0 <= i < j < r@.len() ==> (#[trigger] r@[i].0) != (#[trigger] r@[j].0),
            forall|h: Index|
                self.spec_positions().contains(h) ==> exists|i: int|
                    0 <= i < r@.len() && (#[trigger] r@[i].0) == h,
    {
        self.positions.for_each()
    }

    /// Point lookup of the body's `RigidBodyVelocity`; empty if the entity lacks it
    /// or no longer exists.
    pub fn velocity(&self, handle: Index) -> (r: Option<&RigidBodyVelocity>)
        ensures
            match r {
                Some(v) => self.spec_velocities().spec_value(handle) == Some(*v),
                None => self.spec_velocities().spec_value(handle) is None,
            },
    {
        self.velocities.get(handle)
    }

    /// Visits every live body carrying `RigidBodyVelocity` exactly once; the order is
    /// unspecified and callers must not depend on it.
    pub fn for_each_velocity(&self) -> (r: Vec<(Index, RigidBodyVelocity)>)
        requires
            self.wf(),
        ensures
            r@.len() == self.spec_velocities().spec_len(),
            forall|i: int|
                0 <= i < r@.len() ==> self.spec_velocities().spec_value(#[trigger] r@[i].0) == Some(
                    r@[i].1,
                ),
            forall|i: int, j: int|
                0 <= i < j < r@.len() ==> (#[trigger] r@[i].0) != (#[trigger] r@[j].0),
            forall|h: Index|
                self.spec_velocities().contains(h) ==> exists|i: int|
                    0 <= i < r@.len() && (#[trigger] r@[i].0) == h,
    {
        self.velocities.for_each()
    }

    /// Point lookup of the body's `RigidBodyMassProps`; empty if the entity lacks it
    /// or no longer exists.
    pub fn mass_props(&self, handle: Index) -> (r: Option<&RigidBodyMassProps>)
        ensures
            match r {
                Some(v) => self.spec_mass_props().spec_value(handle) == Some(*v),
                None => self.spec_mass_props().spec_value(handle) is None,
            },
    {
        self.mass_props.get(handle)
    }

    /// Visits every live body carrying `RigidBodyMassProps` exactly once; the order is
    /// unspecified and callers must not depend on it.
    pub fn for_each_mass_props(&self) -> (r: Vec<(Index, RigidBodyMassProps)>)
        requires
            self.wf(),
        ensures
            r@.len() == self.spec_mass_props().spec_len(),
            forall|i: int|
                0 <= i < r@.len() ==> self.spec_mass_props().spec_value(#[trigger] r@[i].0) == Some(
                    r@[i].1,
                ),
            forall|i: int, j: int|
                0 <= i < j < r@.len() ==> (#[trigger] r@[i].0) != (#[trigger] r@[j].0),
            forall|h: Index|
                self.spec_mass_props().contains(h) ==> exists|i: int|
                    0 <= i < r@.len() && (#[trigger] r@[i].0) == h,
    {
        self.mass_props.for_each()
    }

    /// Point lookup of the body's `RigidBodyIds`; empty if the entity lacks it
    /// or no longer exists.
    pub fn ids(&self, handle: Index) -> (r: Option<&RigidBodyIds>)
        ensures
            match r {
                Some(v) => self.spec_ids().spec_value(handle) == Some(*v),
                None => self.spec_ids().spec_value(handle) is None,
            },
    {
        self.ids.get(handle)
    }

    /// Visits every live body carrying `RigidBodyIds` exactly once; the order is
    /// unspecified and callers must not depend on it.
    pub fn for_each_ids(&self) -> (r: Vec<(Index, RigidBodyIds)>)
        requires
            self.wf(),
        ensures
            r@.len() == self.spec_ids().spec_len(),
            forall|i: int|
                0 <= i < r@.len() ==> self.spec_ids().spec_value(#[trigger] r@[i].0) == Some(
                    r@[i].1,
                ),
            forall|i: int, j: int|
                0 <= i < j < r@.len() ==> (#[trigger] r@[i].0) != (#[trigger] r@[j].0),
            forall|h: Index|
                self.spec_ids().contains(h) ==> exists|i: int|
                    0 <= i < r@.len() && (#[trigger] r@[i].0) == h,
    {
        self.ids.for_each()
    }

    /// Point lookup of the body's `RigidBodyForces`; empty if the entity lacks it
    /// or no longer exists.
    pub fn forces(&self, handle: Index) -> (r: Option<&RigidBodyForces>)
        ensures
            match r {
                Some(v) => self.spec_forces().spec_value(handle) == Some(*v),
                None => self.spec_forces().spec_value(handle) is None,
            },
    {
        self.forces.get(handle)
    }

    /// Visits every live body carrying `RigidBodyForces` exactly once; the order is
    /// unspecified and callers must not depend on it.
    pub fn for_each_forces(&self) -> (r: Vec<(Index, RigidBodyForces)>)
        requires
            self.wf(),
        ensures
            r@.len() == self.spec_forces().spec_len(),
            forall|i: int|
                0 <= i < r@.len() ==> self.spec_forces().spec_value(#[trigger] r@[i].0) == Some(
                    r@[i].1,
                ),
            forall|i: int, j: int|
                0 <= i < j < r@.len() ==> (#[trigger] r@[i].0) != (#[trigger] r@[j].0),
            forall|h: Index|
                self.spec_forces().contains(h) ==> exists|i: int|
                    0 <= i < r@.len() && (#[trigger] r@[i].0) == h,
    {
        self.forces.for_each()
    }

    /// Point lookup of the body's `RigidBodyActivation`; empty if the entity lacks it
    /// or no longer exists.
    pub fn activation(&self, handle: Index) -> (r: Option<&RigidBodyActivation>)
        ensures
            match r {
                Some(v) => self.spec_activations().spec_value(handle) == Some(*v),
                None => self.spec_activations().spec_value(handle) is None,
            },
    {
        self.activations.get(handle)
    }

    /// Visits every live body carrying `RigidBodyActivation` exactly once; the order is
    /// unspecified and callers must not depend on it.
    pub fn for_each_activation(&self) -> (r: Vec<(Index, RigidBodyActivation)>)
        requires
            self.wf(),
        ensures
            r@.len() == self.spec_activations().spec_len(),
            forall|i: int|
                0 <= i < r@.len() ==> self.spec_activations().spec_value(#[trigger] r@[i].0) == Some(
                    r@[i].1,
                ),
            forall|i: int, j: int|
                0 <= i < j < r@.len() ==> (#[trigger] r@[i].0) != (#[trigger] r@[j].0),
            forall|h: Index|
                self.spec_activations().contains(h) ==> exists|i: int|
                    0 <= i < r@.len() && (#[trigger] r@[i].0) == h,
    {
        self.activations.for_each()
    }

    /// Point lookup of the body's `RigidBodyChanges`; empty if the entity lacks it
    /// or no longer exists.
    pub fn changes(&self, handle: Index) -> (r: Option<&RigidBodyChanges>)
        ensures
            match r {
                Some(v) => self.spec_changes().spec_value(handle) == Some(*v),
                None => self.spec_changes().spec_value(handle) is None,
            },
    {
        self.changes.get(handle)
    }

    /// Visits every live body carrying `RigidBodyChanges` exactly once; the order is
    /// unspecified and callers must not depend on it.
    pub fn for_each_changes(&self) -> (r: Vec<(Index, RigidBodyChanges)>)
        requires
            self.wf(),
        ensures
            r@.len() == self.spec_changes().spec_len(),
            forall|i: int|
                0 <= i < r@.len() ==> self.spec_changes().spec_value(#[trigger] r@[i].0) == Some(
                    r@[i].1,
                ),
            forall|i: int, j: int|
                0 <= i < j < r@.len() ==> (#[trigger] r@[i].0) != (#[trigger] r@[j].0),
            forall|h: Index|
                self.spec_changes().contains(h) ==> exists|i: int|
                    0 <= i < r@.len() && (#[trigger] r@[i].0) == h,
    {
        self.changes.for_each()
    }

    /// Point lookup of the body's `RigidBodyCcd`; empty if the entity lacks it
    /// or no longer exists.
    pub fn ccd(&self, handle: Index) -> (r: Option<&RigidBodyCcd>)
        ensures
            match r {
                Some(v) => self.spec_ccds().spec_value(handle) == Some(*v),
                None => self.spec_ccds().spec_value(handle) is None,
            },
    {
        self.ccds.get(handle)
    }

    /// Visits every live body carrying `RigidBodyCcd` exactly once; the order is
    /// unspecified and callers must not depend on it.
    pub fn for_each_ccd(&self) -> (r: Vec<(Index, RigidBodyCcd)>)
        requires
            self.wf(),
        ensures
            r@.len() == self.spec_ccds().spec_len(),
            forall|i: int|
                0 <= i < r@.len() ==> self.spec_ccds().spec_value(#[trigger] r@[i].0) == Some(
                    r@[i].1,
                ),
            forall|i: int, j: int|
                0 <= i < j < r@.len() ==> (#[trigger] r@[i].0) != (#[trigger] r@[j].0),
            forall|h: Index|
                self.spec_ccds().contains(h) ==> exists|i: int|
                    0 <= i < r@.len() && (#[trigger] r@[i].0) == h,
    {
        self.ccds.for_each()
    }

    /// Point lookup of the body's `RigidBodyColliders`; empty if the entity lacks it
    /// or no longer exists.
    pub fn colliders(&self, handle: Index) -> (r: Option<&RigidBodyColliders>)
        ensures
            match r {
                Some(v) => self.spec_colliders().spec_value(handle) == Some(*v),
                None => self.spec_colliders().spec_value(handle) is None,
            },
    {
        self.colliders.get(handle)
    }

    /// Visits every live body carrying `RigidBodyColliders` exactly once; the order is
    /// unspecified and callers must not depend on it.
    pub fn for_each_colliders(&self) -> (r: Vec<(Index, RigidBodyColliders)>)
        requires
            self.wf(),
        ensures
            r@.len() == self.spec_colliders().spec_len(),
            forall|i: int|
                0 <= i < r@.len() ==> self.spec_colliders().spec_value(#[trigger] r@[i].0) == Some(
                    r@[i].1,
                ),
            forall|i: int, j: int|
                0 <= i < j < r@.len() ==> (#[trigger] r@[i].0) != (#[trigger] r@[j].0),
            forall|h: Index|
                self.spec_colliders().contains(h) ==> exists|i: int|
                    0 <= i < r@.len() && (#[trigger] r@[i].0) == h,
    {
        self.colliders.for_each()
    }

    /// Point lookup of the body's `RigidBodyDamping`; empty if the entity lacks it
    /// or no longer exists.
    pub fn damping(&self, handle: Index) -> (r: Option<&RigidBodyDamping>)
        ensures
            match r {
                Some(v) => self.spec_dampings().spec_value(handle) == Some(*v),
                None => self.spec_dampings().spec_value(handle) is None,
            },
    {
        self.dampings.get(handle)
    }

    /// Visits every live body carrying `RigidBodyDamping` exactly once; the order is
    /// unspecified and callers must not depend on it.
    pub fn for_each_damping(&self) -> (r: Vec<(Index, RigidBodyDamping)>)
        requires
            self.wf(),
        ensures
            r@.len() == self.spec_dampings().spec_len(),
            forall|i: int|
                0 <= i < r@.len() ==> self.spec_dampings().spec_value(#[trigger] r@[i].0) == Some(
                    r@[i].1,
                ),
            forall|i: int, j: int|
                0 <= i < j < r@.len() ==> (#[trigger] r@[i].0) != (#[trigger] r@[j].0),
            forall|h: Index|
                self.spec_dampings().contains(h) ==> exists|i: int|
                    0 <= i < r@.len() && (#[trigger] r@[i].0) == h,
    {
        self.dampings.for_each()
    }

    /// Point lookup of the body's `RigidBodyDominance`; empty if the entity lacks it
    /// or no longer exists.
    pub fn dominance(&self, handle: Index) -> (r: Option<&RigidBodyDominance>)
        ensures
            match r {
                Some(v) => self.spec_dominances().spec_value(handle) == Some(*v),
                None => self.spec_dominances().spec_value(handle) is None,
            },
    {
        self.dominances.get(handle)
    }

    /// Visits every live body carrying `RigidBodyDominance` exactly once; the order is
    /// unspecified and callers must not depend on it.
    pub fn for_each_dominance(&self) -> (r: Vec<(Index, RigidBodyDominance)>)
        requires
            self.wf(),
        ensures
            r@.len() == self.spec_dominances().spec_len(),
            forall|i: int|
                0 <= i < r@.len() ==> self.spec_dominances().spec_value(#[trigger] r@[i].0) == Some(
                    r@[i].1,
                ),
            forall|i: int, j: int|
                0 <= i < j < r@.len() ==> (#[trigger] r@[i].0) != (#[trigger] r@[j].0),
            forall|h: Index|
                self.spec_dominances().contains(h) ==> exists|i: int|
                    0 <= i < r@.len() && (#[trigger] r@[i].0) == h,
    {
        self.dominances.for_each()
    }

    /// Point lookup of the body's `RigidBodyType`; empty if the entity lacks it
    /// or no longer exists.
    pub fn body_type(&self, handle: Index) -> (r: Option<&RigidBodyType>)
        ensures
            match r {
                Some(v) => self.spec_body_types().spec_value(handle) == Some(*v),
                None => self.spec_body_types().spec_value(handle) is None,
            },
    {
        self.body_types.get(handle)
    }

    /// Visits every live body carrying `RigidBodyType` exactly once; the order is
    /// unspecified and callers must not depend on it.
    pub fn for_each_body_type(&self) -> (r: Vec<(Index, RigidBodyType)>)
        requires
            self.wf(),
        ensures
            r@.len() == self.spec_body_types().spec_len(),
            forall|i: int|
                0 <= i < r@.len() ==> self.spec_body_types().spec_value(#[trigger] r@[i].0) == Some(
                    r@[i].1,
                ),
            forall|i: int, j: int|
                0 <= i < j < r@.len() ==> (#[trigger] r@[i].0) != (#[trigger] r@[j].0),
            forall|h: Index|
                self.spec_body_types().contains(h) ==> exists|i: int|
                    0 <= i < r@.len() && (#[trigger] r@[i].0) == h,
    {
        self.body_types.for_each()
    }

    /// Point update of the body's `RigidBodyPosition`, stamped by the write clock;
    /// a no-op (not an error) if the entity lacks it.
    pub fn set_position(&mut self, handle: Index, value: RigidBodyPosition)
        requires
            old(self).wf(),
            old(self).spec_clock() < u64::MAX,
        ensures
            final(self).wf(),
            final(self).spec_clock() == old(self).spec_clock() + 1,
            final(self).spec_change_observed() == old(self).spec_change_observed(),
            final(self).spec_activation_observed() == old(self).spec_activation_observed(),
            match old(self).spec_positions().spec_entry(handle) {
                Some(e) => final(self).spec_positions().spec_entry(handle) == Some(
                    Entry { value, modified: final(self).spec_clock(), added: e.added },
                ),
                None => final(self).spec_positions().spec_entry(handle) is None,
            },
            forall|h2: Index|
                h2 != handle ==> (#[trigger] final(self).spec_positions().spec_entry(h2)) == old(
                    self,
                ).spec_positions().spec_entry(h2),
            final(self).spec_velocities() == old(self).spec_velocities(),
            final(self).spec_mass_props() == old(self).spec_mass_props(),
            final(self).spec_ids() == old(self).spec_ids(),
            final(self).spec_forces() == old(self).spec_forces(),
            final(self).spec_activations() == old(self).spec_activations(),
            final(self).spec_changes() == old(self).spec_changes(),
            final(self).spec_ccds() == old(self).spec_ccds(),
            final(self).spec_colliders() == old(self).spec_colliders(),
            final(self).spec_dampings() == old(self).spec_dampings(),
            final(self).spec_dominances() == old(self).spec_dominances(),
            final(self).spec_body_types() == old(self).spec_body_types(),
    {
        self.clock = self.clock + 1;
        self.positions.set(handle, value, self.clock);
        proof {
            lemma_stamps_le_mono(old(self).spec_positions(), old(self).spec_clock(), self.clock);
            lemma_stamps_le_mono(old(self).spec_velocities(), old(self).spec_clock(), self.clock);
            lemma_stamps_le_mono(old(self).spec_mass_props(), old(self).spec_clock(), self.clock);
            lemma_stamps_le_mono(old(self).spec_ids(), old(self).spec_clock(), self.clock);
            lemma_stamps_le_mono(old(self).spec_forces(), old(self).spec_clock(), self.clock);
            lemma_stamps_le_mono(old(self).spec_activations(), old(self).spec_clock(), self.clock);
            lemma_stamps_le_mono(old(self).spec_changes(), old(self).spec_clock(), self.clock);
            lemma_stamps_le_mono(old(self).spec_ccds(), old(self).spec_clock(), self.clock);
            lemma_stamps_le_mono(old(self).spec_colliders(), old(self).spec_clock(), self.clock);
            lemma_stamps_le_mono(old(self).spec_dampings(), old(self).spec_clock(), self.clock);
            lemma_stamps_le_mono(old(self).spec_dominances(), old(self).spec_clock(), self.clock);
            lemma_stamps_le_mono(old(self).spec_body_types(), old(self).spec_clock(), self.clock);
        }
    }

    /// Point update of the body's `RigidBodyVelocity`, stamped by the write clock;
    /// a no-op (not an error) if the entity lacks it.
    pub fn set_velocity(&mut self, handle: Index, value: RigidBodyVelocity)
        requires
            old(self).wf(),
            old(self).spec_clock() < u64::MAX,
        ensures
            final(self).wf(),
            final(self).spec_clock() == old(self).spec_clock() + 1,
            final(self).spec_change_observed() == old(self).spec_change_observed(),
            final(self).spec_activation_observed() == old(self).spec_activation_observed(),
            match old(self).spec_velocities().spec_entry(handle) {
                Some(e) => final(self).spec_velocities().spec_entry(handle) == Some(
                    Entry { value, modified: final(self).spec_clock(), added: e.added },
                ),
                None => final(self).spec_velocities().spec_entry(handle) is None,
            },
            forall|h2: Index|
                h2 != handle ==> (#[trigger] final(self).spec_velocities().spec_entry(h2)) == old(
                    self,
                ).spec_velocities().spec_entry(h2),
            final(self).spec_positions() == old(self).spec_positions(),
            final(self).spec_mass_props() == old(self).spec_mass_props(),
            final(self).spec_ids() == old(self).spec_ids(),
            final(self).spec_forces() == old(self).spec_forces(),
            final(self).spec_activations() == old(self).spec_activations(),
            final(self).spec_changes() == old(self).spec_changes(),
            final(self).spec_ccds() == old(self).spec_ccds(),
            final(self).spec_colliders() == old(self).spec_colliders(),
            final(self).spec_dampings() == old(self).spec_dampings(),
            final(self).spec_dominances() == old(self).spec_dominances(),
            final(self).spec_body_types() == old(self).spec_body_types(),
    {
        self.clock = self.clock + 1;
        self.velocities.set(handle, value, self.clock);
        proof {
            lemma_stamps_le_mono(old(self).spec_positions(), old(self).spec_clock(), self.clock);
            lemma_stamps_le_mono(old(self).spec_velocities(), old(self).spec_clock(), self.clock);
            lemma_stamps_le_mono(old(self).spec_mass_props(), old(self).spec_clock(), self.clock);
            lemma_stamps_le_mono(old(self).spec_ids(), old(self).spec_clock(), self.clock);
            lemma_stamps_le_mono(old(self).spec_forces(), old(self).spec_clock(), self.clock);
            lemma_stamps_le_mono(old(self).spec_activations(), old(self).spec_clock(), self.clock);
            lemma_stamps_le_mono(old(self).spec_changes(), old(self).spec_clock(), self.clock);
            lemma_stamps_le_mono(old(self).spec_ccds(), old(self).spec_clock(), self.clock);
            lemma_stamps_le_mono(old(self).spec_colliders(), old(self).spec_clock(), self.clock);
            lemma_stamps_le_mono(old(self).spec_dampings(), old(self).spec_clock(), self.clock);
            lemma_stamps_le_mono(old(self).spec_dominances(), old(self).spec_clock(), self.clock);
            lemma_stamps_le_mono(old(self).spec_body_types(), old(self).spec_clock(), self.clock);
        }
    }

    /// Point update of the body's `RigidBodyMassProps`, stamped by the write clock;
    /// a no-op (not an error) if the entity lacks it.
    pub fn set_mass_props(&mut self, handle: Index, value: RigidBodyMassProps)
        requires
            old(self).wf(),
            old(self).spec_clock() < u64::MAX,
        ensures
            final(self).wf(),
            final(self).spec_clock() == old(self).spec_clock() + 1,
            final(self).spec_change_observed() == old(self).spec_change_observed(),
            final(self).spec_activation_observed() == old(self).spec_activation_observed(),
            match old(self).spec_mass_props().spec_entry(handle) {
                Some(e) => final(self).spec_mass_props().spec_entry(handle) == Some(
                    Entry { value, modified: final(self).spec_clock(), added: e.added },
                ),
                None => final(self).spec_mass_props().spec_entry(handle) is None,
            },
            forall|h2: Index|
                h2 != handle ==> (#[trigger] final(self).spec_mass_props().spec_entry(h2)) == old(
                    self,
                ).spec_mass_props().spec_entry(h2),
            final(self).spec_positions() == old(self).spec_positions(),
            final(self).spec_velocities() == old(self).spec_velocities(),
            final(self).spec_ids() == old(self).spec_ids(),
            final(self).spec_forces() == old(self).spec_forces(),
            final(self).spec_activations() == old(self).spec_activations(),
            final(self).spec_changes() == old(self).spec_changes(),
            final(self).spec_ccds() == old(self).spec_ccds(),
            final(self).spec_colliders() == old(self).spec_colliders(),
            final(self).spec_dampings() == old(self).spec_dampings(),
            final(self).spec_dominances() == old(self).spec_dominances(),
            final(self).spec_body_types() == old(self).spec_body_types(),
    {
        self.clock = self.clock + 1;
        self.mass_props.set(handle, value, self.clock);
        proof {
            lemma_stamps_le_mono(old(self).spec_positions(), old(self).spec_clock(), self.clock);
            lemma_stamps_le_mono(old(self).spec_velocities(), old(self).spec_clock(), self.clock);
            lemma_stamps_le_mono(old(self).spec_mass_props(), old(self).spec_clock(), self.clock);
            lemma_stamps_le_mono(old(self).spec_ids(), old(self).spec_clock(), self.clock);
            lemma_stamps_le_mono(old(self).spec_forces(), old(self).spec_clock(), self.clock);
            lemma_stamps_le_mono(old(self).spec_activations(), old(self).spec_clock(), self.clock);
            lemma_stamps_le_mono(old(self).spec_changes(), old(self).spec_clock(), self.clock);
            lemma_stamps_le_mono(old(self).spec_ccds(), old(self).spec_clock(), self.clock);
            lemma_stamps_le_mono(old(self).spec_colliders(), old(self).spec_clock(), self.clock);
            lemma_stamps_le_mono(old(self).spec_dampings(), old(self).spec_clock(), self.clock);
            lemma_stamps_le_mono(old(self).spec_dominances(), old(self).spec_clock(), self.clock);
            lemma_stamps_le_mono(old(self).spec_body_types(), old(self).spec_clock(), self.clock);
        }
    }

    /// Point update of the body's `RigidBodyIds`, stamped by the write clock;
    /// a no-op (not an error) if the entity lacks it.
    pub fn set_ids(&mut self, handle: Index, value: RigidBodyIds)
        requires
            old(self).wf(),
            old(self).spec_clock() < u64::MAX,
        ensures
            final(self).wf(),
            final(self).spec_clock() == old(self).spec_clock() + 1,
            final(self).spec_change_observed() == old(self).spec_change_observed(),
            final(self).spec_activation_observed() == old(self).spec_activation_observed(),
            match old(self).spec_ids().spec_entry(handle) {
                Some(e) => final(self).spec_ids().spec_entry(handle) == Some(
                    Entry { value, modified: final(self).spec_clock(), added: e.added },
                ),
                None => final(self).spec_ids().spec_entry(handle) is None,
            },
            forall|h2: Index|
                h2 != handle ==> (#[trigger] final(self).spec_ids().spec_entry(h2)) == old(
                    self,
                ).spec_ids().spec_entry(h2),
            final(self).spec_positions() == old(self).spec_positions(),
            final(self).spec_velocities() == old(self).spec_velocities(),
            final(self).spec_mass_props() == old(self).spec_mass_props(),
            final(self).spec_forces() == old(self).spec_forces(),
            final(self).spec_activations() == old(self).spec_activations(),
            final(self).spec_changes() == old(self).spec_changes(),
            final(self).spec_ccds() == old(self).spec_ccds(),
            final(self).spec_colliders() == old(self).spec_colliders(),
            final(self).spec_dampings() == old(self).spec_dampings(),
            final(self).spec_dominances() == old(self).spec_dominances(),
            final(self).spec_body_types() == old(self).spec_body_types(),
    {
        self.clock = self.clock + 1;
        self.ids.set(handle, value, self.clock);
        proof {
            lemma_stamps_le_mono(old(self).spec_positions(), old(self).spec_clock(), self.clock);
            lemma_stamps_le_mono(old(self).spec_velocities(), old(self).spec_clock(), self.clock);
            lemma_stamps_le_mono(old(self).spec_mass_props(), old(self).spec_clock(), self.clock);
            lemma_stamps_le_mono(old(self).spec_ids(), old(self).spec_clock(), self.clock);
            lemma_stamps_le_mono(old(self).spec_forces(), old(self).spec_clock(), self.clock);
            lemma_stamps_le_mono(old(self).spec_activations(), old(self).spec_clock(), self.clock);
            lemma_stamps_le_mono(old(self).spec_changes(), old(self).spec_clock(), self.clock);
            lemma_stamps_le_mono(old(self).spec_ccds(), old(self).spec_clock(), self.clock);
            lemma_stamps_le_mono(old(self).spec_colliders(), old(self).spec_clock(), self.clock);
            lemma_stamps_le_mono(old(self).spec_dampings(), old(self).spec_clock(), self.clock);
            lemma_stamps_le_mono(old(self).spec_dominances(), old(self).spec_clock(), self.clock);
            lemma_stamps_le_mono(old(self).spec_body_types(), old(self).spec_clock(), self.clock);
        }
    }

    /// Point update of the body's `RigidBodyForces`, stamped by the write clock;
    /// a no-op (not an error) if the entity lacks it.
    pub fn set_forces(&mut self, handle: Index, value: RigidBodyForces)
        requires
            old(self).wf(),
            old(self).spec_clock() < u64::MAX,
        ensures
            final(self).wf(),
            final(self).spec_clock() == old(self).spec_clock() + 1,
            final(self).spec_change_observed() == old(self).spec_change_observed(),
            final(self).spec_activation_observed() == old(self).spec_activation_observed(),
            match old(self).spec_forces().spec_entry(handle) {
                Some(e) => final(self).spec_forces().spec_entry(handle) == Some(
                    Entry { value, modified: final(self).spec_clock(), added: e.added },
                ),
                None => final(self).spec_forces().spec_entry(handle) is None,
            },
            forall|h2: Index|
                h2 != handle ==> (#[trigger] final(self).spec_forces().spec_entry(h2)) == old(
                    self,
                ).spec_forces().spec_entry(h2),
            final(self).spec_positions() == old(self).spec_positions(),
            final(self).spec_velocities() == old(self).spec_velocities(),
            final(self).spec_mass_props() == old(self).spec_mass_props(),
            final(self).spec_ids() == old(self).spec_ids(),
            final(self).spec_activations() == old(self).spec_activations(),
            final(self).spec_changes() == old(self).spec_changes(),
            final(self).spec_ccds() == old(self).spec_ccds(),
            final(self).spec_colliders() == old(self).spec_colliders(),
            final(self).spec_dampings() == old(self).spec_dampings(),
            final(self).spec_dominances() == old(self).spec_dominances(),
            final(self).spec_body_types() == old(self).spec_body_types(),
    {
        self.clock = self.clock + 1;
        self.forces.set(handle, value, self.clock);
        proof {
            lemma_stamps_le_mono(old(self).spec_positions(), old(self).spec_clock(), self.clock);
            lemma_stamps_le_mono(old(self).spec_velocities(), old(self).spec_clock(), self.clock);
            lemma_stamps_le_mono(old(self).spec_mass_props(), old(self).spec_clock(), self.clock);
            lemma_stamps_le_mono(old(self).spec_ids(), old(self).spec_clock(), self.clock);
            lemma_stamps_le_mono(old(self).spec_forces(), old(self).spec_clock(), self.clock);
            lemma_stamps_le_mono(old(self).spec_activations(), old(self).spec_clock(), self.clock);
            lemma_stamps_le_mono(old(self).spec_changes(), old(self).spec_clock(), self.clock);
            lemma_stamps_le_mono(old(self).spec_ccds(), old(self).spec_clock(), self.clock);
            lemma_stamps_le_mono(old(self).spec_colliders(), old(self).spec_clock(), self.clock);
            lemma_stamps_le_mono(old(self).spec_dampings(), old(self).spec_clock(), self.clock);
            lemma_stamps_le_mono(old(self).spec_dominances(), old(self).spec_clock(), self.clock);
            lemma_stamps_le_mono(old(self).spec_body_types(), old(self).spec_clock(), self.clock);
        }
    }

    /// Point update of the body's `RigidBodyActivation`, stamped by the write clock;
    /// a no-op (not an error) if the entity lacks it.
    pub fn set_activation(&mut self, handle: Index, value: RigidBodyActivation)
        requires
            old(self).wf(),
            old(self).spec_clock() < u64::MAX,
        ensures
            final(self).wf(),
            final(self).spec_clock() == old(self).spec_clock() + 1,
            final(self).spec_change_observed() == old(self).spec_change_observed(),
            final(self).spec_activation_observed() == old(self).spec_activation_observed(),
            match old(self).spec_activations().spec_entry(handle) {
                Some(e) => final(self).spec_activations().spec_entry(handle) == Some(
                    Entry { value, modified: final(self).spec_clock(), added: e.added },
                ),
                None => final(self).spec_activations().spec_entry(handle) is None,
            },
            forall|h2: Index|
                h2 != handle ==> (#[trigger] final(self).spec_activations().spec_entry(h2)) == old(
                    self,
                ).spec_activations().spec_entry(h2),
            final(self).spec_positions() == old(self).spec_positions(),
            final(self).spec_velocities() == old(self).spec_velocities(),
            final(self).spec_mass_props() == old(self).spec_mass_props(),
            final(self).spec_ids() == old(self).spec_ids(),
            final(self).spec_forces() == old(self).spec_forces(),
            final(self).spec_changes() == old(self).spec_changes(),
            final(self).spec_ccds() == old(self).spec_ccds(),
            final(self).spec_colliders() == old(self).spec_colliders(),
            final(self).spec_dampings() == old(self).spec_dampings(),
            final(self).spec_dominances() == old(self).spec_dominances(),
            final(self).spec_body_types() == old(self).spec_body_types(),
    {
        self.clock = self.clock + 1;
        self.activations.set(handle, value, self.clock);
        proof {
            lemma_stamps_le_mono(old(self).spec_positions(), old(self).spec_clock(), self.clock);
            lemma_stamps_le_mono(old(self).spec_velocities(), old(self).spec_clock(), self.clock);
            lemma_stamps_le_mono(old(self).spec_mass_props(), old(self).spec_clock(), self.clock);
            lemma_stamps_le_mono(old(self).spec_ids(), old(self).spec_clock(), self.clock);
            lemma_stamps_le_mono(old(self).spec_forces(), old(self).spec_clock(), self.clock);
            lemma_stamps_le_mono(old(self).spec_activations(), old(self).spec_clock(), self.clock);
            lemma_stamps_le_mono(old(self).spec_changes(), old(self).spec_clock(), self.clock);
            lemma_stamps_le_mono(old(self).spec_ccds(), old(self).spec_clock(), self.clock);
            lemma_stamps_le_mono(old(self).spec_colliders(), old(self).spec_clock(), self.clock);
            lemma_stamps_le_mono(old(self).spec_dampings(), old(self).spec_clock(), self.clock);
            lemma_stamps_le_mono(old(self).spec_dominances(), old(self).spec_clock(), self.clock);
            lemma_stamps_le_mono(old(self).spec_body_types(), old(self).spec_clock(), self.clock);
        }
    }

    /// Point update of the body's `RigidBodyChanges`, stamped by the write clock;
    /// a no-op (not an error) if the entity lacks it.
    pub fn set_changes(&mut self, handle: Index, value: RigidBodyChanges)
        requires
            old(self).wf(),
            old(self).spec_clock() < u64::MAX,
        ensures
            final(self).wf(),
            final(self).spec_clock() == old(self).spec_clock() + 1,
            final(self).spec_change_observed() == old(self).spec_change_observed(),
            final(self).spec_activation_observed() == old(self).spec_activation_observed(),
            match old(self).spec_changes().spec_entry(handle) {
                Some(e) => final(self).spec_changes().spec_entry(handle) == Some(
                    Entry { value, modified: final(self).spec_clock(), added: e.added },
                ),
                None => final(self).spec_changes().spec_entry(handle) is None,
            },
            forall|h2: Index|
                h2 != handle ==> (#[trigger] final(self).spec_changes().spec_entry(h2)) == old(
                    self,
                ).spec_changes().spec_entry(h2),
            final(self).spec_positions() == old(self).spec_positions(),
            final(self).spec_velocities() == old(self).spec_velocities(),
            final(self).spec_mass_props() == old(self).spec_mass_props(),
            final(self).spec_ids() == old(self).spec_ids(),
            final(self).spec_forces() == old(self).spec_forces(),
            final(self).spec_activations() == old(self).spec_activations(),
            final(self).spec_ccds() == old(self).spec_ccds(),
            final(self).spec_colliders() == old(self).spec_colliders(),
            final(self).spec_dampings() == old(self).spec_dampings(),
            final(self).spec_dominances() == old(self).spec_dominances(),
            final(self).spec_body_types() == old(self).spec_body_types(),
    {
        self.clock = self.clock + 1;
        self.changes.set(handle, value, self.clock);
        proof {
            lemma_stamps_le_mono(old(self).spec_positions(), old(self).spec_clock(), self.clock);
            lemma_stamps_le_mono(old(self).spec_velocities(), old(self).spec_clock(), self.clock);
            lemma_stamps_le_mono(old(self).spec_mass_props(), old(self).spec_clock(), self.clock);
            lemma_stamps_le_mono(old(self).spec_ids(), old(self).spec_clock(), self.clock);
            lemma_stamps_le_mono(old(self).spec_forces(), old(self).spec_clock(), self.clock);
            lemma_stamps_le_mono(old(self).spec_activations(), old(self).spec_clock(), self.clock);
            lemma_stamps_le_mono(old(self).spec_changes(), old(self).spec_clock(), self.clock);
            lemma_stamps_le_mono(old(self).spec_ccds(), old(self).spec_clock(), self.clock);
            lemma_stamps_le_mono(old(self).spec_colliders(), old(self).spec_clock(), self.clock);
            lemma_stamps_le_mono(old(self).spec_dampings(), old(self).spec_clock(), self.clock);
            lemma_stamps_le_mono(old(self).spec_dominances(), old(self).spec_clock(), self.clock);
            lemma_stamps_le_mono(old(self).spec_body_types(), old(self).spec_clock(), self.clock);
        }
    }

    /// Point update of the body's `RigidBodyCcd`, stamped by the write clock;
    /// a no-op (not an error) if the entity lacks it.
    pub fn set_ccd(&mut self, handle: Index, value: RigidBodyCcd)
        requires
            old(self).wf(),
            old(self).spec_clock() < u64::MAX,
        ensures
            final(self).wf(),
            final(self).spec_clock() == old(self).spec_clock() + 1,
            final(self).spec_change_observed() == old(self).spec_change_observed(),
            final(self).spec_activation_observed() == old(self).spec_activation_observed(),
            match old(self).spec_ccds().spec_entry(handle) {
                Some(e) => final(self).spec_ccds().spec_entry(handle) == Some(
                    Entry { value, modified: final(self).spec_clock(), added: e.added },
                ),
                None => final(self).spec_ccds().spec_entry(handle) is None,
            },
            forall|h2: Index|
                h2 != handle ==> (#[trigger] final(self).spec_ccds().spec_entry(h2)) == old(
                    self,
                ).spec_ccds().spec_entry(h2),
            final(self).spec_positions() == old(self).spec_positions(),
            final(self).spec_velocities() == old(self).spec_velocities(),
            final(self).spec_mass_props() == old(self).spec_mass_props(),
            final(self).spec_ids() == old(self).spec_ids(),
            final(self).spec_forces() == old(self).spec_forces(),
            final(self).spec_activations() == old(self).spec_activations(),
            final(self).spec_changes() == old(self).spec_changes(),
            final(self).spec_colliders() == old(self).spec_colliders(),
            final(self).spec_dampings() == old(self).spec_dampings(),
            final(self).spec_dominances() == old(self).spec_dominances(),
            final(self).spec_body_types() == old(self).spec_body_types(),
    {
        self.clock = self.clock + 1;
        self.ccds.set(handle, value, self.clock);
        proof {
            lemma_stamps_le_mono(old(self).spec_positions(), old(self).spec_clock(), self.clock);
            lemma_stamps_le_mono(old(self).spec_velocities(), old(self).spec_clock(), self.clock);
            lemma_stamps_le_mono(old(self).spec_mass_props(), old(self).spec_clock(), self.clock);
            lemma_stamps_le_mono(old(self).spec_ids(), old(self).spec_clock(), self.clock);
            lemma_stamps_le_mono(old(self).spec_forces(), old(self).spec_clock(), self.clock);
            lemma_stamps_le_mono(old(self).spec_activations(), old(self).spec_clock(), self.clock);
            lemma_stamps_le_mono(old(self).spec_changes(), old(self).spec_clock(), self.clock);
            lemma_stamps_le_mono(old(self).spec_ccds(), old(self).spec_clock(), self.clock);
            lemma_stamps_le_mono(old(self).spec_colliders(), old(self).spec_clock(), self.clock);
            lemma_stamps_le_mono(old(self).spec_dampings(), old(self).spec_clock(), self.clock);
            lemma_stamps_le_mono(old(self).spec_dominances(), old(self).spec_clock(), self.clock);
            lemma_stamps_le_mono(old(self).spec_body_types(), old(self).spec_clock(), self.clock);
        }
    }

    /// Point update of the body's `RigidBodyColliders`, stamped by the write clock;
    /// a no-op (not an error) if the entity lacks it.
    pub fn set_colliders(&mut self, handle: Index, value: RigidBodyColliders)
        requires
            old(self).wf(),
            old(self).spec_clock() < u64::MAX,
        ensures
            final(self).wf(),
            final(self).spec_clock() == old(self).spec_clock() + 1,
            final(self).spec_change_observed() == old(self).spec_change_observed(),
            final(self).spec_activation_observed() == old(self).spec_activation_observed(),
            match old(self).spec_colliders().spec_entry(handle) {
                Some(e) => final(self).spec_colliders().spec_entry(handle) == Some(
                    Entry { value, modified: final(self).spec_clock(), added: e.added },
                ),
                None => final(self).spec_colliders().spec_entry(handle) is None,
            },
            forall|h2: Index|
                h2 != handle ==> (#[trigger] final(self).spec_colliders().spec_entry(h2)) == old(
                    self,
                ).spec_colliders().spec_entry(h2),
            final(self).spec_positions() == old(self).spec_positions(),
            final(self).spec_velocities() == old(self).spec_velocities(),
            final(self).spec_mass_props() == old(self).spec_mass_props(),
            final(self).spec_ids() == old(self).spec_ids(),
            final(self).spec_forces() == old(self).spec_forces(),
            final(self).spec_activations() == old(self).spec_activations(),
            final(self).spec_changes() == old(self).spec_changes(),
            final(self).spec_ccds() == old(self).spec_ccds(),
            final(self).spec_dampings() == old(self).spec_dampings(),
            final(self).spec_dominances() == old(self).spec_dominances(),
            final(self).spec_body_types() == old(self).spec_body_types(),
    {
        self.clock = self.clock + 1;
        self.colliders.set(handle, value, self.clock);
        proof {
            lemma_stamps_le_mono(old(self).spec_positions(), old(self).spec_clock(), self.clock);
            lemma_stamps_le_mono(old(self).spec_velocities(), old(self).spec_clock(), self.clock);
            lemma_stamps_le_mono(old(self).spec_mass_props(), old(self).spec_clock(), self.clock);
            lemma_stamps_le_mono(old(self).spec_ids(), old(self).spec_clock(), self.clock);
            lemma_stamps_le_mono(old(self).spec_forces(), old(self).spec_clock(), self.clock);
            lemma_stamps_le_mono(old(self).spec_activations(), old(self).spec_clock(), self.clock);
            lemma_stamps_le_mono(old(self).spec_changes(), old(self).spec_clock(), self.clock);
            lemma_stamps_le_mono(old(self).spec_ccds(), old(self).spec_clock(), self.clock);
            lemma_stamps_le_mono(old(self).spec_colliders(), old(self).spec_clock(), self.clock);
            lemma_stamps_le_mono(old(self).spec_dampings(), old(self).spec_clock(), self.clock);
            lemma_stamps_le_mono(old(self).spec_dominances(), old(self).spec_clock(), self.clock);
            lemma_stamps_le_mono(old(self).spec_body_types(), old(self).spec_clock(), self.clock);
        }
    }


    /// In-place mapping of the body of `RigidBodyPosition` at `handle`: applies `f`
    /// and stores the first half of its result, stamped by the write
    /// clock; `None`, and no write, if the entity lacks it.
    pub fn map_mut_position<Res, F: FnOnce(RigidBodyPosition) -> (RigidBodyPosition, Res)>(
        &mut self,
        handle: Index,
        f: F,
    ) -> (r: Option<Res>)
        requires
            old(self).wf(),
            old(self).spec_clock() < u64::MAX,
            forall|v: RigidBodyPosition|
                old(self).spec_positions().spec_value(handle) == Some(v) ==> call_requires(f, (v,)),
        ensures
            final(self).wf(),
            final(self).spec_clock() == old(self).spec_clock() + 1,
            final(self).spec_change_observed() == old(self).spec_change_observed(),
            final(self).spec_activation_observed() == old(self).spec_activation_observed(),
            match old(self).spec_positions().spec_entry(handle) {
                Some(e) => exists|p: (RigidBodyPosition, Res)|
                    {
                        &&& #[trigger] call_ensures(f, (e.value,), p)
                        &&& final(self).spec_positions().spec_entry(handle) == Some(
                            Entry { value: p.0, modified: final(self).spec_clock(), added: e.added },
                        )
                        &&& r == Some(p.1)
                    },
                None => final(self).spec_positions().spec_entry(handle) is None && r is None,
            },
            forall|h2: Index|
                h2 != handle ==> (#[trigger] final(self).spec_positions().spec_entry(h2)) == old(
                    self,
                ).spec_positions().spec_entry(h2),
            final(self).spec_velocities() == old(self).spec_velocities(),
            final(self).spec_mass_props() == old(self).spec_mass_props(),
            final(self).spec_ids() == old(self).spec_ids(),
            final(self).spec_forces() == old(self).spec_forces(),
            final(self).spec_activations() == old(self).spec_activations(),
            final(self).spec_changes() == old(self).spec_changes(),
            final(self).spec_ccds() == old(self).spec_ccds(),
            final(self).spec_colliders() == old(self).spec_colliders(),
            final(self).spec_dampings() == old(self).spec_dampings(),
            final(self).spec_dominances() == old(self).spec_dominances(),
            final(self).spec_body_types() == old(self).spec_body_types(),
    {
        self.clock = self.clock + 1;
        let r = self.positions.map_mut(handle, f, self.clock);
        proof {
            lemma_stamps_le_mono(old(self).spec_positions(), old(self).spec_clock(), self.clock);
            lemma_stamps_le_mono(old(self).spec_velocities(), old(self).spec_clock(), self.clock);
            lemma_stamps_le_mono(old(self).spec_mass_props(), old(self).spec_clock(), self.clock);
            lemma_stamps_le_mono(old(self).spec_ids(), old(self).spec_clock(), self.clock);
            lemma_stamps_le_mono(old(self).spec_forces(), old(self).spec_clock(), self.clock);
            lemma_stamps_le_mono(old(self).spec_activations(), old(self).spec_clock(), self.clock);
            lemma_stamps_le_mono(old(self).spec_changes(), old(self).spec_clock(), self.clock);
            lemma_stamps_le_mono(old(self).spec_ccds(), old(self).spec_clock(), self.clock);
            lemma_stamps_le_mono(old(self).spec_colliders(), old(self).spec_clock(), self.clock);
            lemma_stamps_le_mono(old(self).spec_dampings(), old(self).spec_clock(), self.clock);
            lemma_stamps_le_mono(old(self).spec_dominances(), old(self).spec_clock(), self.clock);
            lemma_stamps_le_mono(old(self).spec_body_types(), old(self).spec_clock(), self.clock);
        }
        r
    }

    /// In-place mapping of the body of `RigidBodyVelocity` at `handle`: applies `f`
    /// and stores the first half of its result, stamped by the write
    /// clock; `None`, and no write, if the entity lacks it.
    pub fn map_mut_velocity<Res, F: FnOnce(RigidBodyVelocity) -> (RigidBodyVelocity, Res)>(
        &mut self,
        handle: Index,
        f: F,
    ) -> (r: Option<Res>)
        requires
            old(self).wf(),
            old(self).spec_clock() < u64::MAX,
            forall|v: RigidBodyVelocity|
                old(self).spec_velocities().spec_value(handle) == Some(v) ==> call_requires(f, (v,)),
        ensures
            final(self).wf(),
            final(self).spec_clock() == old(self).spec_clock() + 1,
            final(self).spec_change_observed() == old(self).spec_change_observed(),
            final(self).spec_activation_observed() == old(self).spec_activation_observed(),
            match old(self).spec_velocities().spec_entry(handle) {
                Some(e) => exists|p: (RigidBodyVelocity, Res)|
                    {
                        &&& #[trigger] call_ensures(f, (e.value,), p)
                        &&& final(self).spec_velocities().spec_entry(handle) == Some(
                            Entry { value: p.0, modified: final(self).spec_clock(), added: e.added },
                        )
                        &&& r == Some(p.1)
                    },
                None => final(self).spec_velocities().spec_entry(handle) is None && r is None,
            },
            forall|h2: Index|
                h2 != handle ==> (#[trigger] final(self).spec_velocities().spec_entry(h2)) == old(
                    self,
                ).spec_velocities().spec_entry(h2),
            final(self).spec_positions() == old(self).spec_positions(),
            final(self).spec_mass_props() == old(self).spec_mass_props(),
            final(self).spec_ids() == old(self).spec_ids(),
            final(self).spec_forces() == old(self).spec_forces(),
            final(self).spec_activations() == old(self).spec_activations(),
            final(self).spec_changes() == old(self).spec_changes(),
            final(self).spec_ccds() == old(self).spec_ccds(),
            final(self).spec_colliders() == old(self).spec_colliders(),
            final(self).spec_dampings() == old(self).spec_dampings(),
            final(self).spec_dominances() == old(self).spec_dominances(),
            final(self).spec_body_types() == old(self).spec_body_types(),
    {
        self.clock = self.clock + 1;
        let r = self.velocities.map_mut(handle, f, self.clock);
        proof {
            lemma_stamps_le_mono(old(self).spec_positions(), old(self).spec_clock(), self.clock);
            lemma_stamps_le_mono(old(self).spec_velocities(), old(self).spec_clock(), self.clock);
            lemma_stamps_le_mono(old(self).spec_mass_props(), old(self).spec_clock(), self.clock);
            lemma_stamps_le_mono(old(self).spec_ids(), old(self).spec_clock(), self.clock);
            lemma_stamps_le_mono(old(self).spec_forces(), old(self).spec_clock(), self.clock);
            lemma_stamps_le_mono(old(self).spec_activations(), old(self).spec_clock(), self.clock);
            lemma_stamps_le_mono(old(self).spec_changes(), old(self).spec_clock(), self.clock);
            lemma_stamps_le_mono(old(self).spec_ccds(), old(self).spec_clock(), self.clock);
            lemma_stamps_le_mono(old(self).spec_colliders(), old(self).spec_clock(), self.clock);
            lemma_stamps_le_mono(old(self).spec_dampings(), old(self).spec_clock(), self.clock);
            lemma_stamps_le_mono(old(self).spec_dominances(), old(self).spec_clock(), self.clock);
            lemma_stamps_le_mono(old(self).spec_body_types(), old(self).spec_clock(), self.clock);
        }
        r
    }

    /// In-place mapping of the body of `RigidBodyMassProps` at `handle`: applies `f`
    /// and stores the first half of its result, stamped by the write
    /// clock; `None`, and no write, if the entity lacks it.
    pub fn map_mut_mass_props<Res, F: FnOnce(RigidBodyMassProps) -> (RigidBodyMassProps, Res)>(
        &mut self,
        handle: Index,
        f: F,
    ) -> (r: Option<Res>)
        requires
            old(self).wf(),
            old(self).spec_clock() < u64::MAX,
            forall|v: RigidBodyMassProps|
                old(self).spec_mass_props().spec_value(handle) == Some(v) ==> call_requires(f, (v,)),
        ensures
            final(self).wf(),
            final(self).spec_clock() == old(self).spec_clock() + 1,
            final(self).spec_change_observed() == old(self).spec_change_observed(),
            final(self).spec_activation_observed() == old(self).spec_activation_observed(),
            match old(self).spec_mass_props().spec_entry(handle) {
                Some(e) => exists|p: (RigidBodyMassProps, Res)|
                    {
                        &&& #[trigger] call_ensures(f, (e.value,), p)
                        &&& final(self).spec_mass_props().spec_entry(handle) == Some(
                            Entry { value: p.0, modified: final(self).spec_clock(), added: e.added },
                        )
                        &&& r == Some(p.1)
                    },
                None => final(self).spec_mass_props().spec_entry(handle) is None && r is None,
            },
            forall|h2: Index|
                h2 != handle ==> (#[trigger] final(self).spec_mass_props().spec_entry(h2)) == old(
                    self,
                ).spec_mass_props().spec_entry(h2),
            final(self).spec_positions() == old(self).spec_positions(),
            final(self).spec_velocities() == old(self).spec_velocities(),
            final(self).spec_ids() == old(self).spec_ids(),
            final(self).spec_forces() == old(self).spec_forces(),
            final(self).spec_activations() == old(self).spec_activations(),
            final(self).spec_changes() == old(self).spec_changes(),
            final(self).spec_ccds() == old(self).spec_ccds(),
            final(self).spec_colliders() == old(self).spec_colliders(),
            final(self).spec_dampings() == old(self).spec_dampings(),
            final(self).spec_dominances() == old(self).spec_dominances(),
            final(self).spec_body_types() == old(self).spec_body_types(),
    {
        self.clock = self.clock + 1;
        let r = self.mass_props.map_mut(handle, f, self.clock);
        proof {
            lemma_stamps_le_mono(old(self).spec_positions(), old(self).spec_clock(), self.clock);
            lemma_stamps_le_mono(old(self).spec_velocities(), old(self).spec_clock(), self.clock);
            lemma_stamps_le_mono(old(self).spec_mass_props(), old(self).spec_clock(), self.clock);
            lemma_stamps_le_mono(old(self).spec_ids(), old(self).spec_clock(), self.clock);
            lemma_stamps_le_mono(old(self).spec_forces(), old(self).spec_clock(), self.clock);
            lemma_stamps_le_mono(old(self).spec_activations(), old(self).spec_clock(), self.clock);
            lemma_stamps_le_mono(old(self).spec_changes(), old(self).spec_clock(), self.clock);
            lemma_stamps_le_mono(old(self).spec_ccds(), old(self).spec_clock(), self.clock);
            lemma_stamps_le_mono(old(self).spec_colliders(), old(self).spec_clock(), self.clock);
            lemma_stamps_le_mono(old(self).spec_dampings(), old(self).spec_clock(), self.clock);
            lemma_stamps_le_mono(old(self).spec_dominances(), old(self).spec_clock(), self.clock);
            lemma_stamps_le_mono(old(self).spec_body_types(), old(self).spec_clock(), self.clock);
        }
        r
    }

    /// In-place mapping of the body of `RigidBodyIds` at `handle`: applies `f`
    /// and stores the first half of its result, stamped by the write
    /// clock; `None`, and no write, if the entity lacks it.
    pub fn map_mut_ids<Res, F: FnOnce(RigidBodyIds) -> (RigidBodyIds, Res)>(
        &mut self,
        handle: Index,
        f: F,
    ) -> (r: Option<Res>)
        requires
            old(self).wf(),
            old(self).spec_clock() < u64::MAX,
            forall|v: RigidBodyIds|
                old(self).spec_ids().spec_value(handle) == Some(v) ==> call_requires(f, (v,)),
        ensures
            final(self).wf(),
            final(self).spec_clock() == old(self).spec_clock() + 1,
            final(self).spec_change_observed() == old(self).spec_change_observed(),
            final(self).spec_activation_observed() == old(self).spec_activation_observed(),
            match old(self).spec_ids().spec_entry(handle) {
                Some(e) => exists|p: (RigidBodyIds, Res)|
                    {
                        &&& #[trigger] call_ensures(f, (e.value,), p)
                        &&& final(self).spec_ids().spec_entry(handle) == Some(
                            Entry { value: p.0, modified: final(self).spec_clock(), added: e.added },
                        )
                        &&& r == Some(p.1)
                    },
                None => final(self).spec_ids().spec_entry(handle) is None && r is None,
            },
            forall|h2: Index|
                h2 != handle ==> (#[trigger] final(self).spec_ids().spec_entry(h2)) == old(
                    self,
                ).spec_ids().spec_entry(h2),
            final(self).spec_positions() == old(self).spec_positions(),
            final(self).spec_velocities() == old(self).spec_velocities(),
            final(self).spec_mass_props() == old(self).spec_mass_props(),
            final(self).spec_forces() == old(self).spec_forces(),
            final(self).spec_activations() == old(self).spec_activations(),
            final(self).spec_changes() == old(self).spec_changes(),
            final(self).spec_ccds() == old(self).spec_ccds(),
            final(self).spec_colliders() == old(self).spec_colliders(),
            final(self).spec_dampings() == old(self).spec_dampings(),
            final(self).spec_dominances() == old(self).spec_dominances(),
            final(self).spec_body_types() == old(self).spec_body_types(),
    {
        self.clock = self.clock + 1;
        let r = self.ids.map_mut(handle, f, self.clock);
        proof {
            lemma_stamps_le_mono(old(self).spec_positions(), old(self).spec_clock(), self.clock);
            lemma_stamps_le_mono(old(self).spec_velocities(), old(self).spec_clock(), self.clock);
            lemma_stamps_le_mono(old(self).spec_mass_props(), old(self).spec_clock(), self.clock);
            lemma_stamps_le_mono(old(self).spec_ids(), old(self).spec_clock(), self.clock);
            lemma_stamps_le_mono(old(self).spec_forces(), old(self).spec_clock(), self.clock);
            lemma_stamps_le_mono(old(self).spec_activations(), old(self).spec_clock(), self.clock);
            lemma_stamps_le_mono(old(self).spec_changes(), old(self).spec_clock(), self.clock);
            lemma_stamps_le_mono(old(self).spec_ccds(), old(self).spec_clock(), self.clock);
            lemma_stamps_le_mono(old(self).spec_colliders(), old(self).spec_clock(), self.clock);
            lemma_stamps_le_mono(old(self).spec_dampings(), old(self).spec_clock(), self.clock);
            lemma_stamps_le_mono(old(self).spec_dominances(), old(self).spec_clock(), self.clock);
            lemma_stamps_le_mono(old(self).spec_body_types(), old(self).spec_clock(), self.clock);
        }
        r
    }

    /// In-place mapping of the body of `RigidBodyForces` at `handle`: applies `f`
    /// and stores the first half of its result, stamped by the write
    /// clock; `None`, and no write, if the entity lacks it.
    pub fn map_mut_forces<Res, F: FnOnce(RigidBodyForces) -> (RigidBodyForces, Res)>(
        &mut self,
        handle: Index,
        f: F,
    ) -> (r: Option<Res>)
        requires
            old(self).wf(),
            old(self).spec_clock() < u64::MAX,
            forall|v: RigidBodyForces|
                old(self).spec_forces().spec_value(handle) == Some(v) ==> call_requires(f, (v,)),
        ensures
            final(self).wf(),
            final(self).spec_clock() == old(self).spec_clock() + 1,
            final(self).spec_change_observed() == old(self).spec_change_observed(),
            final(self).spec_activation_observed() == old(self).spec_activation_observed(),
            match old(self).spec_forces().spec_entry(handle) {
                Some(e) => exists|p: (RigidBodyForces, Res)|
                    {
                        &&& #[trigger] call_ensures(f, (e.value,), p)
                        &&& final(self).spec_forces().spec_entry(handle) == Some(
                            Entry { value: p.0, modified: final(self).spec_clock(), added: e.added },
                        )
                        &&& r == Some(p.1)
                    },
                None => final(self).spec_forces().spec_entry(handle) is None && r is None,
            },
            forall|h2: Index|
                h2 != handle ==> (#[trigger] final(self).spec_forces().spec_entry(h2)) == old(
                    self,
                ).spec_forces().spec_entry(h2),
            final(self).spec_positions() == old(self).spec_positions(),
            final(self).spec_velocities() == old(self).spec_velocities(),
            final(self).spec_mass_props() == old(self).spec_mass_props(),
            final(self).spec_ids() == old(self).spec_ids(),
            final(self).spec_activations() == old(self).spec_activations(),
            final(self).spec_changes() == old(self).spec_changes(),
            final(self).spec_ccds() == old(self).spec_ccds(),
            final(self).spec_colliders() == old(self).spec_colliders(),
            final(self).spec_dampings() == old(self).spec_dampings(),
            final(self).spec_dominances() == old(self).spec_dominances(),
            final(self).spec_body_types() == old(self).spec_body_types(),
    {
        self.clock = self.clock + 1;
        let r = self.forces.map_mut(handle, f, self.clock);
        proof {
            lemma_stamps_le_mono(old(self).spec_positions(), old(self).spec_clock(), self.clock);
            lemma_stamps_le_mono(old(self).spec_velocities(), old(self).spec_clock(), self.clock);
            lemma_stamps_le_mono(old(self).spec_mass_props(), old(self).spec_clock(), self.clock);
            lemma_stamps_le_mono(old(self).spec_ids(), old(self).spec_clock(), self.clock);
            lemma_stamps_le_mono(old(self).spec_forces(), old(self).spec_clock(), self.clock);
            lemma_stamps_le_mono(old(self).spec_activations(), old(self).spec_clock(), self.clock);
            lemma_stamps_le_mono(old(self).spec_changes(), old(self).spec_clock(), self.clock);
            lemma_stamps_le_mono(old(self).spec_ccds(), old(self).spec_clock(), self.clock);
            lemma_stamps_le_mono(old(self).spec_colliders(), old(self).spec_clock(), self.clock);
            lemma_stamps_le_mono(old(self).spec_dampings(), old(self).spec_clock(), self.clock);
            lemma_stamps_le_mono(old(self).spec_dominances(), old(self).spec_clock(), self.clock);
            lemma_stamps_le_mono(old(self).spec_body_types(), old(self).spec_clock(), self.clock);
        }
        r
    }

    /// In-place mapping of the body of `RigidBodyActivation` at `handle`: applies `f`
    /// and stores the first half of its result, stamped by the write
    /// clock; `None`, and no write, if the entity lacks it.
    pub fn map_mut_activation<Res, F: FnOnce(RigidBodyActivation) -> (RigidBodyActivation, Res)>(
        &mut self,
        handle: Index,
        f: F,
    ) -> (r: Option<Res>)
        requires
            old(self).wf(),
            old(self).spec_clock() < u64::MAX,
            forall|v: RigidBodyActivation|
                old(self).spec_activations().spec_value(handle) == Some(v) ==> call_requires(f, (v,)),
        ensures
            final(self).wf(),
            final(self).spec_clock() == old(self).spec_clock() + 1,
            final(self).spec_change_observed() == old(self).spec_change_observed(),
            final(self).spec_activation_observed() == old(self).spec_activation_observed(),
            match old(self).spec_activations().spec_entry(handle) {
                Some(e) => exists|p: (RigidBodyActivation, Res)|
                    {
                        &&& #[trigger] call_ensures(f, (e.value,), p)
                        &&& final(self).spec_activations().spec_entry(handle) == Some(
                            Entry { value: p.0, modified: final(self).spec_clock(), added: e.added },
                        )
                        &&& r == Some(p.1)
                    },
                None => final(self).spec_activations().spec_entry(handle) is None && r is None,
            },
            forall|h2: Index|
                h2 != handle ==> (#[trigger] final(self).spec_activations().spec_entry(h2)) == old(
                    self,
                ).spec_activations().spec_entry(h2),
            final(self).spec_positions() == old(self).spec_positions(),
            final(self).spec_velocities() == old(self).spec_velocities(),
            final(self).spec_mass_props() == old(self).spec_mass_props(),
            final(self).spec_ids() == old(self).spec_ids(),
            final(self).spec_forces() == old(self).spec_forces(),
            final(self).spec_changes() == old(self).spec_changes(),
            final(self).spec_ccds() == old(self).spec_ccds(),
            final(self).spec_colliders() == old(self).spec_colliders(),
            final(self).spec_dampings() == old(self).spec_dampings(),
            final(self).spec_dominances() == old(self).spec_dominances(),
            final(self).spec_body_types() == old(self).spec_body_types(),
    {
        self.clock = self.clock + 1;
        let r = self.activations.map_mut(handle, f, self.clock);
        proof {
            lemma_stamps_le_mono(old(self).spec_positions(), old(self).spec_clock(), self.clock);
            lemma_stamps_le_mono(old(self).spec_velocities(), old(self).spec_clock(), self.clock);
            lemma_stamps_le_mono(old(self).spec_mass_props(), old(self).spec_clock(), self.clock);
            lemma_stamps_le_mono(old(self).spec_ids(), old(self).spec_clock(), self.clock);
            lemma_stamps_le_mono(old(self).spec_forces(), old(self).spec_clock(), self.clock);
            lemma_stamps_le_mono(old(self).spec_activations(), old(self).spec_clock(), self.clock);
            lemma_stamps_le_mono(old(self).spec_changes(), old(self).spec_clock(), self.clock);
            lemma_stamps_le_mono(old(self).spec_ccds(), old(self).spec_clock(), self.clock);
            lemma_stamps_le_mono(old(self).spec_colliders(), old(self).spec_clock(), self.clock);
            lemma_stamps_le_mono(old(self).spec_dampings(), old(self).spec_clock(), self.clock);
            lemma_stamps_le_mono(old(self).spec_dominances(), old(self).spec_clock(), self.clock);
            lemma_stamps_le_mono(old(self).spec_body_types(), old(self).spec_clock(), self.clock);
        }
        r
    }

    /// In-place mapping of the body of `RigidBodyChanges` at `handle`: applies `f`
    /// and stores the first half of its result, stamped by the write
    /// clock; `None`, and no write, if the entity lacks it.
    pub fn map_mut_changes<Res, F: FnOnce(RigidBodyChanges) -> (RigidBodyChanges, Res)>(
        &mut self,
        handle: Index,
        f: F,
    ) -> (r: Option<Res>)
        requires
            old(self).wf(),
            old(self).spec_clock() < u64::MAX,
            forall|v: RigidBodyChanges|
                old(self).spec_changes().spec_value(handle) == Some(v) ==> call_requires(f, (v,)),
        ensures
            final(self).wf(),
            final(self).spec_clock() == old(self).spec_clock() + 1,
            final(self).spec_change_observed() == old(self).spec_change_observed(),
            final(self).spec_activation_observed() == old(self).spec_activation_observed(),
            match old(self).spec_changes().spec_entry(handle) {
                Some(e) => exists|p: (RigidBodyChanges, Res)|
                    {
                        &&& #[trigger] call_ensures(f, (e.value,), p)
                        &&& final(self).spec_changes().spec_entry(handle) == Some(
                            Entry { value: p.0, modified: final(self).spec_clock(), added: e.added },
                        )
                        &&& r == Some(p.1)
                    },
                None => final(self).spec_changes().spec_entry(handle) is None && r is None,
            },
            forall|h2: Index|
                h2 != handle ==> (#[trigger] final(self).spec_changes().spec_entry(h2)) == old(
                    self,
                ).spec_changes().spec_entry(h2),
            final(self).spec_positions() == old(self).spec_positions(),
            final(self).spec_velocities() == old(self).spec_velocities(),
            final(self).spec_mass_props() == old(self).spec_mass_props(),
            final(self).spec_ids() == old(self).spec_ids(),
            final(self).spec_forces() == old(self).spec_forces(),
            final(self).spec_activations() == old(self).spec_activations(),
            final(self).spec_ccds() == old(self).spec_ccds(),
            final(self).spec_colliders() == old(self).spec_colliders(),
            final(self).spec_dampings() == old(self).spec_dampings(),
            final(self).spec_dominances() == old(self).spec_dominances(),
            final(self).spec_body_types() == old(self).spec_body_types(),
    {
        self.clock = self.clock + 1;
        let r = self.changes.map_mut(handle, f, self.clock);
        proof {
            lemma_stamps_le_mono(old(self).spec_positions(), old(self).spec_clock(), self.clock);
            lemma_stamps_le_mono(old(self).spec_velocities(), old(self).spec_clock(), self.clock);
            lemma_stamps_le_mono(old(self).spec_mass_props(), old(self).spec_clock(), self.clock);
            lemma_stamps_le_mono(old(self).spec_ids(), old(self).spec_clock(), self.clock);
            lemma_stamps_le_mono(old(self).spec_forces(), old(self).spec_clock(), self.clock);
            lemma_stamps_le_mono(old(self).spec_activations(), old(self).spec_clock(), self.clock);
            lemma_stamps_le_mono(old(self).spec_changes(), old(self).spec_clock(), self.clock);
            lemma_stamps_le_mono(old(self).spec_ccds(), old(self).spec_clock(), self.clock);
            lemma_stamps_le_mono(old(self).spec_colliders(), old(self).spec_clock(), self.clock);
            lemma_stamps_le_mono(old(self).spec_dampings(), old(self).spec_clock(), self.clock);
            lemma_stamps_le_mono(old(self).spec_dominances(), old(self).spec_clock(), self.clock);
            lemma_stamps_le_mono(old(self).spec_body_types(), old(self).spec_clock(), self.clock);
        }
        r
    }

    /// In-place mapping of the body of `RigidBodyCcd` at `handle`: applies `f`
    /// and stores the first half of its result, stamped by the write
    /// clock; `None`, and no write, if the entity lacks it.
    pub fn map_mut_ccd<Res, F: FnOnce(RigidBodyCcd) -> (RigidBodyCcd, Res)>(
        &mut self,
        handle: Index,
        f: F,
    ) -> (r: Option<Res>)
        requires
            old(self).wf(),
            old(self).spec_clock() < u64::MAX,
            forall|v: RigidBodyCcd|
                old(self).spec_ccds().spec_value(handle) == Some(v) ==> call_requires(f, (v,)),
        ensures
            final(self).wf(),
            final(self).spec_clock() == old(self).spec_clock() + 1,
            final(self).spec_change_observed() == old(self).spec_change_observed(),
            final(self).spec_activation_observed() == old(self).spec_activation_observed(),
            match old(self).spec_ccds().spec_entry(handle) {
                Some(e) => exists|p: (RigidBodyCcd, Res)|
                    {
                        &&& #[trigger] call_ensures(f, (e.value,), p)
                        &&& final(self).spec_ccds().spec_entry(handle) == Some(
                            Entry { value: p.0, modified: final(self).spec_clock(), added: e.added },
                        )
                        &&& r == Some(p.1)
                    },
                None => final(self).spec_ccds().spec_entry(handle) is None && r is None,
            },
            forall|h2: Index|
                h2 != handle ==> (#[trigger] final(self).spec_ccds().spec_entry(h2)) == old(
                    self,
                ).spec_ccds().spec_entry(h2),
            final(self).spec_positions() == old(self).spec_positions(),
            final(self).spec_velocities() == old(self).spec_velocities(),
            final(self).spec_mass_props() == old(self).spec_mass_props(),
            final(self).spec_ids() == old(self).spec_ids(),
            final(self).spec_forces() == old(self).spec_forces(),
            final(self).spec_activations() == old(self).spec_activations(),
            final(self).spec_changes() == old(self).spec_changes(),
            final(self).spec_colliders() == old(self).spec_colliders(),
            final(self).spec_dampings() == old(self).spec_dampings(),
            final(self).spec_dominances() == old(self).spec_dominances(),
            final(self).spec_body_types() == old(self).spec_body_types(),
    {
        self.clock = self.clock + 1;
        let r = self.ccds.map_mut(handle, f, self.clock);
        proof {
            lemma_stamps_le_mono(old(self).spec_positions(), old(self).spec_clock(), self.clock);
            lemma_stamps_le_mono(old(self).spec_velocities(), old(self).spec_clock(), self.clock);
            lemma_stamps_le_mono(old(self).spec_mass_props(), old(self).spec_clock(), self.clock);
            lemma_stamps_le_mono(old(self).spec_ids(), old(self).spec_clock(), self.clock);
            lemma_stamps_le_mono(old(self).spec_forces(), old(self).spec_clock(), self.clock);
            lemma_stamps_le_mono(old(self).spec_activations(), old(self).spec_clock(), self.clock);
            lemma_stamps_le_mono(old(self).spec_changes(), old(self).spec_clock(), self.clock);
            lemma_stamps_le_mono(old(self).spec_ccds(), old(self).spec_clock(), self.clock);
            lemma_stamps_le_mono(old(self).spec_colliders(), old(self).spec_clock(), self.clock);
            lemma_stamps_le_mono(old(self).spec_dampings(), old(self).spec_clock(), self.clock);
            lemma_stamps_le_mono(old(self).spec_dominances(), old(self).spec_clock(), self.clock);
            lemma_stamps_le_mono(old(self).spec_body_types(), old(self).spec_clock(), self.clock);
        }
        r
    }

    /// In-place mapping of the body of `RigidBodyColliders` at `handle`: applies `f`
    /// and stores the first half of its result, stamped by the write
    /// clock; `None`, and no write, if the entity lacks it.
    pub fn map_mut_colliders<Res, F: FnOnce(RigidBodyColliders) -> (RigidBodyColliders, Res)>(
        &mut self,
        handle: Index,
        f: F,
    ) -> (r: Option<Res>)
        requires
            old(self).wf(),
            old(self).spec_clock() < u64::MAX,
            forall|v: RigidBodyColliders|
                old(self).spec_colliders().spec_value(handle) == Some(v) ==> call_requires(f, (v,)),
        ensures
            final(self).wf(),
            final(self).spec_clock() == old(self).spec_clock() + 1,
            final(self).spec_change_observed() == old(self).spec_change_observed(),
            final(self).spec_activation_observed() == old(self).spec_activation_observed(),
            match old(self).spec_colliders().spec_entry(handle) {
                Some(e) => exists|p: (RigidBodyColliders, Res)|
                    {
                        &&& #[trigger] call_ensures(f, (e.value,), p)
                        &&& final(self).spec_colliders().spec_entry(handle) == Some(
                            Entry { value: p.0, modified: final(self).spec_clock(), added: e.added },
                        )
                        &&& r == Some(p.1)
                    },
                None => final(self).spec_colliders().spec_entry(handle) is None && r is None,
            },
            forall|h2: Index|
                h2 != handle ==> (#[trigger] final(self).spec_colliders().spec_entry(h2)) == old(
                    self,
                ).spec_colliders().spec_entry(h2),
            final(self).spec_positions() == old(self).spec_positions(),
            final(self).spec_velocities() == old(self).spec_velocities(),
            final(self).spec_mass_props() == old(self).spec_mass_props(),
            final(self).spec_ids() == old(self).spec_ids(),
            final(self).spec_forces() == old(self).spec_forces(),
            final(self).spec_activations() == old(self).spec_activations(),
            final(self).spec_changes() == old(self).spec_changes(),
            final(self).spec_ccds() == old(self).spec_ccds(),
            final(self).spec_dampings() == old(self).spec_dampings(),
            final(self).spec_dominances() == old(self).spec_dominances(),
            final(self).spec_body_types() == old(self).spec_body_types(),
    {
        self.clock = self.clock + 1;
        let r = self.colliders.map_mut(handle, f, self.clock);
        proof {
            lemma_stamps_le_mono(old(self).spec_positions(), old(self).spec_clock(), self.clock);
            lemma_stamps_le_mono(old(self).spec_velocities(), old(self).spec_clock(), self.clock);
            lemma_stamps_le_mono(old(self).spec_mass_props(), old(self).spec_clock(), self.clock);
            lemma_stamps_le_mono(old(self).spec_ids(), old(self).spec_clock(), self.clock);
            lemma_stamps_le_mono(old(self).spec_forces(), old(self).spec_clock(), self.clock);
            lemma_stamps_le_mono(old(self).spec_activations(), old(self).spec_clock(), self.clock);
            lemma_stamps_le_mono(old(self).spec_changes(), old(self).spec_clock(), self.clock);
            lemma_stamps_le_mono(old(self).spec_ccds(), old(self).spec_clock(), self.clock);
            lemma_stamps_le_mono(old(self).spec_colliders(), old(self).spec_clock(), self.clock);
            lemma_stamps_le_mono(old(self).spec_dampings(), old(self).spec_clock(), self.clock);
            lemma_stamps_le_mono(old(self).spec_dominances(), old(self).spec_clock(), self.clock);
            lemma_stamps_le_mono(old(self).spec_body_types(), old(self).spec_clock(), self.clock);
        }
        r
    }

    /// The change categories the full pass computes for `handle` from the
    /// write stamps: one bit per watched field category whose component
    /// was modified or added since the pass last observed. Insertion
    /// counts as a write, so a fresh bundle fires every category.
    pub open spec fn spec_category_bits(self, handle: Index) -> u32 {
        (if self.spec_positions().spec_modified_since(handle, self.spec_change_observed()) {
            RB_CHANGE_POSITION
        } else {
            0
        }) | (if self.spec_velocities().spec_modified_since(
            handle,
            self.spec_change_observed(),
        ) {
            RB_CHANGE_VELOCITY
        } else {
            0
        }) | (if self.spec_forces().spec_modified_since(handle, self.spec_change_observed()) {
            RB_CHANGE_FORCES
        } else {
            0
        }) | (if self.spec_body_types().spec_modified_since(
            handle,
            self.spec_change_observed(),
        ) {
            RB_CHANGE_TYPE
        } else {
            0
        }) | (if self.spec_colliders().spec_modified_since(
            handle,
            self.spec_change_observed(),
        ) {
            RB_CHANGE_COLLIDERS
        } else {
            0
        })
    }

    /// The sleep-category bit the activation pass computes for `handle`.
    pub open spec fn spec_activation_bits(self, handle: Index) -> u32 {
        if self.spec_activations().spec_modified_since(
            handle,
            self.spec_activation_observed(),
        ) {
            RB_CHANGE_SLEEP
        } else {
            0
        }
    }

    /// The change-computation pass: for every live body, ORs the freshly
    /// computed category bits into its changes bitset, then records that
    /// it has observed up to the current clock. It mutably borrows only
    /// the changes slice; every watched slice is read.
    pub fn detect_changes(&mut self)
        requires
            old(self).wf(),
        ensures
            final(self).wf(),
            final(self).spec_clock() == old(self).spec_clock(),
            final(self).spec_change_observed() == old(self).spec_clock(),
            final(self).spec_activation_observed() == old(self).spec_activation_observed(),
            final(self).spec_positions() == old(self).spec_positions(),
            final(self).spec_velocities() == old(self).spec_velocities(),
            final(self).spec_mass_props() == old(self).spec_mass_props(),
            final(self).spec_ids() == old(self).spec_ids(),
            final(self).spec_forces() == old(self).spec_forces(),
            final(self).spec_activations() == old(self).spec_activations(),
            final(self).spec_ccds() == old(self).spec_ccds(),
            final(self).spec_colliders() == old(self).spec_colliders(),
            final(self).spec_dampings() == old(self).spec_dampings(),
            final(self).spec_dominances() == old(self).spec_dominances(),
            final(self).spec_body_types() == old(self).spec_body_types(),
            forall|h: Index|
                (#[trigger] final(self).spec_changes().spec_value(h)) == match old(
                    self,
                ).spec_changes().spec_value(h) {
                    Some(c) => Some(
                        RigidBodyChanges { bits: c.bits | old(self).spec_category_bits(h) },
                    ),
                    None => None,
                },
    {
        let observed = self.change_observed;
        let keys = self.changes.for_each();
        let n = keys.len();
        let mut i: usize = 0;
        while i < n
            invariant
                i <= n,
                n == keys@.len(),
                self.clock == old(self).spec_clock(),
                self.change_observed == old(self).spec_change_observed(),
                self.activation_observed == old(self).spec_activation_observed(),
                observed == old(self).spec_change_observed(),
                self.positions == old(self).spec_positions(),
                self.velocities == old(self).spec_velocities(),
                self.mass_props == old(self).spec_mass_props(),
                self.ids == old(self).spec_ids(),
                self.forces == old(self).spec_forces(),
                self.activations == old(self).spec_activations(),
                self.ccds == old(self).spec_ccds(),
                self.colliders == old(self).spec_colliders(),
                self.dampings == old(self).spec_dampings(),
                self.dominances == old(self).spec_dominances(),
                self.body_types == old(self).spec_body_types(),
                self.changes.wf(),
                self.changes.stamps_le(self.clock),
                forall|h: Index|
                    ((#[trigger] self.changes.spec_entry(h)) is Some) == (old(
                        self,
                    ).spec_changes().spec_entry(h) is Some),
                forall|j: int|
                    0 <= j < n ==> old(self).spec_changes().spec_value(#[trigger] keys@[j].0)
                        == Some(keys@[j].1),
                forall|j: int, k: int|
                    0 <= j < k < n ==> (#[trigger] keys@[j].0) != (#[trigger] keys@[k].0),
                forall|h: Index|
                    old(self).spec_changes().contains(h) ==> exists|j: int|
                        0 <= j < n && (#[trigger] keys@[j].0) == h,
                forall|j: int|
                    0 <= j < i ==> (#[trigger] self.changes.spec_value(keys@[j].0)) == Some(
                        RigidBodyChanges {
                            bits: keys@[j].1.bits | old(self).spec_category_bits(keys@[j].0),
                        },
                    ),
                forall|h: Index|
                    (forall|j: int| 0 <= j < i ==> (#[trigger] keys@[j].0) != h) ==> (
                    #[trigger] self.changes.spec_entry(h)) == old(
                        self,
                    ).spec_changes().spec_entry(h),
            decreases n - i,
        {
            let h = keys[i].0;
            let b0: u32 = if self.positions.changed_since(h, observed) {
                RB_CHANGE_POSITION
            } else {
                0
            };
            let b1: u32 = if self.velocities.changed_since(h, observed) {
                RB_CHANGE_VELOCITY
            } else {
                0
            };
            let b2: u32 = if self.forces.changed_since(h, observed) {
                RB_CHANGE_FORCES
            } else {
                0
            };
            let b3: u32 = if self.body_types.changed_since(h, observed) {
                RB_CHANGE_TYPE
            } else {
                0
            };
            let b4: u32 = if self.colliders.changed_since(h, observed) {
                RB_CHANGE_COLLIDERS
            } else {
                0
            };
            let bits: u32 = b0 | b1 | b2 | b3 | b4;
            proof {
                assert(bits == old(self).spec_category_bits(h));
                assert(forall|j: int| 0 <= j < i ==> (#[trigger] keys@[j].0) != h);
                assert(self.changes.spec_entry(h) == old(self).spec_changes().spec_entry(h));
            }
            let cur = keys[i].1;
            let ghost prev = self.changes;
            self.changes.set(h, RigidBodyChanges { bits: cur.bits | bits }, self.clock);
            proof {
                assert forall|j: int|
                    0 <= j < i + 1 implies (#[trigger] self.changes.spec_value(keys@[j].0))
                    == Some(
                    RigidBodyChanges {
                        bits: keys@[j].1.bits | old(self).spec_category_bits(keys@[j].0),
                    },
                ) by {
                    if j < i as int {
                        assert(keys@[j].0 != h);
                        assert(self.changes.spec_entry(keys@[j].0) == prev.spec_entry(
                            keys@[j].0,
                        ));
                        assert(prev.spec_value(keys@[j].0) == Some(
                            RigidBodyChanges {
                                bits: keys@[j].1.bits | old(self).spec_category_bits(
                                    keys@[j].0,
                                ),
                            },
                        ));
                    } else {
                        assert(keys@[j].0 == h);
                    }
                }
                assert forall|h2: Index|
                    ((#[trigger] self.changes.spec_entry(h2)) is Some) == (old(
                        self,
                    ).spec_changes().spec_entry(h2) is Some) by {
                    if h2 != h {
                        assert(self.changes.spec_entry(h2) == prev.spec_entry(h2));
                    }
                }
            }
            i += 1;
        }
        self.change_observed = self.clock;
        proof {
            assert forall|h: Index|
                (#[trigger] self.changes.spec_value(h)) == match old(
                    self,
                ).spec_changes().spec_value(h) {
                    Some(c) => Some(
                        RigidBodyChanges { bits: c.bits | old(self).spec_category_bits(h) },
                    ),
                    None => None,
                } by {
                if old(self).spec_changes().contains(h) {
                    let j = choose|j: int| 0 <= j < n && (#[trigger] keys@[j].0) == h;
                    assert(self.changes.spec_value(keys@[j].0) == Some(
                        RigidBodyChanges {
                            bits: keys@[j].1.bits | old(self).spec_category_bits(keys@[j].0),
                        },
                    ));
                } else {
                    assert(forall|j: int| 0 <= j < i ==> (#[trigger] keys@[j].0) != h);
                }
            }
        }
    }

    /// The activation-only pass, run at its own cadence: ORs the sleep
    /// category into the changes bitset of every body whose activation
    /// state was written since this pass last observed.
    pub fn detect_activation_changes(&mut self)
        requires
            old(self).wf(),
        ensures
            final(self).wf(),
            final(self).spec_clock() == old(self).spec_clock(),
            final(self).spec_change_observed() == old(self).spec_change_observed(),
            final(self).spec_activation_observed() == old(self).spec_clock(),
            final(self).spec_positions() == old(self).spec_positions(),
            final(self).spec_velocities() == old(self).spec_velocities(),
            final(self).spec_mass_props() == old(self).spec_mass_props(),
            final(self).spec_ids() == old(self).spec_ids(),
            final(self).spec_forces() == old(self).spec_forces(),
            final(self).spec_activations() == old(self).spec_activations(),
            final(self).spec_ccds() == old(self).spec_ccds(),
            final(self).spec_colliders() == old(self).spec_colliders(),
            final(self).spec_dampings() == old(self).spec_dampings(),
            final(self).spec_dominances() == old(self).spec_dominances(),
            final(self).spec_body_types() == old(self).spec_body_types(),
            forall|h: Index|
                (#[trigger] final(self).spec_changes().spec_value(h)) == match old(
                    self,
                ).spec_changes().spec_value(h) {
                    Some(c) => Some(
                        RigidBodyChanges { bits: c.bits | old(self).spec_activation_bits(h) },
                    ),
                    None => None,
                },
    {
        let observed = self.activation_observed;
        let keys = self.changes.for_each();
        let n = keys.len();
        let mut i: usize = 0;
        while i < n
            invariant
                i <= n,
                n == keys@.len(),
                self.clock == old(self).spec_clock(),
                self.change_observed == old(self).spec_change_observed(),
                self.activation_observed == old(self).spec_activation_observed(),
                observed == old(self).spec_activation_observed(),
                self.positions == old(self).spec_positions(),
                self.velocities == old(self).spec_velocities(),
                self.mass_props == old(self).spec_mass_props(),
                self.ids == old(self).spec_ids(),
                self.forces == old(self).spec_forces(),
                self.activations == old(self).spec_activations(),
                self.ccds == old(self).spec_ccds(),
                self.colliders == old(self).spec_colliders(),
                self.dampings == old(self).spec_dampings(),
                self.dominances == old(self).spec_dominances(),
                self.body_types == old(self).spec_body_types(),
                self.changes.wf(),
                self.changes.stamps_le(self.clock),
                forall|h: Index|
                    ((#[trigger] self.changes.spec_entry(h)) is Some) == (old(
                        self,
                    ).spec_changes().spec_entry(h) is Some),
                forall|j: int|
                    0 <= j < n ==> old(self).spec_changes().spec_value(#[trigger] keys@[j].0)
                        == Some(keys@[j].1),
                forall|j: int, k: int|
                    0 <= j < k < n ==> (#[trigger] keys@[j].0) != (#[trigger] keys@[k].0),
                forall|h: Index|
                    old(self).spec_changes().contains(h) ==> exists|j: int|
                        0 <= j < n && (#[trigger] keys@[j].0) == h,
                forall|j: int|
                    0 <= j < i ==> (#[trigger] self.changes.spec_value(keys@[j].0)) == Some(
                        RigidBodyChanges {
                            bits: keys@[j].1.bits | old(self).spec_activation_bits(keys@[j].0),
                        },
                    ),
                forall|h: Index|
                    (forall|j: int| 0 <= j < i ==> (#[trigger] keys@[j].0) != h) ==> (
                    #[trigger] self.changes.spec_entry(h)) == old(
                        self,
                    ).spec_changes().spec_entry(h),
            decreases n - i,
        {
            let h = keys[i].0;
            let bits: u32 = if self.activations.changed_since(h, observed) {
                RB_CHANGE_SLEEP
            } else {
                0
            };
            proof {
                assert(bits == old(self).spec_activation_bits(h));
                assert(forall|j: int| 0 <= j < i ==> (#[trigger] keys@[j].0) != h);
                assert(self.changes.spec_entry(h) == old(self).spec_changes().spec_entry(h));
            }
            let cur = keys[i].1;
            let ghost prev = self.changes;
            self.changes.set(h, RigidBodyChanges { bits: cur.bits | bits }, self.clock);
            proof {
                assert forall|j: int|
                    0 <= j < i + 1 implies (#[trigger] self.changes.spec_value(keys@[j].0))
                    == Some(
                    RigidBodyChanges {
                        bits: keys@[j].1.bits | old(self).spec_activation_bits(keys@[j].0),
                    },
                ) by {
                    if j < i as int {
                        assert(keys@[j].0 != h);
                        assert(self.changes.spec_entry(keys@[j].0) == prev.spec_entry(
                            keys@[j].0,
                        ));
                        assert(prev.spec_value(keys@[j].0) == Some(
                            RigidBodyChanges {
                                bits: keys@[j].1.bits | old(self).spec_activation_bits(
                                    keys@[j].0,
                                ),
                            },
                        ));
                    } else {
                        assert(keys@[j].0 == h);
                    }
                }
                assert forall|h2: Index|
                    ((#[trigger] self.changes.spec_entry(h2)) is Some) == (old(
                        self,
                    ).spec_changes().spec_entry(h2) is Some) by {
                    if h2 != h {
                        assert(self.changes.spec_entry(h2) == prev.spec_entry(h2));
                    }
                }
            }
            i += 1;
        }
        self.activation_observed = self.clock;
        proof {
            assert forall|h: Index|
                (#[trigger] self.changes.spec_value(h)) == match old(
                    self,
                ).spec_changes().spec_value(h) {
                    Some(c) => Some(
                        RigidBodyChanges { bits: c.bits | old(self).spec_activation_bits(h) },
                    ),
                    None => None,
                } by {
                if old(self).spec_changes().contains(h) {
                    let j = choose|j: int| 0 <= j < n && (#[trigger] keys@[j].0) == h;
                    assert(self.changes.spec_value(keys@[j].0) == Some(
                        RigidBodyChanges {
                            bits: keys@[j].1.bits | old(self).spec_activation_bits(keys@[j].0),
                        },
                    ));
                } else {
                    assert(forall|j: int| 0 <= j < i ==> (#[trigger] keys@[j].0) != h);
                }
            }
        }
    }
}

/// Law: fresh-spawn semantics. When every watched component of `handle`
/// was added after the pass's last observation — as holds for exactly the
/// components of a freshly attached bundle — the change-computation pass
/// computes every one of its categories, so the new body is initialized
/// fully rather than incrementally.
pub proof fn lemma_fresh_spawn_flags_all_categories(s: RigidBodyComponentsSet, handle: Index)
    requires
        s.wf(),
        s.spec_positions().spec_added_since(handle, s.spec_change_observed()),
        s.spec_velocities().spec_added_since(handle, s.spec_change_observed()),
        s.spec_forces().spec_added_since(handle, s.spec_change_observed()),
        s.spec_body_types().spec_added_since(handle, s.spec_change_observed()),
        s.spec_colliders().spec_added_since(handle, s.spec_change_observed()),
    ensures
        s.spec_category_bits(handle) == RB_CHANGE_ALL,
{
    assert(1u32 | 2u32 | 4u32 | 8u32 | 16u32 == 31u32) by (bit_vector);
}

/// Law: fresh-spawn semantics for the activation pass. A freshly added
/// activation state fires the sleep category as well.
pub proof fn lemma_fresh_spawn_flags_sleep(s: RigidBodyComponentsSet, handle: Index)
    requires
        s.wf(),
        s.spec_activations().spec_added_since(handle, s.spec_activation_observed()),
    ensures
        s.spec_activation_bits(handle) == RB_CHANGE_SLEEP,
{
}

/// Law: change propagation. After a watched field of a body was written,
/// the next change-computation pass computes that field's category for
/// that body, whatever else was or was not written.
pub proof fn lemma_change_propagation(s: RigidBodyComponentsSet, handle: Index)
    requires
        s.wf(),
    ensures
        s.spec_positions().spec_modified_since(handle, s.spec_change_observed())
            ==> s.spec_category_bits(handle) & RB_CHANGE_POSITION == RB_CHANGE_POSITION,
        s.spec_velocities().spec_modified_since(handle, s.spec_change_observed())
            ==> s.spec_category_bits(handle) & RB_CHANGE_VELOCITY == RB_CHANGE_VELOCITY,
        s.spec_forces().spec_modified_since(handle, s.spec_change_observed())
            ==> s.spec_category_bits(handle) & RB_CHANGE_FORCES == RB_CHANGE_FORCES,
        s.spec_body_types().spec_modified_since(handle, s.spec_change_observed())
            ==> s.spec_category_bits(handle) & RB_CHANGE_TYPE == RB_CHANGE_TYPE,
        s.spec_colliders().spec_modified_since(handle, s.spec_change_observed())
            ==> s.spec_category_bits(handle) & RB_CHANGE_COLLIDERS == RB_CHANGE_COLLIDERS,
{
    let t0: u32 = if s.spec_positions().spec_modified_since(
        handle,
        s.spec_change_observed(),
    ) {
        RB_CHANGE_POSITION
    } else {
        0
    };
    let t1: u32 = if s.spec_velocities().spec_modified_since(
        handle,
        s.spec_change_observed(),
    ) {
        RB_CHANGE_VELOCITY
    } else {
        0
    };
    let t2: u32 = if s.spec_forces().spec_modified_since(handle, s.spec_change_observed()) {
        RB_CHANGE_FORCES
    } else {
        0
    };
    let t3: u32 = if s.spec_body_types().spec_modified_since(
        handle,
        s.spec_change_observed(),
    ) {
        RB_CHANGE_TYPE
    } else {
        0
    };
    let t4: u32 = if s.spec_colliders().spec_modified_since(
        handle,
        s.spec_change_observed(),
    ) {
        RB_CHANGE_COLLIDERS
    } else {
        0
    };
    assert(s.spec_category_bits(handle) == t0 | t1 | t2 | t3 | t4);
    assert((1u32 | t1 | t2 | t3 | t4) & 1u32 == 1u32) by (bit_vector);
    assert((t0 | 2u32 | t2 | t3 | t4) & 2u32 == 2u32) by (bit_vector);
    assert((t0 | t1 | 4u32 | t3 | t4) & 4u32 == 4u32) by (bit_vector);
    assert((t0 | t1 | t2 | 8u32 | t4) & 8u32 == 8u32) by (bit_vector);
    assert((t0 | t1 | t2 | t3 | 16u32) & 16u32 == 16u32) by (bit_vector);
}

/// Law: a tick with no writes flags nothing new. When no watched field of
/// a body was written since the last observation, the pass computes no
/// category for it, and ORing the empty computation into its changes
/// bitset leaves the bitset exactly as it was.
pub proof fn lemma_quiescent_tick_flags_nothing(s: RigidBodyComponentsSet, handle: Index)
    requires
        s.wf(),
        !s.spec_positions().spec_modified_since(handle, s.spec_change_observed()),
        !s.spec_velocities().spec_modified_since(handle, s.spec_change_observed()),
        !s.spec_forces().spec_modified_since(handle, s.spec_change_observed()),
        !s.spec_body_types().spec_modified_since(handle, s.spec_change_observed()),
        !s.spec_colliders().spec_modified_since(handle, s.spec_change_observed()),
    ensures
        s.spec_category_bits(handle) == 0,
        forall|c: RigidBodyChanges|
            (RigidBodyChanges { bits: c.bits | s.spec_category_bits(handle) }) == c,
{
    assert(0u32 | 0u32 | 0u32 | 0u32 | 0u32 == 0u32) by (bit_vector);
    assert forall|c: RigidBodyChanges|
        (RigidBodyChanges { bits: c.bits | s.spec_category_bits(handle) }) == c by {
        let b = c.bits;
        assert(b | 0u32 == b) by (bit_vector);
    }
}

} // verus!
