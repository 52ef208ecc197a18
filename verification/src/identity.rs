//! Identity mapping between store entities and pipeline handles.
//!
//! An entity identifier and every handle kind share one (index, generation)
//! bit layout, so conversion in either direction is total, allocation-free
//! and reversible.

use vstd::prelude::*;

verus! {

/// An identifier of an object in the component store: a slot index plus a
/// generation that increments on slot reuse, so reused slots never alias.
#[derive(Clone, Copy, PartialEq, Eq, Structural, Debug, Hash)]
pub struct Entity {
    pub id: u32,
    pub generation: u32,
}

/// The pipeline's internal key: the same (index, generation) pair under a
/// different marker. Every handle kind wraps this layout.
#[derive(Clone, Copy, PartialEq, Eq, Structural, Debug, Hash)]
pub struct Index {
    pub id: u32,
    pub generation: u32,
}

/// Handle of a rigid body inside the pipeline.
#[derive(Clone, Copy, PartialEq, Eq, Structural, Debug, Hash)]
pub struct RigidBodyHandle(pub Index);

/// Handle of a collider inside the pipeline.
#[derive(Clone, Copy, PartialEq, Eq, Structural, Debug, Hash)]
pub struct ColliderHandle(pub Index);

/// Handle of a joint inside the pipeline.
#[derive(Clone, Copy, PartialEq, Eq, Structural, Debug, Hash)]
pub struct JointHandle(pub Index);

impl Entity {
    /// The packed 64-bit form: generation in the high half, index in the low.
    pub open spec fn spec_bits(self) -> u64 {
        ((self.generation as u64) << 32) | (self.id as u64)
    }

    pub fn new(id: u32, generation: u32) -> (e: Entity)
        ensures
            e == (Entity { id, generation }),
    {
        Entity { id, generation }
    }

    pub fn id(self) -> (r: u32)
        ensures
            r == self.id,
    {
        self.id
    }

    pub fn generation(self) -> (r: u32)
        ensures
            r == self.generation,
    {
        self.generation
    }

    pub fn to_bits(self) -> (bits: u64)
        ensures
            bits == self.spec_bits(),
    {
        ((self.generation as u64) << 32) | (self.id as u64)
    }

    /// Rebuilds the identifier from its packed 64-bit form.
    pub fn from_bits(bits: u64) -> (e: Entity)
        ensures
            e.id == (bits & 0xffff_ffff) as u32,
            e.generation == (bits >> 32) as u32,
            e.spec_bits() == bits,
    {
        let id: u32 = (bits & 0xffff_ffff) as u32;
        let generation: u32 = (bits >> 32) as u32;
        proof {
            assert((((bits >> 32) as u32 as u64) << 32) | ((bits & 0xffff_ffff) as u32 as u64)
                == bits) by (bit_vector);
        }
        Entity { id, generation }
    }
}

impl Index {
    pub fn from_raw_parts(id: u32, generation: u32) -> (h: Index)
        ensures
            h == (Index { id, generation }),
    {
        Index { id, generation }
    }

    pub fn into_raw_parts(self) -> (r: (u32, u32))
        ensures
            r.0 == self.id,
            r.1 == self.generation,
    {
        (self.id, self.generation)
    }
}

/// Conversion of an entity identifier into a pipeline handle kind. The
/// handle reuses the entity's (index, generation) bits: no second
/// allocator exists.
pub trait IntoHandle<H> {
    spec fn spec_handle(self) -> H;

    fn handle(self) -> (h: H)
        ensures
            h == self.spec_handle(),
    ;
}

/// Conversion of a pipeline handle back into the entity identifier it was
/// made from.
pub trait IntoEntity {
    spec fn spec_entity(self) -> Entity;

    fn entity(self) -> (e: Entity)
        ensures
            e == self.spec_entity(),
    ;
}

impl IntoHandle<Index> for Entity {
    open spec fn spec_handle(self) -> Index {
        Index { id: self.id, generation: self.generation }
    }

    fn handle(self) -> (h: Index) {
        Index::from_raw_parts(self.id(), self.generation())
    }
}

impl IntoEntity for Index {
    open spec fn spec_entity(self) -> Entity {
        Entity { id: self.id, generation: self.generation }
    }

    fn entity(self) -> (e: Entity) {
        let (id, gen) = self.into_raw_parts();
        let bits: u64 = ((gen as u64) << 32) | (id as u64);
        proof {
            assert((((gen as u64) << 32) | (id as u64)) & 0xffff_ffff == id as u64)
                by (bit_vector);
            assert(((((gen as u64) << 32) | (id as u64)) >> 32) == gen as u64)
                by (bit_vector);
        }
        Entity::from_bits(bits)
    }
}

impl IntoHandle<RigidBodyHandle> for Entity {
    open spec fn spec_handle(self) -> RigidBodyHandle {
        RigidBodyHandle(Index { id: self.id, generation: self.generation })
    }

    fn handle(self) -> (h: RigidBodyHandle) {
        RigidBodyHandle(Index::from_raw_parts(self.id(), self.generation()))
    }
}

impl IntoEntity for RigidBodyHandle {
    open spec fn spec_entity(self) -> Entity {
        self.0.spec_entity()
    }

    fn entity(self) -> (e: Entity) {
        self.0.entity()
    }
}

impl IntoHandle<ColliderHandle> for Entity {
    open spec fn spec_handle(self) -> ColliderHandle {
        ColliderHandle(Index { id: self.id, generation: self.generation })
    }

    fn handle(self) -> (h: ColliderHandle) {
        ColliderHandle(Index::from_raw_parts(self.id(), self.generation()))
    }
}

impl IntoEntity for ColliderHandle {
    open spec fn spec_entity(self) -> Entity {
        self.0.spec_entity()
    }

    fn entity(self) -> (e: Entity) {
        self.0.entity()
    }
}

impl IntoHandle<JointHandle> for Entity {
    open spec fn spec_handle(self) -> JointHandle {
        JointHandle(Index { id: self.id, generation: self.generation })
    }

    fn handle(self) -> (h: JointHandle) {
        JointHandle(Index::from_raw_parts(self.id(), self.generation()))
    }
}

impl IntoEntity for JointHandle {
    open spec fn spec_entity(self) -> Entity {
        self.0.spec_entity()
    }

    fn entity(self) -> (e: Entity) {
        self.0.entity()
    }
}

/// Law: converting an entity to any handle kind and back yields the same
/// entity, and converting a handle to its entity and back yields the same
/// handle. Handle and entity identity are bijective.
pub proof fn lemma_handle_entity_round_trip(e: Entity, h: Index)
    ensures
        <Entity as IntoHandle<Index>>::spec_handle(e).spec_entity() == e,
        <Entity as IntoHandle<RigidBodyHandle>>::spec_handle(e).spec_entity() == e,
        <Entity as IntoHandle<ColliderHandle>>::spec_handle(e).spec_entity() == e,
        <Entity as IntoHandle<JointHandle>>::spec_handle(e).spec_entity() == e,
        <Entity as IntoHandle<Index>>::spec_handle(h.spec_entity()) == h,
{
}

/// Law: the packed 64-bit form loses nothing: unpacking it restores the
/// identifier bit for bit.
pub proof fn lemma_bits_round_trip(e: Entity)
    ensures
        (Entity {
            id: (e.spec_bits() & 0xffff_ffff) as u32,
            generation: (e.spec_bits() >> 32) as u32,
        }) == e,
{
    let i = e.id;
    let g = e.generation;
    assert(((((g as u64) << 32) | (i as u64)) & 0xffff_ffff) as u32 == i) by (bit_vector);
    assert(((((g as u64) << 32) | (i as u64)) >> 32) as u32 == g) by (bit_vector);
}

} // verus!
