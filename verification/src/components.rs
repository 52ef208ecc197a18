//! The physics-relevant component types.
//!
//! The bridge never computes with the simulation's real numbers: it only
//! stores and moves them. Real-valued fields are therefore carried as the
//! 32-bit patterns of the numbers they stand for, which keeps every
//! component a plain value the contracts can speak about exactly.

use vstd::prelude::*;
use crate::identity::Index;

verus! {

/// Bit pattern of the real number zero.
pub const REAL_BITS_ZERO: u32 = 0;

/// Bit pattern of the real number one half.
pub const REAL_BITS_HALF: u32 = 0x3f00_0000;

/// Bit pattern of the real number one.
pub const REAL_BITS_ONE: u32 = 0x3f80_0000;

/// A three-component vector, each coordinate a real-number bit pattern.
#[derive(Clone, Copy, PartialEq, Eq, Structural, Debug)]
pub struct Vect {
    pub x: u32,
    pub y: u32,
    pub z: u32,
}

impl Vect {
    pub open spec fn spec_zero() -> Vect {
        Vect { x: REAL_BITS_ZERO, y: REAL_BITS_ZERO, z: REAL_BITS_ZERO }
    }

    pub fn zero() -> (v: Vect)
        ensures
            v == Vect::spec_zero(),
    {
        Vect { x: REAL_BITS_ZERO, y: REAL_BITS_ZERO, z: REAL_BITS_ZERO }
    }
}

/// A rotation, stored as the bit patterns of a unit quaternion.
#[derive(Clone, Copy, PartialEq, Eq, Structural, Debug)]
pub struct Rotation {
    pub i: u32,
    pub j: u32,
    pub k: u32,
    pub w: u32,
}

impl Rotation {
    /// The identity rotation.
    pub open spec fn spec_identity() -> Rotation {
        Rotation { i: REAL_BITS_ZERO, j: REAL_BITS_ZERO, k: REAL_BITS_ZERO, w: REAL_BITS_ONE }
    }

    pub fn identity() -> (r: Rotation)
        ensures
            r == Rotation::spec_identity(),
    {
        Rotation { i: REAL_BITS_ZERO, j: REAL_BITS_ZERO, k: REAL_BITS_ZERO, w: REAL_BITS_ONE }
    }
}

/// A rigid placement: translation plus rotation.
#[derive(Clone, Copy, PartialEq, Eq, Structural, Debug)]
pub struct Isometry {
    pub translation: Vect,
    pub rotation: Rotation,
}

impl Isometry {
    /// The placement at the origin.
    pub open spec fn spec_identity() -> Isometry {
        Isometry { translation: Vect::spec_zero(), rotation: Rotation::spec_identity() }
    }

    pub fn identity() -> (r: Isometry)
        ensures
            r == Isometry::spec_identity(),
    {
        Isometry { translation: Vect::zero(), rotation: Rotation::identity() }
    }
}

/// How the pipeline integrates a body.
#[derive(Clone, Copy, PartialEq, Eq, Structural, Debug)]
pub enum RigidBodyType {
    Dynamic,
    Static,
    KinematicPositionBased,
    KinematicVelocityBased,
}

/// Current and predicted placement of a rigid body.
#[derive(Clone, Copy, PartialEq, Eq, Structural, Debug)]
pub struct RigidBodyPosition {
    pub position: Isometry,
    pub next_position: Isometry,
}

impl RigidBodyPosition {
    pub open spec fn spec_default() -> RigidBodyPosition {
        RigidBodyPosition {
            position: Isometry::spec_identity(),
            next_position: Isometry::spec_identity(),
        }
    }
}

impl Default for RigidBodyPosition {
    fn default() -> (r: RigidBodyPosition)
        ensures
            r == RigidBodyPosition::spec_default(),
    {
        RigidBodyPosition { position: Isometry::identity(), next_position: Isometry::identity() }
    }
}

/// Linear and angular velocity of a rigid body.
#[derive(Clone, Copy, PartialEq, Eq, Structural, Debug)]
pub struct RigidBodyVelocity {
    pub linvel: Vect,
    pub angvel: Vect,
}

impl RigidBodyVelocity {
    pub open spec fn spec_default() -> RigidBodyVelocity {
        RigidBodyVelocity { linvel: Vect::spec_zero(), angvel: Vect::spec_zero() }
    }
}

impl Default for RigidBodyVelocity {
    fn default() -> (r: RigidBodyVelocity)
        ensures
            r == RigidBodyVelocity::spec_default(),
    {
        RigidBodyVelocity { linvel: Vect::zero(), angvel: Vect::zero() }
    }
}

/// Mass properties of a rigid body: inverse mass and local center of mass.
#[derive(Clone, Copy, PartialEq, Eq, Structural, Debug)]
pub struct RigidBodyMassProps {
    pub inv_mass: u32,
    pub local_com: Vect,
}

impl RigidBodyMassProps {
    pub open spec fn spec_default() -> RigidBodyMassProps {
        RigidBodyMassProps { inv_mass: REAL_BITS_ONE, local_com: Vect::spec_zero() }
    }
}

impl Default for RigidBodyMassProps {
    fn default() -> (r: RigidBodyMassProps)
        ensures
            r == RigidBodyMassProps::spec_default(),
    {
        RigidBodyMassProps { inv_mass: REAL_BITS_ONE, local_com: Vect::zero() }
    }
}

/// External force and torque accumulated on a rigid body, plus its
/// gravity scale.
#[derive(Clone, Copy, PartialEq, Eq, Structural, Debug)]
pub struct RigidBodyForces {
    pub force: Vect,
    pub torque: Vect,
    pub gravity_scale: u32,
}

impl RigidBodyForces {
    pub open spec fn spec_default() -> RigidBodyForces {
        RigidBodyForces {
            force: Vect::spec_zero(),
            torque: Vect::spec_zero(),
            gravity_scale: REAL_BITS_ONE,
        }
    }
}

impl Default for RigidBodyForces {
    fn default() -> (r: RigidBodyForces)
        ensures
            r == RigidBodyForces::spec_default(),
    {
        RigidBodyForces { force: Vect::zero(), torque: Vect::zero(), gravity_scale: REAL_BITS_ONE }
    }
}

/// Sleep state of a rigid body: its activation energy and whether the
/// pipeline currently skips it.
#[derive(Clone, Copy, PartialEq, Eq, Structural, Debug)]
pub struct RigidBodyActivation {
    pub energy: u32,
    pub sleeping: bool,
}

impl RigidBodyActivation {
    pub open spec fn spec_default() -> RigidBodyActivation {
        RigidBodyActivation { energy: REAL_BITS_ONE, sleeping: false }
    }
}

impl Default for RigidBodyActivation {
    fn default() -> (r: RigidBodyActivation)
        ensures
            r == RigidBodyActivation::spec_default(),
    {
        RigidBodyActivation { energy: REAL_BITS_ONE, sleeping: false }
    }
}

/// Linear and angular damping factors.
#[derive(Clone, Copy, PartialEq, Eq, Structural, Debug)]
pub struct RigidBodyDamping {
    pub linear_damping: u32,
    pub angular_damping: u32,
}

impl RigidBodyDamping {
    pub open spec fn spec_default() -> RigidBodyDamping {
        RigidBodyDamping { linear_damping: REAL_BITS_ZERO, angular_damping: REAL_BITS_ZERO }
    }
}

impl Default for RigidBodyDamping {
    fn default() -> (r: RigidBodyDamping)
        ensures
            r == RigidBodyDamping::spec_default(),
    {
        RigidBodyDamping { linear_damping: REAL_BITS_ZERO, angular_damping: REAL_BITS_ZERO }
    }
}

/// Dominance group: bodies of higher dominance push lower ones around
/// one-sidedly.
#[derive(Clone, Copy, PartialEq, Eq, Structural, Debug)]
pub struct RigidBodyDominance(pub i8);

impl RigidBodyDominance {
    pub open spec fn spec_default() -> RigidBodyDominance {
        RigidBodyDominance(0)
    }
}

impl Default for RigidBodyDominance {
    fn default() -> (r: RigidBodyDominance)
        ensures
            r == RigidBodyDominance::spec_default(),
    {
        RigidBodyDominance(0)
    }
}

/// Continuous collision detection state of a rigid body.
#[derive(Clone, Copy, PartialEq, Eq, Structural, Debug)]
pub struct RigidBodyCcd {
    pub ccd_enabled: bool,
    pub ccd_active: bool,
}

impl RigidBodyCcd {
    pub open spec fn spec_default() -> RigidBodyCcd {
        RigidBodyCcd { ccd_enabled: false, ccd_active: false }
    }
}

impl Default for RigidBodyCcd {
    fn default() -> (r: RigidBodyCcd)
        ensures
            r == RigidBodyCcd::spec_default(),
    {
        RigidBodyCcd { ccd_enabled: false, ccd_active: false }
    }
}

/// Bookkeeping indices the pipeline keeps per body.
#[derive(Clone, Copy, PartialEq, Eq, Structural, Debug)]
pub struct RigidBodyIds {
    pub active_island_id: u32,
    pub active_set_id: u32,
}

impl RigidBodyIds {
    pub open spec fn spec_default() -> RigidBodyIds {
        RigidBodyIds { active_island_id: 0, active_set_id: 0 }
    }
}

impl Default for RigidBodyIds {
    fn default() -> (r: RigidBodyIds)
        ensures
            r == RigidBodyIds::spec_default(),
    {
        RigidBodyIds { active_island_id: 0, active_set_id: 0 }
    }
}

/// The colliders attached to a rigid body, as an inline list of handle
/// bit forms.
#[derive(Clone, Copy, PartialEq, Eq, Debug)]
pub struct RigidBodyColliders {
    pub len: u32,
    pub slots: [u64; 4],
}

impl RigidBodyColliders {
    pub open spec fn spec_default() -> RigidBodyColliders {
        RigidBodyColliders { len: 0, slots: [0u64, 0u64, 0u64, 0u64] }
    }
}

impl Default for RigidBodyColliders {
    fn default() -> (r: RigidBodyColliders)
        ensures
            r == RigidBodyColliders::spec_default(),
    {
        RigidBodyColliders { len: 0, slots: [0u64, 0u64, 0u64, 0u64] }
    }
}

/// Change category: the body's placement was written.
pub const RB_CHANGE_POSITION: u32 = 1;

/// Change category: the body's velocity was written.
pub const RB_CHANGE_VELOCITY: u32 = 2;

/// Change category: the body's accumulated forces were written.
pub const RB_CHANGE_FORCES: u32 = 4;

/// Change category: the body's type was written.
pub const RB_CHANGE_TYPE: u32 = 8;

/// Change category: the body's attached-collider list was written.
pub const RB_CHANGE_COLLIDERS: u32 = 16;

/// Change category: the body's sleep state was written. Recomputed by the
/// activation pass, at its own cadence.
pub const RB_CHANGE_SLEEP: u32 = 32;

/// Every category the full change-computation pass recomputes.
pub const RB_CHANGE_ALL: u32 = 31;

/// Per-body bitset of the change categories observed since the pipeline
/// last consumed them. Flags accumulate by OR within a tick.
#[derive(Clone, Copy, PartialEq, Eq, Structural, Debug)]
pub struct RigidBodyChanges {
    pub bits: u32,
}

impl RigidBodyChanges {
    pub open spec fn spec_default() -> RigidBodyChanges {
        RigidBodyChanges { bits: 0 }
    }

    pub open spec fn spec_contains(self, category: u32) -> bool {
        self.bits & category == category
    }
}

impl Default for RigidBodyChanges {
    fn default() -> (r: RigidBodyChanges)
        ensures
            r == RigidBodyChanges::spec_default(),
    {
        RigidBodyChanges { bits: 0 }
    }
}

/// Whether a collider is solid or a sensor.
#[derive(Clone, Copy, PartialEq, Eq, Structural, Debug)]
pub enum ColliderType {
    Solid,
    Sensor,
}

/// A collider's geometry: a primitive, or a triangle mesh carried by its
/// point and triangle counts.
#[derive(Clone, Copy, PartialEq, Eq, Structural, Debug)]
pub enum ColliderShape {
    Ball { radius: u32 },
    Cuboid { hx: u32, hy: u32, hz: u32 },
    Trimesh { points: u32, triangles: u32 },
}

impl ColliderShape {
    /// A ball with the given radius bit pattern.
    pub fn ball(radius: u32) -> (s: ColliderShape)
        ensures
            s == (ColliderShape::Ball { radius }),
    {
        ColliderShape::Ball { radius }
    }

    /// A box with the given half-extent bit patterns.
    pub fn cuboid(hx: u32, hy: u32, hz: u32) -> (s: ColliderShape)
        ensures
            s == (ColliderShape::Cuboid { hx, hy, hz }),
    {
        ColliderShape::Cuboid { hx, hy, hz }
    }

    /// A triangle mesh with the given point and triangle counts.
    pub fn trimesh(points: u32, triangles: u32) -> (s: ColliderShape)
        ensures
            s == (ColliderShape::Trimesh { points, triangles }),
    {
        ColliderShape::Trimesh { points, triangles }
    }
}

/// Placement of a collider.
#[derive(Clone, Copy, PartialEq, Eq, Structural, Debug)]
pub struct ColliderPosition(pub Isometry);

impl ColliderPosition {
    pub open spec fn spec_default() -> ColliderPosition {
        ColliderPosition(Isometry::spec_identity())
    }
}

impl Default for ColliderPosition {
    fn default() -> (r: ColliderPosition)
        ensures
            r == ColliderPosition::spec_default(),
    {
        ColliderPosition(Isometry::identity())
    }
}

/// Contact material of a collider.
#[derive(Clone, Copy, PartialEq, Eq, Structural, Debug)]
pub struct ColliderMaterial {
    pub friction: u32,
    pub restitution: u32,
}

impl ColliderMaterial {
    pub open spec fn spec_default() -> ColliderMaterial {
        ColliderMaterial { friction: REAL_BITS_HALF, restitution: REAL_BITS_ZERO }
    }
}

impl Default for ColliderMaterial {
    fn default() -> (r: ColliderMaterial)
        ensures
            r == ColliderMaterial::spec_default(),
    {
        ColliderMaterial { friction: REAL_BITS_HALF, restitution: REAL_BITS_ZERO }
    }
}

/// Hook flag: run the contact-pair filter for this collider's pairs.
pub const ACTIVE_HOOKS_FILTER_CONTACT_PAIRS: u32 = 1;

/// Per-collider flags, among them which hooks are active.
#[derive(Clone, Copy, PartialEq, Eq, Structural, Debug)]
pub struct ColliderFlags {
    pub active_hooks: u32,
}

impl ColliderFlags {
    pub open spec fn spec_default() -> ColliderFlags {
        ColliderFlags { active_hooks: 0 }
    }
}

impl Default for ColliderFlags {
    fn default() -> (r: ColliderFlags)
        ensures
            r == ColliderFlags::spec_default(),
    {
        ColliderFlags { active_hooks: 0 }
    }
}

/// Mass contribution of a collider, as a density bit pattern.
#[derive(Clone, Copy, PartialEq, Eq, Structural, Debug)]
pub struct ColliderMassProps {
    pub density: u32,
}

impl ColliderMassProps {
    pub open spec fn spec_default() -> ColliderMassProps {
        ColliderMassProps { density: REAL_BITS_ONE }
    }
}

impl Default for ColliderMassProps {
    fn default() -> (r: ColliderMassProps)
        ensures
            r == ColliderMassProps::spec_default(),
    {
        ColliderMassProps { density: REAL_BITS_ONE }
    }
}

/// Broad-phase bookkeeping the pipeline keeps per collider.
#[derive(Clone, Copy, PartialEq, Eq, Structural, Debug)]
pub struct ColliderBroadPhaseData {
    pub proxy_index: u32,
}

impl ColliderBroadPhaseData {
    pub open spec fn spec_default() -> ColliderBroadPhaseData {
        ColliderBroadPhaseData { proxy_index: 0 }
    }
}

impl Default for ColliderBroadPhaseData {
    fn default() -> (r: ColliderBroadPhaseData)
        ensures
            r == ColliderBroadPhaseData::spec_default(),
    {
        ColliderBroadPhaseData { proxy_index: 0 }
    }
}

/// Link from a collider to the rigid body it is attached to, with its
/// placement in that body's frame. Optional: free colliders have none.
#[derive(Clone, Copy, PartialEq, Eq, Structural, Debug)]
pub struct ColliderParent {
    pub handle: Index,
    pub pos_wrt_parent: Isometry,
}

/// Change category: the collider's placement was written.
pub const CO_CHANGE_POSITION: u32 = 1;

/// Change category: the collider's flags were written.
pub const CO_CHANGE_FLAGS: u32 = 2;

/// Change category: the collider's shape was written.
pub const CO_CHANGE_SHAPE: u32 = 4;

/// Change category: the collider's type was written.
pub const CO_CHANGE_TYPE: u32 = 8;

/// Change category: the collider's parent link was written.
pub const CO_CHANGE_PARENT: u32 = 16;

/// Every category the collider change-computation pass recomputes.
pub const CO_CHANGE_ALL: u32 = 31;

/// Per-collider bitset of the change categories observed since the
/// pipeline last consumed them.
#[derive(Clone, Copy, PartialEq, Eq, Structural, Debug)]
pub struct ColliderChanges {
    pub bits: u32,
}

impl ColliderChanges {
    pub open spec fn spec_default() -> ColliderChanges {
        ColliderChanges { bits: 0 }
    }

    pub open spec fn spec_contains(self, category: u32) -> bool {
        self.bits & category == category
    }
}

impl Default for ColliderChanges {
    fn default() -> (r: ColliderChanges)
        ensures
            r == ColliderChanges::spec_default(),
    {
        ColliderChanges { bits: 0 }
    }
}

} // verus!
