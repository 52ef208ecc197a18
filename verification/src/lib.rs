//! A verified bridge between an entity-component store and a physics
//! pipeline that addresses component data through typed, handle-keyed
//! access adapters.
//!
//! The bridge keeps no physics state of its own: it models the host store's
//! component data as plain values, converts entity identifiers to the
//! pipeline's handles and back, exposes per-component-type point lookup,
//! iteration and point update, recomputes per-entity change flags from
//! write stamps each tick, and decides per-contact-pair solver
//! participation.

pub mod component_set;
pub mod collider_component_set;
pub mod components;
pub mod identity;
pub mod mesh_collider;
pub mod pair_filter;
pub mod rigid_body_component_set;
pub mod store;
