//! Run-time registration of component kinds for a `bevy_ecs` world, and the
//! checks that guard a type-erased insert of component data.
//!
//! The world hands out a fresh `ComponentId` for every descriptor it is given.
//! This crate keeps, per world, the `TypeId` of the type each such id was made
//! from, and decides whether a value of some type may be written under an id.

pub mod error;
pub mod insert;
pub mod laws;
pub mod registry;
pub mod table;

pub use error::DynamicComponentError;
pub use insert::{prepare_insert, prepare_insert_of, ErasedInsert, RejectedInsert};
pub use registry::{authorize_insert, authorize_registration, DynamicComponentRegistry};
