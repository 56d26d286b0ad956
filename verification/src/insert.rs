//! The hand-over that follows an accepted insert: a value is moved into an
//! `ErasedInsert` only after the registry has confirmed its type, and comes
//! back to the caller untouched where the registry refuses it.

use crate::error::DynamicComponentError;
use crate::registry::{authorize_insert, insert_verdict, registry_entries, DynamicComponentRegistry};
use crate::table::type_tag;
use bevy_ecs::component::ComponentId;
use std::any::TypeId;
use vstd::prelude::*;

verus! {

/// A value cleared for an erased insert. It can only be made by
/// `prepare_insert` and `prepare_insert_of`, so holding one shows that the id
/// was registered with the tag the value was presented under.
#[derive(Debug)]
pub struct ErasedInsert<T> {
    component_id: ComponentId,
    data: T,
}

/// A refused value, handed back together with the reason.
#[derive(Debug)]
pub struct RejectedInsert<T> {
    pub error: DynamicComponentError,
    pub data: T,
}

impl<T> ErasedInsert<T> {
    /// The id under which the value is to be stored.
    pub closed spec fn target(&self) -> ComponentId {
        self.component_id
    }

    /// The value to be stored.
    pub closed spec fn payload(&self) -> T {
        self.data
    }

    /// The id under which the value is to be stored.
    pub fn component_id(&self) -> (id: ComponentId)
        ensures
            id == self.target(),
    {
        self.component_id
    }

    /// Gives up the value, together with its id, to whoever performs the
    /// insert. The clearance is used up by this.
    pub fn into_parts(self) -> (parts: (ComponentId, T))
        ensures
            parts.0 == self.target(),
            parts.1 == self.payload(),
    {
        (self.component_id, self.data)
    }
}

/// How the outcome of preparing an insert relates to what went in: `data` is
/// cleared under `id` where the registry accepts `tag` for `id`, and is handed
/// back unchanged with the registry's reason where it does not.
pub open spec fn insert_outcome<T>(
    outcome: Result<ErasedInsert<T>, RejectedInsert<T>>,
    registry: Option<Map<ComponentId, TypeId>>,
    id: ComponentId,
    tag: TypeId,
    data: T,
) -> bool {
    match insert_verdict(registry, id, tag) {
        Ok(_) => outcome is Ok && outcome->Ok_0.target() == id && outcome->Ok_0.payload() == data,
        Err(error) => outcome == Err::<ErasedInsert<T>, RejectedInsert<T>>(
            (RejectedInsert { error, data }),
        ),
    }
}

/// Checks `tag` against the registry and, only where it is accepted, moves
/// `data` into a clearance for the insert. A refused value is returned as it
/// came; the registry is read and never changed.
pub fn prepare_insert<T>(
    registry: Option<&DynamicComponentRegistry>,
    id: ComponentId,
    tag: TypeId,
    data: T,
) -> (outcome: Result<ErasedInsert<T>, RejectedInsert<T>>)
    ensures
        insert_outcome(outcome, registry_entries(registry), id, tag, data),
{
    match authorize_insert(registry, id, tag) {
        Ok(_) => Ok(ErasedInsert { component_id: id, data }),
        Err(error) => Err(RejectedInsert { error, data }),
    }
}

/// As `prepare_insert`, with the tag taken from the value's own type. Which
/// tag a type has is not known to the proof, so the outcome is stated for the
/// tag that was found, whichever it is.
pub fn prepare_insert_of<T: 'static>(
    registry: Option<&DynamicComponentRegistry>,
    id: ComponentId,
    data: T,
) -> (outcome: Result<ErasedInsert<T>, RejectedInsert<T>>)
    ensures
        exists|tag: TypeId| insert_outcome(outcome, registry_entries(registry), id, tag, data),
{
    let tag = type_tag::<T>();
    let outcome = prepare_insert(registry, id, tag, data);
    assert(insert_outcome(outcome, registry_entries(registry), id, tag, data));
    outcome
}

} // verus!
