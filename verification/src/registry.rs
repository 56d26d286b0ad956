//! The per-world registry: which type each dynamically created component id
//! was made from.

use crate::error::DynamicComponentError;
use crate::table::{no_entries, same_tag, table_entries, type_tag, TagTable};
use bevy_ecs::component::ComponentId;
use std::any::TypeId;
use vstd::prelude::*;

verus! {

/// Stores the `TypeId` for each dynamic component registered in one world.
/// Entries are only ever added: an id keeps the tag it was recorded with.
#[derive(Debug)]
pub struct DynamicComponentRegistry {
    component_types: TagTable,
}

/// What `validate` answers for a registry holding `entries`.
pub open spec fn validate_spec(
    entries: Map<ComponentId, TypeId>,
    id: ComponentId,
    candidate: TypeId,
) -> Result<bool, DynamicComponentError> {
    if entries.dom().contains(id) {
        Ok(entries[id] == candidate)
    } else {
        Err(DynamicComponentError::UnknownSlotKind)
    }
}

/// What an erased insert of a value tagged `tag` under `id` is answered with,
/// given the registry's entries, or `None` where the world has no registry.
pub open spec fn insert_verdict(
    registry: Option<Map<ComponentId, TypeId>>,
    id: ComponentId,
    tag: TypeId,
) -> Result<(), DynamicComponentError> {
    match registry {
        None => Err(DynamicComponentError::UninitializedRegistry),
        Some(entries) => {
            if !entries.dom().contains(id) {
                Err(DynamicComponentError::UnknownSlotKind)
            } else if entries[id] != tag {
                Err(DynamicComponentError::TypeMismatch)
            } else {
                Ok(())
            }
        },
    }
}

/// The entries of the registry that a world holds, or `None` where it holds
/// no registry.
pub open spec fn registry_entries(
    registry: Option<&DynamicComponentRegistry>,
) -> Option<Map<ComponentId, TypeId>> {
    match registry {
        Some(installed) => Some(installed@),
        None => None,
    }
}

impl View for DynamicComponentRegistry {
    type V = Map<ComponentId, TypeId>;

    closed spec fn view(&self) -> Map<ComponentId, TypeId> {
        table_entries(self.component_types)
    }
}

impl DynamicComponentRegistry {
    /// A registry with no entry, as a world holds it right after set-up.
    pub fn new() -> (registry: Self)
        ensures
            registry@ == no_entries(),
    {
        DynamicComponentRegistry { component_types: TagTable::new() }
    }

    /// Whether `id` has been recorded.
    pub fn contains(&self, id: ComponentId) -> (known: bool)
        ensures
            known == self@.dom().contains(id),
    {
        self.component_types.get(id).is_some()
    }

    /// The tag recorded for `id`, if any.
    pub fn registered_type(&self, id: ComponentId) -> (tag: Option<TypeId>)
        ensures
            tag == (if self@.dom().contains(id) {
                Some(self@[id])
            } else {
                None
            }),
    {
        self.component_types.get(id)
    }

    /// Records that the freshly issued `id` was made from the type tagged
    /// `tag`. Every earlier entry stays as it was.
    pub fn register(&mut self, id: ComponentId, tag: TypeId)
        requires
            !old(self)@.dom().contains(id),
        ensures
            final(self)@ == old(self)@.insert(id, tag),
    {
        self.component_types.insert_unique_unchecked(id, tag);
    }

    /// Records the freshly issued `id` with the tag of the type `T`. Which tag
    /// a type has is not known to the proof, so the new entry is stated for
    /// the tag that was found, whichever it is; the tag is returned.
    pub fn register_type<T: 'static>(&mut self, id: ComponentId) -> (tag: TypeId)
        requires
            !old(self)@.dom().contains(id),
        ensures
            final(self)@ == old(self)@.insert(id, tag),
    {
        let tag = type_tag::<T>();
        self.register(id, tag);
        tag
    }

    /// Whether `id` was recorded with `candidate`. An id that was never
    /// recorded is an error, not a `false`.
    pub fn validate(&self, id: ComponentId, candidate: TypeId) -> (verdict: Result<bool, DynamicComponentError>)
        ensures
            verdict == validate_spec(self@, id, candidate),
    {
        match self.component_types.get(id) {
            Some(stored) => Ok(same_tag(stored, candidate)),
            None => Err(DynamicComponentError::UnknownSlotKind),
        }
    }

    /// Decides an erased insert of a value tagged `tag` under `id`: accepted
    /// only where `id` was recorded with that very tag.
    pub fn check_insert(&self, id: ComponentId, tag: TypeId) -> (verdict: Result<(), DynamicComponentError>)
        ensures
            verdict == insert_verdict(Some(self@), id, tag),
    {
        match self.validate(id, tag) {
            Ok(true) => Ok(()),
            Ok(false) => Err(DynamicComponentError::TypeMismatch),
            Err(e) => Err(e),
        }
    }
}

impl Default for DynamicComponentRegistry {
    fn default() -> (registry: Self)
        ensures
            registry@ == no_entries(),
    {
        DynamicComponentRegistry::new()
    }
}

/// The first step of a registration: a world without a registry cannot
/// register anything.
pub fn authorize_registration(
    registry: Option<&DynamicComponentRegistry>,
) -> (verdict: Result<(), DynamicComponentError>)
    ensures
        verdict == (match registry {
            Some(_) => Ok::<(), DynamicComponentError>(()),
            None => Err(DynamicComponentError::UninitializedRegistry),
        }),
{
    match registry {
        Some(_) => Ok(()),
        None => Err(DynamicComponentError::UninitializedRegistry),
    }
}

/// The decision that precedes an erased insert into a world whose registry, if
/// it has one, is `registry`.
pub fn authorize_insert(
    registry: Option<&DynamicComponentRegistry>,
    id: ComponentId,
    tag: TypeId,
) -> (verdict: Result<(), DynamicComponentError>)
    ensures
        verdict == insert_verdict(registry_entries(registry), id, tag),
{
    match registry {
        Some(r) => r.check_insert(id, tag),
        None => Err(DynamicComponentError::UninitializedRegistry),
    }
}

} // verus!
