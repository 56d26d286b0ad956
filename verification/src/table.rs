//! The hash table behind the registry, and the two foreign value types it
//! stores. Nothing in this file is proved: each contract records what the
//! called code is documented to do.

use bevy_ecs::component::ComponentId;
use std::any::TypeId;
use vstd::prelude::*;

verus! {

/// `bevy_ecs::component::ComponentId`: the handle a world issues for one
/// component kind. Opaque here; only carried, stored and looked up. Its `==`
/// and its hash are derived from the one index it wraps, so two ids are the
/// same key exactly when they are the same id.
#[verifier::external_type_specification]
#[verifier::external_body]
pub struct ExComponentId(ComponentId);

/// `std::any::TypeId`: the token that identifies a `'static` type at run time.
/// Opaque here; only carried, stored and compared.
#[verifier::external_type_specification]
#[verifier::external_body]
pub struct ExTypeId(TypeId);

/// A `bevy_utils::HashMap<ComponentId, TypeId>`. The map type has an allocator
/// parameter bounded by a trait that cannot be named from here, so it is held
/// behind this struct and reached only through the methods below.
#[verifier::external_body]
#[derive(Debug)]
pub struct TagTable {
    entries: bevy_utils::HashMap<ComponentId, TypeId>,
}

/// The key/value pairs that a table holds.
pub uninterp spec fn table_entries(table: TagTable) -> Map<ComponentId, TypeId>;

/// The contents of a table that holds nothing.
pub open spec fn no_entries() -> Map<ComponentId, TypeId> {
    Map::empty()
}

impl TagTable {
    /// `bevy_utils::HashMap::default()`: a new map holds no entry.
    #[verifier::external_body]
    pub(crate) fn new() -> (created: TagTable)
        ensures
            table_entries(created) == no_entries(),
    {
        TagTable { entries: bevy_utils::HashMap::default() }
    }

    /// `hashbrown::HashMap::get`: the value stored under `id`, or `None` where
    /// the map has no such key.
    #[verifier::external_body]
    pub(crate) fn get(&self, id: ComponentId) -> (found: Option<TypeId>)
        ensures
            found == (if table_entries(*self).dom().contains(id) {
                Some(table_entries(*self)[id])
            } else {
                None
            }),
    {
        self.entries.get(&id).copied()
    }

    /// `hashbrown::HashMap::insert_unique_unchecked`: adds the pair without
    /// looking for the key first. Its documentation leaves the outcome open
    /// when the key is already present, so that case is excluded; otherwise
    /// the map gains exactly this pair.
    #[verifier::external_body]
    pub(crate) fn insert_unique_unchecked(&mut self, id: ComponentId, tag: TypeId)
        requires
            !table_entries(*old(self)).dom().contains(id),
        ensures
            table_entries(*final(self)) == table_entries(*old(self)).insert(id, tag),
    {
        self.entries.insert_unique_unchecked(id, tag);
    }
}

/// `TypeId::of`: the tag of the type `T`. Nothing is claimed of its value.
#[verifier::external_body]
pub(crate) fn type_tag<T: 'static>() -> (tag: TypeId) {
    TypeId::of::<T>()
}

/// `TypeId`'s `==`: two tags compare equal exactly when they are the same tag.
#[verifier::external_body]
pub(crate) fn same_tag(a: TypeId, b: TypeId) -> (same: bool)
    ensures
        same == (a == b),
{
    a == b
}

} // verus!
