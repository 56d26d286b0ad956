//! Laws of the registry that relate several of its operations. They are
//! stated over the registry's view, the map from id to tag, and over a
//! history: the pairs that were registered, oldest first.

use crate::error::DynamicComponentError;
use crate::registry::{insert_verdict, validate_spec};
use bevy_ecs::component::ComponentId;
use std::any::TypeId;
use vstd::prelude::*;

verus! {

/// The entries of a registry that started empty and then recorded the pairs
/// of `history` in order.
pub open spec fn entries_after(history: Seq<(ComponentId, TypeId)>) -> Map<ComponentId, TypeId>
    decreases history.len(),
{
    if history.len() == 0 {
        Map::empty()
    } else {
        entries_after(history.drop_last()).insert(history.last().0, history.last().1)
    }
}

/// Every registration of `history` met the demand of `register`: its id was
/// not yet recorded at the time, as the world promises of each id it issues.
pub open spec fn each_id_fresh(history: Seq<(ComponentId, TypeId)>) -> bool
    decreases history.len(),
{
    history.len() == 0 || (each_id_fresh(history.drop_last()) && !entries_after(
        history.drop_last(),
    ).dom().contains(history.last().0))
}

/// The ids recorded by a history are exactly the ids of its pairs.
pub proof fn lemma_recorded_ids(history: Seq<(ComponentId, TypeId)>, id: ComponentId)
    ensures
        entries_after(history).dom().contains(id) <==> exists|i: int|
            0 <= i < history.len() && (#[trigger] history[i]).0 == id,
    decreases history.len(),
{
    if history.len() > 0 {
        let earlier = history.drop_last();
        lemma_recorded_ids(earlier, id);
        if entries_after(history).dom().contains(id) {
            if history.last().0 == id {
                assert(history[history.len() - 1].0 == id);
            } else {
                let i = choose|i: int| 0 <= i < earlier.len() && (#[trigger] earlier[i]).0 == id;
                assert(history[i].0 == id);
            }
        }
        if exists|i: int| 0 <= i < history.len() && (#[trigger] history[i]).0 == id {
            let i = choose|i: int| 0 <= i < history.len() && (#[trigger] history[i]).0 == id;
            if i < history.len() - 1 {
                assert(earlier[i].0 == id);
            }
        }
    }
}

/// One more registration extends the history by one pair: the step that
/// `register` takes on the view is the step of `entries_after`, and a fresh
/// id keeps the history well formed.
pub proof fn lemma_register_extends(
    history: Seq<(ComponentId, TypeId)>,
    id: ComponentId,
    tag: TypeId,
)
    requires
        each_id_fresh(history),
        !entries_after(history).dom().contains(id),
    ensures
        entries_after(history.push((id, tag))) == entries_after(history).insert(id, tag),
        each_id_fresh(history.push((id, tag))),
{
    let longer = history.push((id, tag));
    assert(longer.drop_last() =~= history);
    assert(longer.last() == (id, tag));
}

/// Whatever was registered, of the same type or of different
/// types, no two registrations share an id.
pub proof fn lemma_ids_pairwise_distinct(history: Seq<(ComponentId, TypeId)>, i: int, j: int)
    requires
        each_id_fresh(history),
        0 <= i < j < history.len(),
    ensures
        history[i].0 != history[j].0,
    decreases history.len(),
{
    let earlier = history.drop_last();
    if j == history.len() - 1 {
        lemma_recorded_ids(earlier, history[j].0);
        if history[i].0 == history[j].0 {
            assert(earlier[i].0 == history[j].0);
        }
    } else {
        lemma_ids_pairwise_distinct(earlier, i, j);
    }
}

/// An id keeps the tag it was registered with, however many
/// registrations follow. Validation of the id against that tag answers
/// `true`, against any other tag `false`, and an insert under the id is
/// accepted for that tag alone.
pub proof fn lemma_tag_stable(history: Seq<(ComponentId, TypeId)>, i: int, other: TypeId)
    requires
        each_id_fresh(history),
        0 <= i < history.len(),
    ensures
        entries_after(history).dom().contains(history[i].0),
        entries_after(history)[history[i].0] == history[i].1,
        validate_spec(entries_after(history), history[i].0, history[i].1) == Ok::<
            bool,
            DynamicComponentError,
        >(true),
        other != history[i].1 ==> validate_spec(entries_after(history), history[i].0, other)
            == Ok::<bool, DynamicComponentError>(false),
        insert_verdict(Some(entries_after(history)), history[i].0, other) == (if other
            == history[i].1 {
            Ok::<(), DynamicComponentError>(())
        } else {
            Err(DynamicComponentError::TypeMismatch)
        }),
    decreases history.len(),
{
    let earlier = history.drop_last();
    if i < history.len() - 1 {
        lemma_tag_stable(earlier, i, other);
        lemma_ids_pairwise_distinct(history, i, history.len() - 1);
        assert(earlier[i] == history[i]);
    }
}

/// Registering one type twice makes two slot kinds: the two ids differ, both
/// are recorded with the type's tag, and neither entry stands for the other.
pub proof fn lemma_same_type_twice(
    before: Map<ComponentId, TypeId>,
    first: ComponentId,
    second: ComponentId,
    tag: TypeId,
)
    requires
        !before.dom().contains(first),
        !before.insert(first, tag).dom().contains(second),
    ensures
        first != second,
        validate_spec(before.insert(first, tag).insert(second, tag), first, tag) == Ok::<
            bool,
            DynamicComponentError,
        >(true),
        validate_spec(before.insert(first, tag).insert(second, tag), second, tag) == Ok::<
            bool,
            DynamicComponentError,
        >(true),
        before.insert(first, tag).insert(second, tag).remove(second) == before.insert(first, tag),
        before.insert(first, tag).insert(second, tag).remove(first) == before.insert(second, tag),
{
    let both = before.insert(first, tag).insert(second, tag);
    assert(both.remove(second) =~= before.insert(first, tag));
    assert(both.remove(first) =~= before.insert(second, tag));
}

/// A registration never disturbs what was recorded before it: every id known
/// beforehand validates afterwards exactly as it did.
pub proof fn lemma_register_keeps_earlier(
    before: Map<ComponentId, TypeId>,
    id: ComponentId,
    tag: TypeId,
    earlier: ComponentId,
    candidate: TypeId,
)
    requires
        !before.dom().contains(id),
        before.dom().contains(earlier),
    ensures
        validate_spec(before.insert(id, tag), earlier, candidate) == validate_spec(
            before,
            earlier,
            candidate,
        ),
        insert_verdict(Some(before.insert(id, tag)), earlier, candidate) == insert_verdict(
            Some(before),
            earlier,
            candidate,
        ),
{
}

} // verus!
