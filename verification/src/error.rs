//! The ways in which a use of the registry can be refused.

use vstd::prelude::*;

verus! {

/// Why a registration or an erased insert was refused. Each variant marks a
/// defect in the calling code; none is worth retrying.
#[derive(Clone, Copy, Debug, PartialEq, Eq, Structural)]
pub enum DynamicComponentError {
    /// The world has no registry installed.
    UninitializedRegistry,
    /// The id was never recorded in this world's registry.
    UnknownSlotKind,
    /// The id was recorded for another type than the one supplied.
    TypeMismatch,
}

/// The text that goes with each refusal.
pub open spec fn message_text(error: DynamicComponentError) -> Seq<char> {
    match error {
        DynamicComponentError::UninitializedRegistry =>
            "`DynamicComponentRegistry` was not in the world! Make sure to add `dynamic_components_plugin` before using this API."@,
        DynamicComponentError::UnknownSlotKind =>
            "Can't insert component with invalid id! The id must have been returned from `world.dynamic_component()` for this `World`."@,
        DynamicComponentError::TypeMismatch =>
            "Incorrect type arguments supplied to `insert_dynamic`! `T` must be the same type `component_id` was created with."@,
    }
}

impl DynamicComponentError {
    /// What to tell the programmer whose call was refused.
    pub fn message(&self) -> (text: &'static str)
        ensures
            text@ == message_text(*self),
    {
        match self {
            DynamicComponentError::UninitializedRegistry =>
                "`DynamicComponentRegistry` was not in the world! Make sure to add `dynamic_components_plugin` before using this API.",
            DynamicComponentError::UnknownSlotKind =>
                "Can't insert component with invalid id! The id must have been returned from `world.dynamic_component()` for this `World`.",
            DynamicComponentError::TypeMismatch =>
                "Incorrect type arguments supplied to `insert_dynamic`! `T` must be the same type `component_id` was created with.",
        }
    }
}

} // verus!
