use bevy_dyn_component::{
    prepare_insert, prepare_insert_of, DynamicComponentError, DynamicComponentRegistry,
};
use bevy_ecs::component::ComponentId;
use std::any::TypeId;
use std::cell::Cell;
use std::rc::Rc;

struct Marker;

struct Label(String);

struct Other;

struct Counted(Rc<Cell<u32>>);

impl Drop for Counted {
    fn drop(&mut self) {
        self.0.set(self.0.get() + 1);
    }
}

#[test]
fn zero_sized_marker_is_cleared() {
    let mut registry = DynamicComponentRegistry::new();
    let id0 = ComponentId::new(0);
    registry.register_type::<Marker>(id0);
    let outcome = prepare_insert_of(Some(&registry), id0, Marker);
    match outcome {
        Ok(cleared) => {
            assert_eq!(cleared.component_id(), id0);
            let (id, _marker) = cleared.into_parts();
            assert_eq!(id, id0);
        }
        Err(_) => panic!("a registered marker was refused"),
    }
}

#[test]
fn unrelated_type_is_a_mismatch() {
    let mut registry = DynamicComponentRegistry::new();
    let id1 = ComponentId::new(1);
    registry.register_type::<Label>(id1);
    match prepare_insert_of(Some(&registry), id1, Label(String::from("x"))) {
        Ok(cleared) => {
            let (id, label) = cleared.into_parts();
            assert_eq!(id, id1);
            assert_eq!(label.0, "x");
        }
        Err(_) => panic!("a registered label was refused"),
    }
    match prepare_insert_of(Some(&registry), id1, Other) {
        Ok(_) => panic!("an unrelated type was cleared"),
        Err(rejected) => assert_eq!(rejected.error, DynamicComponentError::TypeMismatch),
    }
    assert_eq!(registry.registered_type(id1), Some(TypeId::of::<Label>()));
    assert_eq!(registry.validate(id1, TypeId::of::<Label>()), Ok(true));
}

#[test]
fn unknown_id_hands_the_value_back() {
    let registry = DynamicComponentRegistry::new();
    match prepare_insert_of(Some(&registry), ComponentId::new(12), Label(String::from("kept"))) {
        Ok(_) => panic!("an unknown id was cleared"),
        Err(rejected) => {
            assert_eq!(rejected.error, DynamicComponentError::UnknownSlotKind);
            assert_eq!(rejected.data.0, "kept");
        }
    }
}

#[test]
fn missing_registry_hands_the_value_back() {
    match prepare_insert_of(None, ComponentId::new(0), Label(String::from("kept"))) {
        Ok(_) => panic!("cleared without a registry"),
        Err(rejected) => {
            assert_eq!(rejected.error, DynamicComponentError::UninitializedRegistry);
            assert_eq!(rejected.data.0, "kept");
        }
    }
}

#[test]
fn explicit_tag_decides() {
    let mut registry = DynamicComponentRegistry::new();
    let id = ComponentId::new(3);
    registry.register(id, TypeId::of::<Label>());
    match prepare_insert(Some(&registry), id, TypeId::of::<Label>(), 5u32) {
        Ok(cleared) => assert_eq!(cleared.into_parts(), (id, 5u32)),
        Err(_) => panic!("the recorded tag was refused"),
    }
    match prepare_insert(Some(&registry), id, TypeId::of::<Other>(), 5u32) {
        Ok(_) => panic!("another tag was cleared"),
        Err(rejected) => {
            assert_eq!(rejected.error, DynamicComponentError::TypeMismatch);
            assert_eq!(rejected.data, 5u32);
        }
    }
}

#[test]
fn refused_value_is_dropped_once_by_the_caller() {
    let drops = Rc::new(Cell::new(0u32));
    let registry = DynamicComponentRegistry::new();
    let outcome = prepare_insert_of(Some(&registry), ComponentId::new(0), Counted(drops.clone()));
    assert_eq!(drops.get(), 0);
    match outcome {
        Ok(_) => panic!("an unknown id was cleared"),
        Err(rejected) => {
            assert_eq!(drops.get(), 0);
            drop(rejected.data);
        }
    }
    assert_eq!(drops.get(), 1);
}

#[test]
fn cleared_value_is_not_dropped_by_the_hand_over() {
    let drops = Rc::new(Cell::new(0u32));
    let mut registry = DynamicComponentRegistry::new();
    let id = ComponentId::new(0);
    registry.register_type::<Counted>(id);
    let outcome = prepare_insert_of(Some(&registry), id, Counted(drops.clone()));
    assert_eq!(drops.get(), 0);
    match outcome {
        Ok(cleared) => {
            let (_, value) = cleared.into_parts();
            assert_eq!(drops.get(), 0);
            drop(value);
        }
        Err(_) => panic!("a registered value was refused"),
    }
    assert_eq!(drops.get(), 1);
}
