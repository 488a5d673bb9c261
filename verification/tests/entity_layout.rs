use lib::storage::archetype::{EntityLayout, LayoutError};
use lib::storage::component::{contains_type, ComponentConstructor, ComponentTypeId};

struct Pos(u32);
struct Rot(u32);
struct Vel(u32);

#[test]
fn new_layout_is_empty() {
    let layout = EntityLayout::new();
    assert!(layout.component_types().is_empty());
    assert!(layout.component_constructors().is_empty());
    assert!(!layout.has_component::<Pos>());
}

#[test]
fn registered_components_are_found_in_order() {
    let mut layout = EntityLayout::new();
    assert_eq!(layout.register_component::<Pos>(), Ok(()));
    assert_eq!(layout.register_component::<Rot>(), Ok(()));
    assert!(layout.has_component::<Pos>());
    assert!(layout.has_component::<Rot>());
    assert!(!layout.has_component::<Vel>());
    assert_eq!(
        layout.component_types(),
        &[ComponentTypeId::of::<Pos>(), ComponentTypeId::of::<Rot>()]
    );
    let constructors = layout.component_constructors();
    assert_eq!(constructors.len(), 2);
    assert_eq!(constructors[0].component(), ComponentTypeId::of::<Pos>());
    assert_eq!(constructors[1].component(), ComponentTypeId::of::<Rot>());
}

#[test]
fn registering_a_component_twice_is_refused() {
    let mut layout = EntityLayout::new();
    assert_eq!(layout.register_component::<Pos>(), Ok(()));
    assert_eq!(
        layout.register_component::<Pos>(),
        Err(LayoutError::DuplicateComponent(ComponentTypeId::of::<Pos>()))
    );
    assert_eq!(layout.component_types(), &[ComponentTypeId::of::<Pos>()]);
    assert_eq!(layout.component_constructors().len(), 1);
}

#[test]
fn raw_registration_keeps_the_given_constructor() {
    let mut layout = EntityLayout::new();
    let vel = ComponentTypeId::of::<Vel>();
    layout.register_component_raw(vel, ComponentConstructor::for_component(vel));
    assert!(layout.has_component_by_id(vel));
    assert!(layout.has_component::<Vel>());
    assert!(!layout.has_component_by_id(ComponentTypeId::of::<Pos>()));
    assert_eq!(layout.component_constructors()[0].component(), vel);
    assert_eq!(ComponentConstructor::of::<Vel>().component(), vel);
}

#[test]
fn cloned_layout_has_the_same_components() {
    let mut layout = EntityLayout::default();
    layout.register_component::<Pos>().unwrap();
    layout.register_component::<Vel>().unwrap();
    let copy = layout.clone();
    assert_eq!(copy.component_types(), layout.component_types());
    assert_eq!(copy.component_constructors().len(), 2);
}

#[test]
fn component_type_ids_tell_types_apart() {
    assert_eq!(ComponentTypeId::of::<Pos>(), ComponentTypeId::of::<Pos>());
    assert_ne!(ComponentTypeId::of::<Pos>(), ComponentTypeId::of::<Rot>());
    let types = [ComponentTypeId::of::<Pos>(), ComponentTypeId::of::<Rot>()];
    assert!(contains_type(&types, &ComponentTypeId::of::<Rot>()));
    assert!(!contains_type(&types, &ComponentTypeId::of::<Vel>()));
    assert!(!contains_type(&[], &ComponentTypeId::of::<Vel>()));
    let _ = (Pos(0).0, Rot(0).0, Vel(0).0);
}
