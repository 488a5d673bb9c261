use std::any::TypeId;
use vstd::prelude::*;

verus! {

#[verifier::external_type_specification]
#[verifier::external_body]
pub struct ExTypeId(TypeId);

/// Compares two `TypeId`s with `std::any::TypeId`'s `==`.
/// Trusted: `TypeId` is a unique identifier of a type, so its `==` holds
/// exactly when both identifiers are the same value.
#[verifier::external_body]
fn type_id_eq(a: &TypeId, b: &TypeId) -> (equal: bool)
    ensures
        equal == (*a == *b),
{
    *a == *b
}

/// Calls `std::any::TypeId::of::<T>()`.
/// Trusted, with nothing claimed of the result: it identifies the type `T`.
#[verifier::external_body]
fn type_id_of<T: 'static>() -> TypeId {
    TypeId::of::<T>()
}

/// The identity of a component type.
#[derive(Clone, Copy, Debug, Hash)]
pub struct ComponentTypeId {
    type_id: TypeId,
}

impl PartialEq for ComponentTypeId {
    fn eq(&self, other: &Self) -> (equal: bool) {
        type_id_eq(&self.type_id, &other.type_id)
    }
}

impl vstd::std_specs::cmp::PartialEqSpecImpl for ComponentTypeId {
    open spec fn obeys_eq_spec() -> bool {
        true
    }

    open spec fn eq_spec(&self, other: &Self) -> bool {
        *self == *other
    }
}

impl Eq for ComponentTypeId {}

impl ComponentTypeId {
    /// Whether `id` is an identifier that `std::any::TypeId::of::<T>()` gives,
    /// that is, the identifier of type `T`.
    pub closed spec fn identifies<T: 'static>(id: ComponentTypeId) -> bool {
        call_ensures(type_id_of::<T>, (), id.type_id)
    }

    /// The identifier of component type `T`.
    pub fn of<T: 'static>() -> (id: ComponentTypeId)
        ensures
            Self::identifies::<T>(id),
    {
        ComponentTypeId { type_id: (type_id_of::<T>)() }
    }
}


/// Whether `id` is one of `types`.
pub fn contains_type(types: &[ComponentTypeId], id: &ComponentTypeId) -> (found: bool)
    ensures
        found == types@.contains(*id),
{
    let mut i: usize = 0;
    while i < types.len()
        invariant
            i <= types@.len(),
            forall|j: int| 0 <= j < i ==> types@[j] != *id,
        decreases types@.len() - i,
    {
        if types[i] == *id {
            return true;
        }
        i = i + 1;
    }
    false
}

/// A type that can be stored as a component of an entity.
pub trait Component: 'static + Sized + Send + Sync {}

impl<T: 'static + Sized + Send + Sync> Component for T {}

/// The constructor of an empty storage for one component type: it builds the
/// storage of the component type that it was made for.
#[derive(Clone, Copy, Debug)]
pub struct ComponentConstructor {
    component: ComponentTypeId,
}

impl ComponentConstructor {
    /// The component type whose storage this constructor builds.
    pub closed spec fn builds(&self) -> ComponentTypeId {
        self.component
    }

    /// The constructor of the storage of `component`.
    pub fn for_component(component: ComponentTypeId) -> (constructor: ComponentConstructor)
        ensures
            constructor.builds() == component,
    {
        ComponentConstructor { component }
    }

    /// The constructor of the storage of component type `T`.
    pub fn of<T: Component>() -> (constructor: ComponentConstructor)
        ensures
            ComponentTypeId::identifies::<T>(constructor.builds()),
    {
        ComponentConstructor { component: ComponentTypeId::of::<T>() }
    }

    /// The component type whose storage this constructor builds.
    pub fn component(&self) -> (component: ComponentTypeId)
        ensures
            component == self.builds(),
    {
        self.component
    }
}

} // verus!
