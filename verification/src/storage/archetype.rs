use std::sync::Arc;
use vstd::prelude::*;

use super::component::{contains_type, Component, ComponentConstructor, ComponentTypeId};
use crate::entity::Entity;

verus! {

/// The position of an archetype among the archetypes of a world.
#[derive(Debug, Clone, Copy, PartialEq, Eq, Hash, Structural)]
pub struct ArchetypeIndex(pub u32);

/// A group of entities that all carry the same component types.
#[derive(Debug)]
pub struct Archetype {
    index: ArchetypeIndex,
    entities: Vec<Entity>,
    layout: Arc<EntityLayout>,
}

impl Archetype {
    /// The archetype's position among the archetypes of its world.
    pub closed spec fn spec_index(&self) -> ArchetypeIndex {
        self.index
    }

    /// The entities of the archetype, in order.
    pub closed spec fn spec_entities(&self) -> Seq<Entity> {
        self.entities@
    }

    /// The layout that all entities of the archetype share.
    pub closed spec fn spec_layout(&self) -> EntityLayout {
        *self.layout
    }

    /// An archetype at `index`, with no entities yet, whose entities will have `layout`.
    pub fn new(index: ArchetypeIndex, layout: EntityLayout) -> (archetype: Self)
        ensures
            archetype.spec_index() == index,
            archetype.spec_entities() == Seq::<Entity>::empty(),
            archetype.spec_layout() == layout,
    {
        Self { index, layout: Arc::new(layout), entities: Vec::new() }
    }

    /// The archetype's position among the archetypes of its world.
    pub fn index(&self) -> (index: ArchetypeIndex)
        ensures
            index == self.spec_index(),
    {
        self.index
    }

    /// The layout that all entities of the archetype share.
    pub fn layout(&self) -> (layout: &Arc<EntityLayout>)
        ensures
            **layout == self.spec_layout(),
    {
        &self.layout
    }

    /// The entities of the archetype, in order.
    pub fn entities(&self) -> (entities: &[Entity])
        ensures
            entities@ == self.spec_entities(),
    {
        self.entities.as_slice()
    }

    /// The entity list of the archetype, to change in place. Whatever the
    /// caller leaves in it is the archetype's entity list afterwards; the
    /// index and the layout stay as they were.
    pub fn entities_mut(&mut self) -> (entities: &mut Vec<Entity>)
        ensures
            entities@ == old(self).spec_entities(),
            final(self).spec_entities() == final(entities)@,
            final(self).spec_index() == old(self).spec_index(),
            final(self).spec_layout() == old(self).spec_layout(),
    {
        &mut self.entities
    }
}

impl ArchetypeIndex {
    /// The archetype at this index in `archetypes`, which must be in range.
    pub fn index(self, archetypes: &[Archetype]) -> (archetype: &Archetype)
        requires
            (self.0 as int) < archetypes@.len(),
        ensures
            *archetype == archetypes@[self.0 as int],
    {
        &archetypes[self.0 as usize]
    }

    /// The archetype at this index in `archetypes`, which must be in range,
    /// to change in place; the other archetypes stay as they were.
    pub fn index_mut(self, archetypes: &mut [Archetype]) -> (archetype: &mut Archetype)
        requires
            (self.0 as int) < old(archetypes)@.len(),
        ensures
            *archetype == old(archetypes)@[self.0 as int],
            final(archetypes)@ == old(archetypes)@.update(self.0 as int, *final(archetype)),
    {
        &mut archetypes[self.0 as usize]
    }
}

/// The component types that the entities of an archetype carry, each with the
/// constructor of its storage. No component type occurs twice.
#[derive(Debug)]
pub struct EntityLayout {
    components: Vec<ComponentTypeId>,
    component_constructors: Vec<ComponentConstructor>,
}

impl View for EntityLayout {
    type V = Seq<ComponentTypeId>;

    /// The registered component types, in registration order.
    closed spec fn view(&self) -> Seq<ComponentTypeId> {
        self.components@
    }
}

impl Clone for EntityLayout {
    /// A copy of the layout, with the same component types and constructors.
    fn clone(&self) -> (copy: Self)
        ensures
            copy@ == self@,
            copy.constructors() == self.constructors(),
    {
        proof {
            use_type_invariant(self);
        }
        let components = self.components.clone();
        let component_constructors = self.component_constructors.clone();
        assert(components@ =~= self.components@);
        assert(component_constructors@ =~= self.component_constructors@);
        EntityLayout { components, component_constructors }
    }
}

impl Default for EntityLayout {
    /// An empty layout.
    fn default() -> (layout: Self)
        ensures
            layout@ == Seq::<ComponentTypeId>::empty(),
            layout.constructors() == Seq::<ComponentConstructor>::empty(),
    {
        EntityLayout { components: Vec::new(), component_constructors: Vec::new() }
    }
}

/// No element of `s` occurs twice in it.
pub open spec fn no_duplicates(s: Seq<ComponentTypeId>) -> bool {
    forall|i: int, j: int| 0 <= i < s.len() && 0 <= j < s.len() && i != j ==> s[i] != s[j]
}

/// Why a component type could not be added to a layout.
#[derive(Debug, Clone, Copy, PartialEq, Eq)]
pub enum LayoutError {
    /// The component type is already part of the layout.
    DuplicateComponent(ComponentTypeId),
}

impl EntityLayout {
    #[verifier::type_invariant]
    closed spec fn well_formed(self) -> bool {
        &&& no_duplicates(self.components@)
        &&& self.components@.len() == self.component_constructors@.len()
        &&& forall|i: int|
            0 <= i < self.components@.len() ==> #[trigger] self.component_constructors@[i].builds()
                == self.components@[i]
    }

    /// The storage constructors, in registration order; the `i`-th belongs to
    /// the `i`-th component type.
    pub closed spec fn constructors(&self) -> Seq<ComponentConstructor> {
        self.component_constructors@
    }

    /// An empty layout.
    pub fn new() -> (layout: Self)
        ensures
            layout@ == Seq::<ComponentTypeId>::empty(),
            layout.constructors() == Seq::<ComponentConstructor>::empty(),
    {
        Self::default()
    }

    /// Adds component type `T` to the layout. A type that is already part of
    /// the layout is refused, and the layout is left as it was.
    pub fn register_component<T: Component>(&mut self) -> (result: Result<(), LayoutError>)
        ensures
            match result {
                Ok(()) => exists|id: ComponentTypeId|
                    {
                        &&& ComponentTypeId::identifies::<T>(id)
                        &&& !old(self)@.contains(id)
                        &&& final(self)@ == old(self)@.push(id)
                        &&& final(self).constructors() == old(self).constructors().push(
                            final(self).constructors().last(),
                        )
                        &&& final(self).constructors().last().builds() == id
                    },
                Err(LayoutError::DuplicateComponent(id)) => {
                    &&& ComponentTypeId::identifies::<T>(id)
                    &&& old(self)@.contains(id)
                    &&& *final(self) == *old(self)
                },
            },
    {
        let type_id = ComponentTypeId::of::<T>();
        if self.has_component_by_id(type_id) {
            Err(LayoutError::DuplicateComponent(type_id))
        } else {
            self.register_component_raw(type_id, ComponentConstructor::for_component(type_id));
            Ok(())
        }
    }

    /// Adds a component type together with the constructor of its storage.
    /// The type must not be part of the layout yet, and `f` must build the
    /// storage of that type.
    pub fn register_component_raw(&mut self, type_id: ComponentTypeId, f: ComponentConstructor)
        requires
            !old(self)@.contains(type_id),
            f.builds() == type_id,
        ensures
            final(self)@ == old(self)@.push(type_id),
            final(self).constructors() == old(self).constructors().push(f),
    {
        proof {
            use_type_invariant(&*self);
        }
        let mut layout = EntityLayout::default();
        std::mem::swap(&mut layout, self);
        let EntityLayout { mut components, mut component_constructors } = layout;
        components.push(type_id);
        component_constructors.push(f);
        *self = EntityLayout { components, component_constructors };
    }

    /// The registered component types, in registration order.
    pub fn component_types(&self) -> (types: &[ComponentTypeId])
        ensures
            types@ == self@,
            no_duplicates(types@),
    {
        proof {
            use_type_invariant(self);
        }
        self.components.as_slice()
    }

    /// The storage constructors, in registration order.
    pub fn component_constructors(&self) -> (constructors: &[ComponentConstructor])
        ensures
            constructors@ == self.constructors(),
            constructors@.len() == self@.len(),
            forall|i: int| 0 <= i < self@.len() ==> #[trigger] constructors@[i].builds() == self@[i],
    {
        proof {
            use_type_invariant(self);
        }
        self.component_constructors.as_slice()
    }

    /// Whether component type `T` is part of the layout.
    pub fn has_component<T: Component>(&self) -> (found: bool)
        ensures
            exists|id: ComponentTypeId|
                ComponentTypeId::identifies::<T>(id) && found == self@.contains(id),
    {
        let type_id = ComponentTypeId::of::<T>();
        self.has_component_by_id(type_id)
    }

    /// Whether the component type `type_id` is part of the layout.
    pub fn has_component_by_id(&self, type_id: ComponentTypeId) -> (found: bool)
        ensures
            found == self@.contains(type_id),
    {
        contains_type(self.components.as_slice(), &type_id)
    }
}

/// After a component type is registered, the layout holds it, still holds
/// every type it held before, and holds nothing else.
pub proof fn law_registered_type_is_found(
    before: EntityLayout,
    after: EntityLayout,
    type_id: ComponentTypeId,
)
    requires
        after@ == before@.push(type_id),
    ensures
        after@.contains(type_id),
        forall|other: ComponentTypeId|
            #[trigger] after@.contains(other) <==> (other == type_id || before@.contains(other)),
{
    assert(after@[before@.len() as int] == type_id);
    assert forall|other: ComponentTypeId|
        #[trigger] after@.contains(other) <==> (other == type_id || before@.contains(other)) by {
        if before@.contains(other) {
            let k = choose|k: int| 0 <= k < before@.len() && before@[k] == other;
            assert(after@[k] == other);
        }
        if after@.contains(other) && other != type_id {
            let k = choose|k: int| 0 <= k < after@.len() && after@[k] == other;
            assert(before@[k] == other);
        }
    }
}

/// However often the entities of an archetype are changed through
/// `entities_mut`, the archetype keeps the index and the layout it was made
/// with: `history` holds the archetype after each change, each step keeping
/// the index and the layout as `entities_mut` promises.
pub proof fn law_entity_changes_keep_index_and_layout(history: Seq<Archetype>)
    requires
        forall|i: int|
            0 <= i < history.len() - 1 ==> {
                &&& (#[trigger] history[i + 1]).spec_index() == history[i].spec_index()
                &&& history[i + 1].spec_layout() == history[i].spec_layout()
            },
    ensures
        forall|i: int|
            0 <= i < history.len() ==> {
                &&& (#[trigger] history[i]).spec_index() == history[0].spec_index()
                &&& history[i].spec_layout() == history[0].spec_layout()
            },
    decreases history.len(),
{
    if history.len() > 1 {
        let shorter = history.drop_last();
        assert forall|i: int| 0 <= i < shorter.len() - 1 implies {
            &&& (#[trigger] shorter[i + 1]).spec_index() == shorter[i].spec_index()
            &&& shorter[i + 1].spec_layout() == shorter[i].spec_layout()
        } by {
            assert(shorter[i + 1] == history[i + 1]);
            assert(shorter[i] == history[i]);
        }
        law_entity_changes_keep_index_and_layout(shorter);
        let last = history.len() - 1;
        assert(shorter[last - 1] == history[last - 1]);
        assert(shorter[0] == history[0]);
        assert(history[last] == history[last - 1 + 1]);
        assert forall|i: int| 0 <= i < history.len() implies {
            &&& (#[trigger] history[i]).spec_index() == history[0].spec_index()
            &&& history[i].spec_layout() == history[0].spec_layout()
        } by {
            if i < last {
                assert(shorter[i] == history[i]);
            }
        }
    }
}

/// Reading an archetype back at the index through which it was changed gives
/// the changed archetype; every other index gives what it gave before.
pub proof fn law_index_reads_back_index_mut(
    before: Seq<Archetype>,
    index: ArchetypeIndex,
    changed: Archetype,
)
    requires
        (index.0 as int) < before.len(),
    ensures
        before.update(index.0 as int, changed)[index.0 as int] == changed,
        forall|i: int|
            0 <= i < before.len() && i != index.0 ==> #[trigger] before.update(
                index.0 as int,
                changed,
            )[i] == before[i],
{
}

} // verus!
