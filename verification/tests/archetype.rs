use lib::entity::Entity;
use lib::storage::archetype::{Archetype, ArchetypeIndex, EntityLayout};
use lib::storage::component::ComponentTypeId;

struct Pos;
struct Rot;

fn layout_of_pos_rot() -> EntityLayout {
    let mut layout = EntityLayout::new();
    layout.register_component::<Pos>().unwrap();
    layout.register_component::<Rot>().unwrap();
    layout
}

#[test]
fn new_archetype_has_no_entities() {
    let archetype = Archetype::new(ArchetypeIndex(3), layout_of_pos_rot());
    assert_eq!(archetype.index(), ArchetypeIndex(3));
    assert!(archetype.entities().is_empty());
    assert_eq!(
        archetype.layout().component_types(),
        &[ComponentTypeId::of::<Pos>(), ComponentTypeId::of::<Rot>()]
    );
}

#[test]
fn entities_mut_changes_only_the_entities() {
    let mut archetype = Archetype::new(ArchetypeIndex(1), layout_of_pos_rot());
    archetype.entities_mut().push(Entity(7));
    archetype.entities_mut().push(Entity(9));
    assert_eq!(archetype.entities(), &[Entity(7), Entity(9)]);
    archetype.entities_mut().remove(0);
    assert_eq!(archetype.entities(), &[Entity(9)]);
    assert_eq!(archetype.index(), ArchetypeIndex(1));
    assert!(archetype.layout().has_component::<Pos>());
}

#[test]
fn archetype_index_picks_its_position() {
    let mut archetypes = vec![
        Archetype::new(ArchetypeIndex(0), EntityLayout::new()),
        Archetype::new(ArchetypeIndex(1), layout_of_pos_rot()),
    ];
    assert_eq!(ArchetypeIndex(1).index(&archetypes).index(), ArchetypeIndex(1));
    assert!(ArchetypeIndex(1).index(&archetypes).layout().has_component::<Rot>());
    assert!(!ArchetypeIndex(0).index(&archetypes).layout().has_component::<Rot>());

    ArchetypeIndex(0).index_mut(&mut archetypes).entities_mut().push(Entity(5));
    assert_eq!(ArchetypeIndex(0).index(&archetypes).entities(), &[Entity(5)]);
    assert!(ArchetypeIndex(1).index(&archetypes).entities().is_empty());
}
