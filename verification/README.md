# lib

Storage layout and query-view composition for an entity component system,
verified with Verus.

- `src/storage/component.rs`: component type identities and storage constructors.
- `src/storage/archetype.rs`: entity layouts (component types without repeats),
  archetypes, and indexing archetypes by `ArchetypeIndex`.
- `src/entity.rs`: entity identifiers.
- `src/query/view.rs`: the view and fetch traits, `MultiFetch`, and the checks
  that views combined in a tuple do not conflict; `src/query/view/tuples.rs`
  holds the tuple implementations for tuples of one to twenty-six views.
- `app/main.rs`: a program that fills two archetypes and counts entities.
