pub mod archetype;
pub mod component;
