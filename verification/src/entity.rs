use vstd::prelude::*;

verus! {

/// An entity: an identifier under which components are stored.
#[derive(Clone, Copy, Debug, PartialEq, Eq, Hash, Structural)]
pub struct Entity(pub u64);

} // verus!
