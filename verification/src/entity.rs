use vstd::prelude::*;

verus! {

/// An entity of the game world, named by its index and generation.
#[derive(Clone, Copy, Debug, PartialEq, Eq, Structural)]
pub struct EntityId {
    pub index: u32,
    pub generation: i32,
}

} // verus!
