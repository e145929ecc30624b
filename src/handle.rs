use vstd::prelude::*;

verus! {

/// Opaque, generation-tagged token naming one slot of a resource pool.
#[derive(Clone, Copy, Debug, PartialEq, Eq, Structural, Hash)]
pub struct Handle {
    pub index: u32,
    pub generation: u32,
}

impl Handle {
    pub fn new(index: u32, generation: u32) -> (r: Handle)
        ensures
            r.index == index,
            r.generation == generation,
    {
        Handle { index, generation }
    }
}

} // verus!
