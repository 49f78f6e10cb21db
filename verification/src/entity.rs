//! A small identifier for non-player objects that travel over the wire.

use vstd::prelude::*;

verus! {

#[derive(Clone, Copy, Debug, PartialEq, Eq, Structural)]
pub struct Entity {
    pub id: u8,
}

impl Entity {
    pub fn new(id: u8) -> (r: Entity)
        ensures
            r.id == id,
    {
        Entity { id }
    }
}

} // verus!
