//! The chain identifier binding a transaction to one network instance.

use vstd::prelude::*;

verus! {

/// A one-byte network identifier, carried verbatim on the wire.
#[derive(Clone, Copy, Debug, PartialEq, Eq, Structural)]
pub struct ChainId {
    id: u8,
}

impl View for ChainId {
    type V = u8;

    closed spec fn view(&self) -> u8 {
        self.id
    }
}

impl ChainId {
    /// Wrap a raw chain id byte.
    pub fn new(id: u8) -> (r: Self)
        ensures
            r@ == id,
    {
        ChainId { id }
    }

    /// The raw chain id byte.
    pub fn id(&self) -> (r: u8)
        ensures
            r == self@,
    {
        self.id
    }
}

} // verus!
