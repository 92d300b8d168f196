use vstd::prelude::*;

verus! {

/// A 32-byte account identifier (a reserve, an owner, a market), held as its
/// two big-endian 16-byte halves.
#[derive(Clone, Copy, Debug, PartialEq, Eq, Hash, Structural)]
pub struct Address {
    pub hi: u128,
    pub lo: u128,
}

impl Address {
    pub fn new(hi: u128, lo: u128) -> (r: Address)
        ensures
            r.hi == hi,
            r.lo == lo,
    {
        Address { hi, lo }
    }
}

} // verus!
