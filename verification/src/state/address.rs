use vstd::prelude::*;

verus! {

/// A 256-bit identifier of an account, an asset or a vault, held as two
/// 128-bit halves. Two addresses are the same when both halves agree.
#[derive(Clone, Copy, Debug, PartialEq, Eq, Structural, Hash)]
pub struct Address {
    pub hi: u128,
    pub lo: u128,
}

impl Address {
    /// The address made of the two given halves.
    pub fn new(hi: u128, lo: u128) -> (address: Address)
        ensures
            address == (Address { hi, lo }),
    {
        Address { hi, lo }
    }
}

} // verus!
