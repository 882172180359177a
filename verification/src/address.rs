use vstd::prelude::*;

verus! {

/// A fixed-width 256-bit account address, held as two 128-bit halves with the
/// most significant half first. The address identifies an account both in the
/// Sequence Ledger and in every payload that names a module.
#[derive(Clone, Copy, PartialEq, Eq, Structural, Debug)]
pub struct Address {
    pub hi: u128,
    pub lo: u128,
}

impl Address {
    /// The address whose 256-bit value is `hi * 2^128 + lo`.
    pub fn new(hi: u128, lo: u128) -> (r: Address)
        ensures
            r == (Address { hi, lo }),
    {
        Address { hi, lo }
    }
}

} // verus!
