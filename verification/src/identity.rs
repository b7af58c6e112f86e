use vstd::prelude::*;

verus! {

/// A 32-byte account address on the host ledger, held as two machine
/// words so that equality of identities is plain structural equality.
///
/// Holding accounts, the registry's owner, the treasury wallet and the
/// delegate all carry such an address; the hook's logic only ever
/// compares addresses for equality.
#[derive(Clone, Copy, Debug, PartialEq, Eq, Structural)]
pub struct Identity {
    /// The high 16 bytes of the address.
    pub hi: u128,
    /// The low 16 bytes of the address.
    pub lo: u128,
}

impl Identity {
    /// Builds the address whose high and low halves are the given words.
    pub fn new(hi: u128, lo: u128) -> (r: Identity)
        ensures
            r == (Identity { hi, lo }),
    {
        Identity { hi, lo }
    }
}

} // verus!
