use vstd::prelude::*;

verus! {

/// A 32-byte account address, held as four little-endian 64-bit words so that
/// two addresses compare field by field.
#[derive(Clone, Copy, Debug, PartialEq, Eq, Hash, Structural)]
pub struct Pubkey {
    pub w0: u64,
    pub w1: u64,
    pub w2: u64,
    pub w3: u64,
}

} // verus!
