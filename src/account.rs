use vstd::prelude::*;

verus! {

/// A 32-byte account identity (a wallet, a token holding or a contract
/// record), held as four little-endian 64-bit words.
#[derive(Clone, Copy, Debug, PartialEq, Eq, Structural)]
pub struct AccountId {
    pub w0: u64,
    pub w1: u64,
    pub w2: u64,
    pub w3: u64,
}

} // verus!
