use vstd::prelude::*;
use crate::account::AccountId;
use crate::error::TimelockError;

verus! {

/// The key-less capability that moves a contract's escrowed funds.
///
/// It is derived from the contract's identity and a stored bump, not from a
/// secret: only code that re-supplies those same seeds may use it.
#[derive(Clone, Copy, Debug, PartialEq, Eq, Structural)]
pub struct EscrowAuthority {
    pub contract: AccountId,
    pub bump: u8,
}

impl EscrowAuthority {
    /// The authority of the contract with identity `contract` and bump `bump`.
    pub fn derive(contract: AccountId, bump: u8) -> (r: EscrowAuthority)
        ensures
            r.contract == contract,
            r.bump == bump,
    {
        EscrowAuthority { contract, bump }
    }

    /// Whether `seeds` are the ones this authority was derived from.
    pub open spec fn accepts(self, contract: AccountId, bump: u8) -> bool {
        self.contract == contract && self.bump == bump
    }

    /// Checks the presented seeds; anything but the derivation seeds is
    /// refused as `Unauthorized`.
    pub fn authorize(&self, contract: &AccountId, bump: u8) -> (r: Result<(), TimelockError>)
        ensures
            r is Ok <==> self.accepts(*contract, bump),
            r is Err ==> r == Err::<(), TimelockError>(TimelockError::Unauthorized),
    {
        if self.contract == *contract && self.bump == bump {
            Ok(())
        } else {
            Err(TimelockError::Unauthorized)
        }
    }
}

} // verus!
