//! A token-vesting escrow: a fixed deposit is released to a beneficiary on a
//! time schedule, with early cancellation that splits what remains.
//!
//! Every operation is a verified function from the stored contract and the
//! caller's inputs to the next contract and the token transfers to perform.
//! Performing the transfers and persisting the record is left to the host.

pub mod account;
pub mod authority;
pub mod contract;
pub mod error;
pub mod instruction;
pub mod schedule;

pub use account::AccountId;
pub use authority::EscrowAuthority;
pub use contract::VestingContract;
pub use error::TimelockError;
pub use instruction::{
    cancel, commit, create, transfer_beneficiary, withdraw, ContractAccounts, Signer, Step, Transfer,
};
pub use schedule::Schedule;
