use vstd::prelude::*;

verus! {

/// The failures of the escrow's operations. Each one aborts the whole
/// operation: nothing is changed and nothing is transferred.
#[derive(Clone, Copy, Debug, PartialEq, Eq, Structural)]
pub enum TimelockError {
    /// A deposit of nothing.
    ZeroAmount,
    /// A schedule that is not strictly in the future, ends before it starts,
    /// or has its cliff out of bounds.
    InvalidSchedule,
    /// The caller is not the party the operation belongs to.
    Unauthorized,
    /// A withdrawal of more than is available at this time.
    InsufficientAvailable,
    /// An accumulator would overflow.
    ArithmeticOverflow,
    /// The token transfer collaborator failed.
    TransferFailure,
    /// The contract is closed: everything has been released.
    ContractClosed,
}

} // verus!
