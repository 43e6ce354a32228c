use vstd::prelude::*;
use crate::account::AccountId;
use crate::authority::EscrowAuthority;
use crate::schedule::{lemma_unlocked_bounds, lemma_unlocked_monotonic, Schedule};

verus! {

/// The persisted record of one vesting deposit.
///
/// `id` is the contract's identity, from which its escrow authority is
/// derived together with `bump`; `escrow` is the holding that keeps the
/// deposit. `depositor`, `deposited_amount` and the schedule never change;
/// `withdrawn` only grows.
#[derive(Clone, Copy, Debug, PartialEq, Eq, Structural)]
pub struct VestingContract {
    pub id: AccountId,
    pub depositor: AccountId,
    pub beneficiary: AccountId,
    pub mint: AccountId,
    pub escrow: AccountId,
    pub bump: u8,
    pub deposited_amount: u64,
    pub withdrawn: u64,
    pub schedule: Schedule,
}

impl VestingContract {
    /// The record's invariant: a positive deposit, never overdrawn, under a
    /// valid schedule.
    pub open spec fn wf(self) -> bool {
        &&& self.deposited_amount > 0
        &&& self.withdrawn <= self.deposited_amount
        &&& self.schedule.valid()
    }

    /// Everything has been released; the contract accepts no more operations.
    pub open spec fn is_closed(self) -> bool {
        self.withdrawn == self.deposited_amount
    }

    /// What is still held in escrow for this contract.
    pub open spec fn outstanding(self) -> int {
        self.deposited_amount - self.withdrawn
    }

    /// The cumulative amount released by the schedule at `now`.
    pub open spec fn unlocked(self, now: int) -> int {
        self.schedule.unlocked(self.deposited_amount as int, now)
    }

    /// Released but not yet withdrawn at `now`, clamped to what is still held.
    pub open spec fn available(self, now: int) -> int {
        let v = self.unlocked(now) - self.withdrawn;
        if v < 0 {
            0
        } else if v > self.outstanding() {
            self.outstanding()
        } else {
            v
        }
    }

    /// The contract after a further `amount` has been withdrawn.
    pub open spec fn withdrawn_by(self, amount: int) -> VestingContract {
        VestingContract { withdrawn: (self.withdrawn + amount) as u64, ..self }
    }

    /// Checks the invariant of a record read back from storage.
    pub fn is_well_formed(&self) -> (r: bool)
        ensures
            r == self.wf(),
    {
        self.deposited_amount > 0 && self.withdrawn <= self.deposited_amount
            && self.schedule.is_valid()
    }

    /// The amount the beneficiary may withdraw at `now`.
    pub fn available_at(&self, now: u64) -> (r: u64)
        requires
            self.wf(),
        ensures
            r == self.available(now as int),
            r <= self.deposited_amount - self.withdrawn,
            now <= self.schedule.start ==> r == 0,
            self.schedule.has_cliff() && now < self.schedule.cliff ==> r == 0,
            now >= self.schedule.end ==> r == self.deposited_amount - self.withdrawn,
    {
        let unlocked = self.schedule.unlocked_at(self.deposited_amount, now);
        if unlocked <= self.withdrawn {
            0
        } else {
            unlocked - self.withdrawn
        }
    }

    /// The authority that signs transfers out of this contract's escrow.
    pub fn escrow_authority(&self) -> (r: EscrowAuthority)
        ensures
            r.contract == self.id,
            r.bump == self.bump,
    {
        EscrowAuthority::derive(self.id, self.bump)
    }
}

/// What is available never exceeds what is still held, and never exceeds
/// what the schedule has released beyond the withdrawals.
pub proof fn lemma_available_bounds(c: VestingContract, now: int)
    requires
        c.wf(),
    ensures
        0 <= c.available(now) <= c.outstanding(),
        0 <= c.unlocked(now) <= c.deposited_amount,
        c.available(now) == if c.unlocked(now) <= c.withdrawn {
            0
        } else {
            c.unlocked(now) - c.withdrawn
        },
{
    lemma_unlocked_bounds(c.schedule, c.deposited_amount as int, now);
}

/// With the withdrawals held fixed, both the cumulative release and what is
/// available never decrease with time.
pub proof fn lemma_available_monotonic(c: VestingContract, t1: int, t2: int)
    requires
        c.wf(),
        t1 <= t2,
    ensures
        c.unlocked(t1) <= c.unlocked(t2),
        c.available(t1) <= c.available(t2),
{
    lemma_unlocked_monotonic(c.schedule, c.deposited_amount as int, t1, t2);
    lemma_available_bounds(c, t1);
    lemma_available_bounds(c, t2);
}

/// The same time gives the same release whatever has been withdrawn, so a
/// withdrawal of part of what is available leaves exactly the rest.
pub proof fn lemma_withdraw_reduces_available(c: VestingContract, now: int, amount: int)
    requires
        c.wf(),
        0 <= amount <= c.available(now),
    ensures
        c.withdrawn_by(amount).wf(),
        c.withdrawn_by(amount).available(now) == c.available(now) - amount,
{
    lemma_available_bounds(c, now);
    lemma_available_bounds(c.withdrawn_by(amount), now);
}

} // verus!
