use vstd::prelude::*;
use crate::account::AccountId;
use crate::authority::EscrowAuthority;
use crate::contract::{lemma_available_bounds, lemma_withdraw_reduces_available, VestingContract};
use crate::error::TimelockError;
use crate::schedule::Schedule;

verus! {

/// Who signs a token transfer.
#[derive(Clone, Copy, Debug, PartialEq, Eq, Structural)]
pub enum Signer {
    /// The owner of the source holding, with its own signature.
    Wallet(AccountId),
    /// The contract's derived escrow authority, with its seeds.
    Escrow(EscrowAuthority),
}

/// One token movement for the host to perform. `from` and `to` own the
/// holdings involved: a party's wallet, or the contract's escrow.
#[derive(Clone, Copy, Debug, PartialEq, Eq, Structural)]
pub struct Transfer {
    pub from: AccountId,
    pub to: AccountId,
    pub amount: u64,
    pub signer: Signer,
}

/// The accounts that a new contract is made of.
#[derive(Clone, Copy, Debug, PartialEq, Eq, Structural)]
pub struct ContractAccounts {
    pub id: AccountId,
    pub depositor: AccountId,
    pub beneficiary: AccountId,
    pub mint: AccountId,
    pub escrow: AccountId,
}

/// The outcome of an accepted operation: the record to persist and the
/// transfers to perform, which commit or abort together.
#[derive(Debug)]
pub struct Step {
    pub contract: VestingContract,
    pub transfers: Vec<Transfer>,
}

/// Why `create` refuses, if it does.
pub open spec fn create_error(amount: u64, schedule: Schedule, now: u64) -> Option<TimelockError> {
    if amount == 0 {
        Some(TimelockError::ZeroAmount)
    } else if now >= schedule.start || !schedule.valid() {
        Some(TimelockError::InvalidSchedule)
    } else {
        None
    }
}

/// The record that `create` persists.
pub open spec fn created(
    accounts: ContractAccounts,
    bump: u8,
    amount: u64,
    schedule: Schedule,
) -> VestingContract {
    VestingContract {
        id: accounts.id,
        depositor: accounts.depositor,
        beneficiary: accounts.beneficiary,
        mint: accounts.mint,
        escrow: accounts.escrow,
        bump,
        deposited_amount: amount,
        withdrawn: 0,
        schedule,
    }
}

/// Why `withdraw` refuses, if it does.
pub open spec fn withdraw_error(
    c: VestingContract,
    caller: AccountId,
    amount: u64,
    now: u64,
) -> Option<TimelockError> {
    if caller != c.beneficiary {
        Some(TimelockError::Unauthorized)
    } else if c.is_closed() {
        Some(TimelockError::ContractClosed)
    } else if amount > c.available(now as int) {
        Some(TimelockError::InsufficientAvailable)
    } else {
        None
    }
}

/// Why `cancel` refuses, if it does.
pub open spec fn cancel_error(c: VestingContract, caller: AccountId) -> Option<TimelockError> {
    if caller != c.depositor {
        Some(TimelockError::Unauthorized)
    } else if c.is_closed() {
        Some(TimelockError::ContractClosed)
    } else {
        None
    }
}

/// Why `transfer_beneficiary` refuses, if it does.
pub open spec fn transfer_beneficiary_error(c: VestingContract, caller: AccountId) -> Option<
    TimelockError,
> {
    if caller != c.beneficiary {
        Some(TimelockError::Unauthorized)
    } else if c.is_closed() {
        Some(TimelockError::ContractClosed)
    } else {
        None
    }
}

/// A transfer out of the contract's escrow, signed by its authority.
pub open spec fn payout(c: VestingContract, to: AccountId, amount: u64) -> Transfer {
    Transfer {
        from: c.escrow,
        to,
        amount,
        signer: Signer::Escrow(EscrowAuthority { contract: c.id, bump: c.bump }),
    }
}

/// The withdrawal of `amount` by `caller` at `now`, as far as the record
/// goes: the next record, or the error.
pub open spec fn withdraw_outcome(
    c: VestingContract,
    caller: AccountId,
    amount: u64,
    now: u64,
) -> Result<VestingContract, TimelockError> {
    match withdraw_error(c, caller, amount, now) {
        Some(e) => Err(e),
        None => Ok(c.withdrawn_by(amount as int)),
    }
}

/// The sum of a sequence of amounts.
pub open spec fn total(amounts: Seq<u64>) -> int
    decreases amounts.len(),
{
    if amounts.len() == 0 {
        0
    } else {
        total(amounts.drop_last()) + amounts.last()
    }
}

/// Withdrawals of `amounts`, in order, by `caller` at `now`; the first
/// refusal ends the run.
pub open spec fn withdraw_all(
    c: VestingContract,
    caller: AccountId,
    amounts: Seq<u64>,
    now: u64,
) -> Result<VestingContract, TimelockError>
    decreases amounts.len(),
{
    if amounts.len() == 0 {
        Ok(c)
    } else {
        match withdraw_all(c, caller, amounts.drop_last(), now) {
            Ok(c1) => withdraw_outcome(c1, caller, amounts.last(), now),
            Err(e) => Err(e),
        }
    }
}

proof fn lemma_total_nonnegative(amounts: Seq<u64>)
    ensures
        0 <= total(amounts),
    decreases amounts.len(),
{
    if amounts.len() > 0 {
        lemma_total_nonnegative(amounts.drop_last());
    }
}

/// The beneficiary's withdrawals at one time, summing to no more than is
/// available, all go through, one after the other.
proof fn lemma_withdrawals_within_available(c: VestingContract, amounts: Seq<u64>, now: u64)
    requires
        c.wf(),
        total(amounts) <= c.available(now as int),
        c.withdrawn + c.available(now as int) < c.deposited_amount || forall|i: int|
            0 <= i < amounts.len() ==> amounts[i] > 0,
    ensures
        withdraw_all(c, c.beneficiary, amounts, now) == Ok::<VestingContract, TimelockError>(
            c.withdrawn_by(total(amounts)),
        ),
    decreases amounts.len(),
{
    if amounts.len() > 0 {
        let prefix = amounts.drop_last();
        let last = amounts.last();
        lemma_total_nonnegative(prefix);
        assert forall|i: int| 0 <= i < prefix.len() implies prefix[i] == amounts[i] by {}
        lemma_withdrawals_within_available(c, prefix, now);
        lemma_withdraw_reduces_available(c, now as int, total(prefix));
        lemma_available_bounds(c, now as int);
        let c1 = c.withdrawn_by(total(prefix));
        if !(c.withdrawn + c.available(now as int) < c.deposited_amount) {
            assert(amounts[amounts.len() - 1] > 0);
        }
        assert(!c1.is_closed());
        assert(withdraw_error(c1, c.beneficiary, last, now) is None);
        assert(c1.withdrawn_by(last as int) == c.withdrawn_by(total(amounts)));
    }
}

/// No overdraw: the beneficiary's withdrawals at one time that sum to
/// exactly what is available there all succeed, and after them any further
/// positive withdrawal at that time is refused as insufficient (or as closed,
/// where they emptied the escrow).
pub proof fn lemma_no_overdraw(c: VestingContract, amounts: Seq<u64>, now: u64, further: u64)
    requires
        c.wf(),
        total(amounts) == c.available(now as int),
        further > 0,
        c.withdrawn + c.available(now as int) < c.deposited_amount || forall|i: int|
            0 <= i < amounts.len() ==> amounts[i] > 0,
    ensures
        withdraw_all(c, c.beneficiary, amounts, now) == Ok::<VestingContract, TimelockError>(
            c.withdrawn_by(total(amounts)),
        ),
        withdraw_outcome(c.withdrawn_by(total(amounts)), c.beneficiary, further, now) == Err::<
            VestingContract,
            TimelockError,
        >(
            if c.withdrawn_by(total(amounts)).is_closed() {
                TimelockError::ContractClosed
            } else {
                TimelockError::InsufficientAvailable
            },
        ),
{
    lemma_total_nonnegative(amounts);
    lemma_withdrawals_within_available(c, amounts, now);
    lemma_withdraw_reduces_available(c, now as int, total(amounts));
}

/// A closed contract is terminal: whoever calls, no withdrawal, cancellation
/// or change of beneficiary is accepted.
pub proof fn lemma_closed_is_terminal(
    c: VestingContract,
    caller: AccountId,
    amount: u64,
    now: u64,
)
    requires
        c.is_closed(),
    ensures
        withdraw_outcome(c, caller, amount, now) is Err,
        cancel_error(c, caller) is Some,
        transfer_beneficiary_error(c, caller) is Some,
{
}

/// Opens a contract: checks the deposit and the schedule, and moves the
/// deposit from the depositor into escrow. A `cliff` of zero means no cliff;
/// a `period` of zero means continuous release.
pub fn create(
    accounts: ContractAccounts,
    bump: u8,
    amount: u64,
    start_time: u64,
    end_time: u64,
    period: u64,
    cliff: u64,
    cliff_amount: u64,
    now: u64,
) -> (r: Result<Step, TimelockError>)
    ensures
        ({
            let schedule = Schedule { start: start_time, end: end_time, period, cliff, cliff_amount };
            match r {
                Ok(step) => {
                    &&& create_error(amount, schedule, now) is None
                    &&& step.contract == created(accounts, bump, amount, schedule)
                    &&& step.contract.wf()
                    &&& step.transfers@ == seq![
                        Transfer {
                            from: accounts.depositor,
                            to: accounts.escrow,
                            amount,
                            signer: Signer::Wallet(accounts.depositor),
                        },
                    ]
                },
                Err(e) => create_error(amount, schedule, now) == Some(e),
            }
        }),
{
    let schedule = Schedule { start: start_time, end: end_time, period, cliff, cliff_amount };
    if amount == 0 {
        return Err(TimelockError::ZeroAmount);
    }
    if now >= start_time || !schedule.is_valid() {
        return Err(TimelockError::InvalidSchedule);
    }
    let contract = VestingContract {
        id: accounts.id,
        depositor: accounts.depositor,
        beneficiary: accounts.beneficiary,
        mint: accounts.mint,
        escrow: accounts.escrow,
        bump,
        deposited_amount: amount,
        withdrawn: 0,
        schedule,
    };
    let mut transfers: Vec<Transfer> = Vec::new();
    transfers.push(
        Transfer {
            from: accounts.depositor,
            to: accounts.escrow,
            amount,
            signer: Signer::Wallet(accounts.depositor),
        },
    );
    Ok(Step { contract, transfers })
}

/// The beneficiary takes `amount` of what is available at `now` out of
/// escrow.
pub fn withdraw(contract: &VestingContract, caller: AccountId, amount: u64, now: u64) -> (r:
    Result<Step, TimelockError>)
    requires
        contract.wf(),
    ensures
        match r {
            Ok(step) => {
                &&& withdraw_outcome(*contract, caller, amount, now) == Ok::<
                    VestingContract,
                    TimelockError,
                >(step.contract)
                &&& step.contract.wf()
                &&& step.transfers@ == seq![payout(*contract, contract.beneficiary, amount)]
            },
            Err(e) => withdraw_outcome(*contract, caller, amount, now) == Err::<
                VestingContract,
                TimelockError,
            >(e),
        },
        r is Err ==> r != Err::<Step, TimelockError>(TimelockError::ArithmeticOverflow),
{
    if caller != contract.beneficiary {
        return Err(TimelockError::Unauthorized);
    }
    if contract.withdrawn == contract.deposited_amount {
        return Err(TimelockError::ContractClosed);
    }
    let available = contract.available_at(now);
    if amount > available {
        return Err(TimelockError::InsufficientAvailable);
    }
    let withdrawn = match contract.withdrawn.checked_add(amount) {
        Some(w) => w,
        None => {
            return Err(TimelockError::ArithmeticOverflow);
        },
    };
    proof {
        lemma_withdraw_reduces_available(*contract, now as int, amount as int);
    }
    let next = VestingContract { withdrawn, ..*contract };
    let mut transfers: Vec<Transfer> = Vec::new();
    transfers.push(
        Transfer {
            from: contract.escrow,
            to: contract.beneficiary,
            amount,
            signer: Signer::Escrow(contract.escrow_authority()),
        },
    );
    Ok(Step { contract: next, transfers })
}

/// The depositor ends the contract at `now`: what is available goes to the
/// beneficiary, the rest of the escrow back to the depositor, and the
/// contract is closed.
pub fn cancel(contract: &VestingContract, caller: AccountId, now: u64) -> (r: Result<
    Step,
    TimelockError,
>)
    requires
        contract.wf(),
    ensures
        match r {
            Ok(step) => {
                let paid = contract.available(now as int);
                &&& cancel_error(*contract, caller) is None
                &&& step.contract == contract.withdrawn_by(contract.outstanding())
                &&& step.contract.wf()
                &&& step.contract.is_closed()
                &&& step.transfers@ == seq![
                    payout(*contract, contract.beneficiary, paid as u64),
                    payout(*contract, contract.depositor, (contract.outstanding() - paid) as u64),
                ]
                &&& step.transfers@[0].amount + step.transfers@[1].amount == contract.outstanding()
            },
            Err(e) => cancel_error(*contract, caller) == Some(e),
        },
{
    if caller != contract.depositor {
        return Err(TimelockError::Unauthorized);
    }
    if contract.withdrawn == contract.deposited_amount {
        return Err(TimelockError::ContractClosed);
    }
    let paid = contract.available_at(now);
    let returned = contract.deposited_amount - contract.withdrawn - paid;
    let authority = contract.escrow_authority();
    let next = VestingContract { withdrawn: contract.deposited_amount, ..*contract };
    let mut transfers: Vec<Transfer> = Vec::new();
    transfers.push(
        Transfer {
            from: contract.escrow,
            to: contract.beneficiary,
            amount: paid,
            signer: Signer::Escrow(authority),
        },
    );
    transfers.push(
        Transfer {
            from: contract.escrow,
            to: contract.depositor,
            amount: returned,
            signer: Signer::Escrow(authority),
        },
    );
    Ok(Step { contract: next, transfers })
}

/// The beneficiary hands the contract to `new_beneficiary`; no funds move.
pub fn transfer_beneficiary(
    contract: &VestingContract,
    caller: AccountId,
    new_beneficiary: AccountId,
) -> (r: Result<VestingContract, TimelockError>)
    requires
        contract.wf(),
    ensures
        match r {
            Ok(next) => {
                &&& transfer_beneficiary_error(*contract, caller) is None
                &&& next == (VestingContract { beneficiary: new_beneficiary, ..*contract })
                &&& next.wf()
            },
            Err(e) => transfer_beneficiary_error(*contract, caller) == Some(e),
        },
{
    if caller != contract.beneficiary {
        return Err(TimelockError::Unauthorized);
    }
    if contract.withdrawn == contract.deposited_amount {
        return Err(TimelockError::ContractClosed);
    }
    Ok(VestingContract { beneficiary: new_beneficiary, ..*contract })
}

/// Settles an accepted step once the host has attempted its transfers: the
/// new record stands only if every transfer went through; otherwise the
/// operation fails as a whole and the stored record stays as it was.
pub fn commit(step: Step, transfers_succeeded: bool) -> (r: Result<VestingContract, TimelockError>)
    ensures
        transfers_succeeded ==> r == Ok::<VestingContract, TimelockError>(step.contract),
        !transfers_succeeded ==> r == Err::<VestingContract, TimelockError>(
            TimelockError::TransferFailure,
        ),
{
    if transfers_succeeded {
        Ok(step.contract)
    } else {
        Err(TimelockError::TransferFailure)
    }
}

} // verus!
