use timelock::instruction::{Signer, Transfer};
use timelock::{
    cancel, commit, create, transfer_beneficiary, withdraw, AccountId, ContractAccounts,
    EscrowAuthority, Schedule, TimelockError, VestingContract,
};

fn id(n: u64) -> AccountId {
    AccountId { w0: n, w1: 0, w2: 0, w3: 0 }
}

const CONTRACT: u64 = 1;
const DEPOSITOR: u64 = 2;
const BENEFICIARY: u64 = 3;
const MINT: u64 = 4;
const ESCROW: u64 = 5;
const BUMP: u8 = 254;

fn contract(amount: u64, start: u64, end: u64, period: u64, cliff: u64, cliff_amount: u64) -> VestingContract {
    VestingContract {
        id: id(CONTRACT),
        depositor: id(DEPOSITOR),
        beneficiary: id(BENEFICIARY),
        mint: id(MINT),
        escrow: id(ESCROW),
        bump: BUMP,
        deposited_amount: amount,
        withdrawn: 0,
        schedule: Schedule { start, end, period, cliff, cliff_amount },
    }
}

fn accounts() -> ContractAccounts {
    ContractAccounts {
        id: id(CONTRACT),
        depositor: id(DEPOSITOR),
        beneficiary: id(BENEFICIARY),
        mint: id(MINT),
        escrow: id(ESCROW),
    }
}

fn escrow_payout(to: u64, amount: u64) -> Transfer {
    Transfer {
        from: id(ESCROW),
        to: id(to),
        amount,
        signer: Signer::Escrow(EscrowAuthority { contract: id(CONTRACT), bump: BUMP }),
    }
}

#[test]
fn linear_without_cliff() {
    let c = contract(1000, 0, 1000, 0, 0, 0);
    assert_eq!(c.available_at(500), 500);
    assert_eq!(c.available_at(1000), 1000);
    let step = withdraw(&c, id(BENEFICIARY), 500, 1000).unwrap();
    assert_eq!(step.contract.withdrawn, 500);
    assert_eq!(step.contract.available_at(1000), 500);
    assert_eq!(step.transfers, vec![escrow_payout(BENEFICIARY, 500)]);
}

#[test]
fn cliff_releases_lump_then_linear() {
    let c = contract(1000, 0, 1000, 0, 200, 100);
    assert_eq!(c.available_at(199), 0);
    assert_eq!(c.available_at(200), 100);
    // 100 + 900 * 400 / 800
    assert_eq!(c.available_at(600), 550);
    assert_eq!(c.available_at(1000), 1000);
}

#[test]
fn cancel_splits_and_closes() {
    let c = contract(1000, 0, 1000, 0, 0, 0);
    assert_eq!(c.available_at(300), 300);
    let step = cancel(&c, id(DEPOSITOR), 300).unwrap();
    assert_eq!(
        step.transfers,
        vec![escrow_payout(BENEFICIARY, 300), escrow_payout(DEPOSITOR, 700)]
    );
    let closed = step.contract;
    assert_eq!(closed.withdrawn, closed.deposited_amount);
    assert_eq!(
        withdraw(&closed, id(BENEFICIARY), 1, 400).unwrap_err(),
        TimelockError::ContractClosed
    );
    assert_eq!(
        cancel(&closed, id(DEPOSITOR), 400).unwrap_err(),
        TimelockError::ContractClosed
    );
}

#[test]
fn available_stays_within_outstanding() {
    let mut c = contract(1000, 100, 1100, 7, 300, 250);
    c.withdrawn = 400;
    let mut t: u64 = 0;
    while t <= 1300 {
        let a = c.available_at(t);
        assert!(a <= c.deposited_amount - c.withdrawn);
        t += 13;
    }
}

#[test]
fn unlocked_never_decreases() {
    let c = contract(1000, 100, 1100, 7, 300, 250);
    let mut previous: u64 = 0;
    let mut t: u64 = 0;
    while t <= 1300 {
        let a = c.schedule.unlocked_at(c.deposited_amount, t);
        assert!(a >= previous);
        previous = a;
        t += 1;
    }
    assert_eq!(previous, 1000);
}

#[test]
fn withdrawals_exhaust_available_then_refuse() {
    let c = contract(1000, 0, 1000, 0, 0, 0);
    let first = withdraw(&c, id(BENEFICIARY), 200, 500).unwrap().contract;
    let second = withdraw(&first, id(BENEFICIARY), 300, 500).unwrap().contract;
    assert_eq!(second.withdrawn, 500);
    assert_eq!(second.available_at(500), 0);
    assert_eq!(
        withdraw(&second, id(BENEFICIARY), 1, 500).unwrap_err(),
        TimelockError::InsufficientAvailable
    );
    assert_eq!(
        withdraw(&c, id(BENEFICIARY), 501, 500).unwrap_err(),
        TimelockError::InsufficientAvailable
    );
}

#[test]
fn boundaries_of_the_schedule() {
    let mut c = contract(1000, 100, 1100, 0, 400, 50);
    assert_eq!(c.available_at(0), 0);
    assert_eq!(c.available_at(100), 0);
    assert_eq!(c.available_at(399), 0);
    c.withdrawn = 120;
    assert_eq!(c.available_at(1100), 880);
    assert_eq!(c.available_at(u64::MAX), 880);
}

#[test]
fn stepped_release_moves_in_whole_periods() {
    // four periods of 300 cover the 1000 seconds, the last one partial
    let c = contract(1000, 0, 1000, 300, 0, 0);
    assert_eq!(c.available_at(299), 0);
    assert_eq!(c.available_at(300), 250);
    assert_eq!(c.available_at(650), 500);
    assert_eq!(c.available_at(899), 500);
    assert_eq!(c.available_at(900), 750);
    assert_eq!(c.available_at(999), 750);
    assert_eq!(c.available_at(1000), 1000);
}

#[test]
fn largest_values_do_not_overflow() {
    let c = contract(u64::MAX, 0, u64::MAX, 0, 0, 0);
    assert_eq!(c.available_at(u64::MAX / 2), u64::MAX / 2);
    assert_eq!(c.available_at(u64::MAX - 1), u64::MAX - 1);
    assert_eq!(c.available_at(u64::MAX), u64::MAX);
}

#[test]
fn create_validates_inputs() {
    assert_eq!(
        create(accounts(), BUMP, 0, 10, 20, 0, 0, 0, 5).unwrap_err(),
        TimelockError::ZeroAmount
    );
    assert_eq!(
        create(accounts(), BUMP, 100, 20, 20, 0, 0, 0, 5).unwrap_err(),
        TimelockError::InvalidSchedule
    );
    assert_eq!(
        create(accounts(), BUMP, 100, 30, 20, 0, 0, 0, 5).unwrap_err(),
        TimelockError::InvalidSchedule
    );
    assert_eq!(
        create(accounts(), BUMP, 100, 10, 20, 0, 9, 5, 5).unwrap_err(),
        TimelockError::InvalidSchedule
    );
    assert_eq!(
        create(accounts(), BUMP, 100, 10, 20, 0, 21, 5, 5).unwrap_err(),
        TimelockError::InvalidSchedule
    );
    assert_eq!(
        create(accounts(), BUMP, 100, 10, 20, 0, 0, 0, 10).unwrap_err(),
        TimelockError::InvalidSchedule
    );
}

#[test]
fn create_moves_deposit_into_escrow() {
    let step = create(accounts(), BUMP, 100, 10, 20, 2, 15, 40, 5).unwrap();
    let expected = contract(100, 10, 20, 2, 15, 40);
    assert_eq!(step.contract, expected);
    assert_eq!(
        step.transfers,
        vec![Transfer {
            from: id(DEPOSITOR),
            to: id(ESCROW),
            amount: 100,
            signer: Signer::Wallet(id(DEPOSITOR)),
        }]
    );
    assert_eq!(step.contract.available_at(15), 40);
}

#[test]
fn only_the_parties_may_act() {
    let c = contract(1000, 0, 1000, 0, 0, 0);
    assert_eq!(
        withdraw(&c, id(DEPOSITOR), 1, 500).unwrap_err(),
        TimelockError::Unauthorized
    );
    assert_eq!(
        cancel(&c, id(BENEFICIARY), 500).unwrap_err(),
        TimelockError::Unauthorized
    );
    assert_eq!(
        transfer_beneficiary(&c, id(DEPOSITOR), id(9)).unwrap_err(),
        TimelockError::Unauthorized
    );
}

#[test]
fn beneficiary_can_hand_over() {
    let c = contract(1000, 0, 1000, 0, 0, 0);
    let next = transfer_beneficiary(&c, id(BENEFICIARY), id(9)).unwrap();
    assert_eq!(next.beneficiary, id(9));
    assert_eq!(next.withdrawn, 0);
    assert_eq!(
        withdraw(&next, id(BENEFICIARY), 1, 500).unwrap_err(),
        TimelockError::Unauthorized
    );
    let step = withdraw(&next, id(9), 100, 500).unwrap();
    assert_eq!(step.transfers, vec![escrow_payout(9, 100)]);
    let mut closed = c;
    closed.withdrawn = 1000;
    assert_eq!(
        transfer_beneficiary(&closed, id(BENEFICIARY), id(9)).unwrap_err(),
        TimelockError::ContractClosed
    );
}

#[test]
fn last_withdrawal_closes_the_contract() {
    let c = contract(1000, 0, 1000, 0, 0, 0);
    let done = withdraw(&c, id(BENEFICIARY), 1000, 1000).unwrap().contract;
    assert_eq!(done.withdrawn, done.deposited_amount);
    assert_eq!(
        withdraw(&done, id(BENEFICIARY), 0, 2000).unwrap_err(),
        TimelockError::ContractClosed
    );
}

#[test]
fn failed_transfers_abort_the_step() {
    let c = contract(1000, 0, 1000, 0, 0, 0);
    let step = withdraw(&c, id(BENEFICIARY), 100, 500).unwrap();
    assert_eq!(commit(step, false).unwrap_err(), TimelockError::TransferFailure);
    let step = withdraw(&c, id(BENEFICIARY), 100, 500).unwrap();
    assert_eq!(commit(step, true).unwrap().withdrawn, 100);
}

#[test]
fn escrow_authority_needs_its_seeds() {
    let c = contract(1000, 0, 1000, 0, 0, 0);
    let authority = c.escrow_authority();
    assert_eq!(authority, EscrowAuthority::derive(id(CONTRACT), BUMP));
    assert_eq!(authority.authorize(&id(CONTRACT), BUMP), Ok(()));
    assert_eq!(
        authority.authorize(&id(CONTRACT), BUMP - 1),
        Err(TimelockError::Unauthorized)
    );
    assert_eq!(
        authority.authorize(&id(ESCROW), BUMP),
        Err(TimelockError::Unauthorized)
    );
}

#[test]
fn schedule_validity() {
    let s = Schedule { start: 10, end: 20, period: 0, cliff: 0, cliff_amount: 500 };
    assert!(s.is_valid());
    let s = Schedule { start: 10, end: 20, period: 0, cliff: 20, cliff_amount: 100 };
    assert!(s.is_valid());
    let s = Schedule { start: 10, end: 20, period: 0, cliff: 9, cliff_amount: 0 };
    assert!(!s.is_valid());
    let s = Schedule { start: 10, end: 10, period: 0, cliff: 0, cliff_amount: 0 };
    assert!(!s.is_valid());
}

#[test]
fn cliff_amount_above_deposit_releases_everything_at_cliff() {
    let step = create(accounts(), BUMP, 100, 10, 20, 0, 15, 200, 5).unwrap();
    assert_eq!(step.contract, contract(100, 10, 20, 0, 15, 200));
    assert_eq!(step.contract.available_at(14), 0);
    assert_eq!(step.contract.available_at(15), 100);
    assert_eq!(step.contract.available_at(17), 100);
    assert_eq!(step.contract.available_at(20), 100);
    let taken = withdraw(&step.contract, id(BENEFICIARY), 100, 15).unwrap();
    assert_eq!(taken.contract.withdrawn, 100);
    assert_eq!(taken.transfers, vec![escrow_payout(BENEFICIARY, 100)]);
}

#[test]
fn failed_deposit_keeps_no_record() {
    let step = create(accounts(), BUMP, 100, 10, 20, 0, 15, 200, 5).unwrap();
    assert_eq!(commit(step, false).unwrap_err(), TimelockError::TransferFailure);
}

#[test]
fn stored_records_are_checked() {
    let mut c = contract(1000, 0, 1000, 0, 0, 0);
    assert!(c.is_well_formed());
    c.withdrawn = 1001;
    assert!(!c.is_well_formed());
    let c = contract(0, 0, 1000, 0, 0, 0);
    assert!(!c.is_well_formed());
    let c = contract(1000, 1000, 1000, 0, 0, 0);
    assert!(!c.is_well_formed());
}
