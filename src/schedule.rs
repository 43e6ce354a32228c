use vstd::prelude::*;
use vstd::arithmetic::div_mod::{
    lemma_div_by_multiple, lemma_div_is_ordered, lemma_div_non_zero, lemma_div_pos_is_pos,
};
use vstd::arithmetic::mul::{lemma_mul_inequality, lemma_mul_nonnegative, lemma_mul_upper_bound};

verus! {

/// The release schedule of a deposit.
///
/// Nothing is released up to `start`; everything is released from `end` on.
/// A `cliff` of zero means there is none; otherwise nothing is released
/// before `cliff`, and `cliff_amount` (at most the whole deposit) is released
/// at once when it is reached.
/// A `period` of zero releases continuously; otherwise the release between
/// the cliff (or the start) and the end advances in whole periods.
#[derive(Clone, Copy, Debug, PartialEq, Eq, Structural)]
pub struct Schedule {
    pub start: u64,
    pub end: u64,
    pub period: u64,
    pub cliff: u64,
    pub cliff_amount: u64,
}

impl Schedule {
    pub open spec fn has_cliff(self) -> bool {
        self.cliff != 0
    }

    /// The schedule is well formed: it ends after it starts, and a cliff
    /// lies within it.
    pub open spec fn valid(self) -> bool {
        &&& self.start < self.end
        &&& self.has_cliff() ==> self.start <= self.cliff <= self.end
    }

    /// What a deposit of `amount` releases at the cliff: the cliff amount,
    /// but never more than the deposit.
    pub open spec fn baseline(self, amount: int) -> int {
        if !self.has_cliff() {
            0
        } else if self.cliff_amount <= amount {
            self.cliff_amount as int
        } else {
            amount
        }
    }

    /// Where the gradual release begins.
    pub open spec fn effective_start(self) -> int {
        if self.has_cliff() {
            self.cliff as int
        } else {
            self.start as int
        }
    }

    /// The release granularity; continuous release is a step of one.
    pub open spec fn step(self) -> int {
        if self.period == 0 {
            1
        } else {
            self.period as int
        }
    }

    /// Whole steps completed at `now` since the gradual release began.
    pub open spec fn periods_elapsed(self, now: int) -> int {
        (now - self.effective_start()) / self.step()
    }

    /// Steps from the beginning of the gradual release to the end, counting
    /// a last partial step as a whole one.
    pub open spec fn periods_total(self) -> int {
        (self.end - self.effective_start() + self.step() - 1) / self.step()
    }

    /// The cumulative amount of a deposit of `amount` released at `now`.
    pub open spec fn unlocked(self, amount: int, now: int) -> int {
        if now <= self.start || (self.has_cliff() && now < self.cliff) {
            0
        } else if now >= self.end {
            amount
        } else {
            self.baseline(amount) + (amount - self.baseline(amount)) * self.periods_elapsed(now)
                / self.periods_total()
        }
    }

    /// The validity check of `valid`.
    pub fn is_valid(&self) -> (r: bool)
        ensures
            r == self.valid(),
    {
        if self.start >= self.end {
            return false;
        }
        if self.cliff != 0 {
            self.start <= self.cliff && self.cliff <= self.end
        } else {
            true
        }
    }

    /// The cumulative amount of a deposit of `amount` released at `now`,
    /// computed with exact integer arithmetic (a wide product, then one
    /// division).
    pub fn unlocked_at(&self, amount: u64, now: u64) -> (r: u64)
        requires
            self.valid(),
        ensures
            r == self.unlocked(amount as int, now as int),
            r <= amount,
    {
        if now <= self.start || (self.cliff != 0 && now < self.cliff) {
            return 0;
        }
        if now >= self.end {
            return amount;
        }
        let (begin, base): (u64, u64) = if self.cliff != 0 {
            (self.cliff, if self.cliff_amount <= amount { self.cliff_amount } else { amount })
        } else {
            (self.start, 0)
        };
        let step: u64 = if self.period == 0 {
            1
        } else {
            self.period
        };
        let elapsed: u64 = now - begin;
        let span: u64 = self.end - begin;
        let done: u128 = (elapsed / step) as u128;
        let total: u128 = (span as u128 + step as u128 - 1) / step as u128;
        let rest: u128 = (amount - base) as u128;
        proof {
            lemma_periods_bounds(*self, now as int);
            assert(rest * done <= 0xffff_ffff_ffff_ffffu128 * 0xffff_ffff_ffff_ffffu128) by {
                lemma_mul_upper_bound(
                    rest as int,
                    0xffff_ffff_ffff_ffff,
                    done as int,
                    0xffff_ffff_ffff_ffff,
                );
            }
            lemma_share_bounds(rest as int, done as int, total as int);
        }
        let share: u128 = rest * done / total;
        (base as u128 + share) as u64
    }
}

/// In the gradual part of a schedule, the completed steps never exceed the
/// total, which is positive.
proof fn lemma_periods_bounds(s: Schedule, now: int)
    requires
        s.start < s.end,
        s.has_cliff() ==> s.start <= s.cliff <= s.end,
        s.start < now < s.end,
        s.has_cliff() ==> s.cliff <= now,
    ensures
        0 <= s.periods_elapsed(now) <= s.periods_total(),
        0 < s.periods_total(),
{
    let d = s.step();
    let span = s.end - s.effective_start();
    let elapsed = now - s.effective_start();
    lemma_div_pos_is_pos(elapsed, d);
    lemma_div_is_ordered(elapsed, span + d - 1, d);
    lemma_div_non_zero(span + d - 1, d);
}

/// A share `done / total` of `rest`, rounded down, lies between nothing and
/// all of it.
proof fn lemma_share_bounds(rest: int, done: int, total: int)
    requires
        0 <= rest,
        0 <= done <= total,
        0 < total,
    ensures
        0 <= rest * done / total <= rest,
{
    lemma_mul_nonnegative(rest, done);
    lemma_div_pos_is_pos(rest * done, total);
    lemma_mul_inequality(done, total, rest);
    assert(done * rest == rest * done) by (nonlinear_arith);
    assert(total * rest == rest * total) by (nonlinear_arith);
    lemma_div_is_ordered(rest * done, rest * total, total);
    lemma_div_by_multiple(rest, total);
}

/// A larger share of the same amount is never smaller.
proof fn lemma_share_monotonic(rest: int, done1: int, done2: int, total: int)
    requires
        0 <= rest,
        0 <= done1 <= done2,
        0 < total,
    ensures
        rest * done1 / total <= rest * done2 / total,
{
    lemma_mul_inequality(done1, done2, rest);
    assert(done1 * rest == rest * done1) by (nonlinear_arith);
    assert(done2 * rest == rest * done2) by (nonlinear_arith);
    lemma_div_is_ordered(rest * done1, rest * done2, total);
}

/// What a valid schedule has released lies between nothing and the whole
/// deposit, at every time.
pub proof fn lemma_unlocked_bounds(s: Schedule, amount: int, now: int)
    requires
        0 <= amount,
        s.valid(),
    ensures
        0 <= s.unlocked(amount, now) <= amount,
{
    if now <= s.start || (s.has_cliff() && now < s.cliff) {
    } else if now >= s.end {
    } else {
        lemma_periods_bounds(s, now);
        lemma_share_bounds(
            amount - s.baseline(amount),
            s.periods_elapsed(now),
            s.periods_total(),
        );
    }
}

/// The cumulative release of a valid schedule never decreases with time.
pub proof fn lemma_unlocked_monotonic(s: Schedule, amount: int, t1: int, t2: int)
    requires
        0 <= amount,
        s.valid(),
        t1 <= t2,
    ensures
        s.unlocked(amount, t1) <= s.unlocked(amount, t2),
{
    lemma_unlocked_bounds(s, amount, t1);
    lemma_unlocked_bounds(s, amount, t2);
    if t1 <= s.start || (s.has_cliff() && t1 < s.cliff) {
    } else if t2 >= s.end {
    } else {
        lemma_periods_bounds(s, t1);
        lemma_periods_bounds(s, t2);
        let d = s.step();
        lemma_div_is_ordered(t1 - s.effective_start(), t2 - s.effective_start(), d);
        lemma_share_monotonic(
            amount - s.baseline(amount),
            s.periods_elapsed(t1),
            s.periods_elapsed(t2),
            s.periods_total(),
        );
    }
}

} // verus!
