//! Borrowing-fee accumulator of a pool.
use vstd::prelude::*;

use crate::calculator::{div_to_precision_u, mul_small_rate_u};
use crate::errors::{BumpErrorCode, BumpResult};
use crate::math::{ck_u, mul_div_spec, safe_add_u, safe_mul_u, safe_sub_u, PER_TOKEN_PRECISION, SMALL_RATE_PRECISION};
use crate::state::infrastructure::market_funding_fee::{funding_durations_spec};
use crate::state::pool::PoolBalance;

verus! {

/// Borrowing-fee state of a pool: totals and the cumulative fee per unit of
/// borrowed amount.
#[derive(Clone, Copy, Debug)]
pub struct BorrowingFee {
    pub total_borrowing_fee: u128,
    pub total_realized_borrowing_fee: u128,
    /// Borrowing fee accrued per unit borrowed since the pool opened
    /// (per-token precision).
    pub cumulative_borrowing_fee_per_token: u128,
    /// Time of the last update (unix seconds); zero before the first one.
    pub updated_at: i64,
}

/// Borrowing fee per second per unit borrowed: the held share of the pool
/// (per-token precision) times the interest rate (small-rate precision).
pub open spec fn borrowing_rate_per_second_spec(
    balance: PoolBalance,
    borrowing_interest_rate: int,
) -> Option<int> {
    match ck_u(balance.amount + balance.un_settle_amount) {
        Some(total) => match mul_div_spec(balance.hold_amount as int, PER_TOKEN_PRECISION as int, total) {
            Some(hold_rate) => mul_div_spec(hold_rate, borrowing_interest_rate, SMALL_RATE_PRECISION as int),
            None => None,
        },
        None => None,
    }
}

/// Outcome of `update_pool_borrowing_fee_rate`: an empty pool resets the
/// accumulator; otherwise it grows by the rate per second times the elapsed
/// seconds. On success the update time becomes `now`; on failure nothing
/// changes.
pub open spec fn borrowing_fee_update_spec(
    f: BorrowingFee,
    balance: PoolBalance,
    borrowing_interest_rate: int,
    now: i64,
) -> (BumpResult, BorrowingFee) {
    let err = Err::<(), BumpErrorCode>(BumpErrorCode::MathError);
    if balance.amount == 0 && balance.un_settle_amount == 0 {
        (Ok(()), BorrowingFee { cumulative_borrowing_fee_per_token: 0, updated_at: now, ..f })
    } else {
        match funding_durations_spec(f.updated_at, now) {
            None => (err, f),
            Some(d) => match borrowing_rate_per_second_spec(balance, borrowing_interest_rate) {
                None => (err, f),
                Some(rate) => match ck_u(rate * (((d as i64) as u128) as int)) {
                    None => (err, f),
                    Some(accrued) => match ck_u(f.cumulative_borrowing_fee_per_token + accrued) {
                        None => (err, f),
                        Some(c) => (
                            Ok(()),
                            BorrowingFee {
                                cumulative_borrowing_fee_per_token: c as u128,
                                updated_at: now,
                                ..f
                            },
                        ),
                    },
                },
            },
        }
    }
}

/// The borrowing rate follows how much of the pool is lent out: nothing
/// held or a zero interest rate gives a zero rate, and holding more of the
/// same pool at the same interest rate never gives a lower one.
pub proof fn lemma_borrowing_rate_follows_hold(
    balance: PoolBalance,
    more_held: u128,
    borrowing_interest_rate: int,
)
    requires
        0 <= borrowing_interest_rate,
        balance.hold_amount <= more_held,
        borrowing_rate_per_second_spec(balance, borrowing_interest_rate) is Some,
        borrowing_rate_per_second_spec(
            PoolBalance { hold_amount: more_held, ..balance },
            borrowing_interest_rate,
        ) is Some,
    ensures
        (balance.hold_amount == 0 || borrowing_interest_rate == 0) ==> borrowing_rate_per_second_spec(
            balance,
            borrowing_interest_rate,
        ) == Some(0int),
        borrowing_rate_per_second_spec(balance, borrowing_interest_rate)->0
            <= borrowing_rate_per_second_spec(
            PoolBalance { hold_amount: more_held, ..balance },
            borrowing_interest_rate,
        )->0,
{
    let total = balance.amount + balance.un_settle_amount;
    let h1 = balance.hold_amount as int;
    let h2 = more_held as int;
    let p = PER_TOKEN_PRECISION as int;
    let sp = SMALL_RATE_PRECISION as int;
    let r = borrowing_interest_rate;
    assert(total > 0);
    let a1 = (h1 * p) / total;
    let a2 = (h2 * p) / total;
    assert(a1 <= a2) by (nonlinear_arith)
        requires
            0 <= h1 <= h2,
            p > 0,
            total > 0,
            a1 == (h1 * p) / total,
            a2 == (h2 * p) / total,
    {
        assert(h1 * p <= h2 * p);
        vstd::arithmetic::div_mod::lemma_div_is_ordered(h1 * p, h2 * p, total);
    }
    assert((a1 * r) / sp <= (a2 * r) / sp) by (nonlinear_arith)
        requires
            0 <= a1 <= a2,
            r >= 0,
            sp > 0,
    {
        assert(a1 * r <= a2 * r);
        vstd::arithmetic::div_mod::lemma_div_is_ordered(a1 * r, a2 * r, sp);
    }
    assert(h1 == 0 ==> a1 == 0) by (nonlinear_arith)
        requires
            total > 0,
            a1 == (h1 * p) / total,
    ;
    assert((a1 == 0 || r == 0) ==> (a1 * r) / sp == 0) by (nonlinear_arith)
        requires
            sp > 0,
    ;
}

/// The borrowing fee accrues linearly in time: from the same state, an
/// update `d` seconds after the last one adds `d` times what an update one
/// second after it adds (the rate per second depends on the pool's balance
/// and the interest rate, not on the time elapsed).
pub proof fn lemma_borrowing_fee_linear_in_time(
    f: BorrowingFee,
    balance: PoolBalance,
    borrowing_interest_rate: int,
    d: int,
)
    requires
        f.updated_at > 0,
        1 <= d,
        f.updated_at + d <= i64::MAX,
        0 <= borrowing_interest_rate,
        !(balance.amount == 0 && balance.un_settle_amount == 0),
        borrowing_fee_update_spec(f, balance, borrowing_interest_rate, (f.updated_at + d) as i64).0 is Ok,
    ensures
        borrowing_fee_update_spec(f, balance, borrowing_interest_rate, (f.updated_at + 1) as i64).0 is Ok,
        borrowing_fee_update_spec(
            f,
            balance,
            borrowing_interest_rate,
            (f.updated_at + d) as i64,
        ).1.cumulative_borrowing_fee_per_token - f.cumulative_borrowing_fee_per_token == d * (
        borrowing_fee_update_spec(
            f,
            balance,
            borrowing_interest_rate,
            (f.updated_at + 1) as i64,
        ).1.cumulative_borrowing_fee_per_token - f.cumulative_borrowing_fee_per_token),
{
    let now1 = (f.updated_at + 1) as i64;
    let nowd = (f.updated_at + d) as i64;
    assert(funding_durations_spec(f.updated_at, now1) == Some(1int));
    assert(funding_durations_spec(f.updated_at, nowd) == Some(d));
    let rate = borrowing_rate_per_second_spec(balance, borrowing_interest_rate)->0;
    assert(rate >= 0);
    assert((((1int as i64) as u128) as int) == 1);
    assert((((d as i64) as u128) as int) == d);
    assert(rate * 1 <= rate * d && d * (rate * 1) == rate * d) by (nonlinear_arith)
        requires
            rate >= 0,
            d >= 1,
    ;
}

/// Outcome of `update_total_borrowing_fee`: the total is moved first, then
/// the realized total; a failing second step leaves the first in place.
pub open spec fn total_borrowing_fee_update_spec(
    f: BorrowingFee,
    borrowing_fee: int,
    is_borrowing_fee_add: bool,
    realized_borrowing_fee: int,
    is_realized_borrowing_fee_add: bool,
) -> (BumpResult, BorrowingFee) {
    let err = Err::<(), BumpErrorCode>(BumpErrorCode::MathError);
    let t = if is_borrowing_fee_add {
        f.total_borrowing_fee + borrowing_fee
    } else {
        f.total_borrowing_fee - borrowing_fee
    };
    match ck_u(t) {
        None => (err, f),
        Some(t) => {
            let f1 = BorrowingFee { total_borrowing_fee: t as u128, ..f };
            let rt = if is_realized_borrowing_fee_add {
                f.total_realized_borrowing_fee + realized_borrowing_fee
            } else {
                f.total_realized_borrowing_fee - realized_borrowing_fee
            };
            match ck_u(rt) {
                None => (err, f1),
                Some(rt) => (Ok(()), BorrowingFee { total_realized_borrowing_fee: rt as u128, ..f1 }),
            }
        },
    }
}

impl BorrowingFee {
    /// Accrues the borrowing fee up to `now` (see `borrowing_fee_update_spec`).
    pub fn update_pool_borrowing_fee_rate(
        &mut self,
        pool_balance: &PoolBalance,
        borrowing_interest_rate: u128,
        now: i64,
    ) -> (r: BumpResult)
        ensures
            (r, *final(self)) == borrowing_fee_update_spec(
                *old(self),
                *pool_balance,
                borrowing_interest_rate as int,
                now,
            ),
    {
        if pool_balance.amount == 0 && pool_balance.un_settle_amount == 0 {
            self.cumulative_borrowing_fee_per_token = 0;
        } else {
            let time_diff = self.get_pool_borrowing_fee_durations(now)?;
            let total_amount = safe_add_u(pool_balance.amount, pool_balance.un_settle_amount)?;
            let hold_rate = div_to_precision_u(
                pool_balance.hold_amount,
                total_amount,
                PER_TOKEN_PRECISION,
            )?;
            let borrowing_fee_rate_per_second = mul_small_rate_u(
                hold_rate,
                borrowing_interest_rate,
            )?;
            let accrued = safe_mul_u(borrowing_fee_rate_per_second, time_diff as u128)?;
            self.cumulative_borrowing_fee_per_token = safe_add_u(
                self.cumulative_borrowing_fee_per_token,
                accrued,
            )?;
        }
        self.updated_at = now;
        Ok(())
    }

    /// Moves the total and the realized total of borrowing fees (see
    /// `total_borrowing_fee_update_spec`).
    pub fn update_total_borrowing_fee(
        &mut self,
        borrowing_fee: u128,
        is_borrowing_fee_add: bool,
        realized_borrowing_fee: u128,
        is_realized_borrowing_fee_add: bool,
    ) -> (r: BumpResult)
        ensures
            (r, *final(self)) == total_borrowing_fee_update_spec(
                *old(self),
                borrowing_fee as int,
                is_borrowing_fee_add,
                realized_borrowing_fee as int,
                is_realized_borrowing_fee_add,
            ),
    {
        if is_borrowing_fee_add {
            self.total_borrowing_fee = safe_add_u(self.total_borrowing_fee, borrowing_fee)?;
        } else {
            self.total_borrowing_fee = safe_sub_u(self.total_borrowing_fee, borrowing_fee)?;
        }
        if is_realized_borrowing_fee_add {
            self.total_realized_borrowing_fee = safe_add_u(
                self.total_realized_borrowing_fee,
                realized_borrowing_fee,
            )?;
        } else {
            self.total_realized_borrowing_fee = safe_sub_u(
                self.total_realized_borrowing_fee,
                realized_borrowing_fee,
            )?;
        }
        Ok(())
    }

    /// Seconds elapsed since the last update (zero before the first one).
    pub fn get_pool_borrowing_fee_durations(&self, now: i64) -> (r: BumpResult<i64>)
        ensures
            r matches Ok(v) ==> funding_durations_spec(self.updated_at, now) == Some(v as int),
            r is Err <==> funding_durations_spec(self.updated_at, now) is None,
            r is Err ==> r == Err::<i64, BumpErrorCode>(BumpErrorCode::MathError),
    {
        if self.updated_at > 0i64 {
            match now.checked_sub(self.updated_at) {
                Some(v) => Ok(v),
                None => Err(BumpErrorCode::MathError),
            }
        } else {
            Ok(0i64)
        }
    }
}

} // verus!
