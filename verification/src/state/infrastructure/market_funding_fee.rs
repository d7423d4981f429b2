//! Funding-fee accumulators of a market.
use vstd::prelude::*;

use crate::errors::{BumpErrorCode, BumpResult};
use crate::math::{ck_div_i, ck_i, safe_add_i, safe_div_i, safe_mul_i, SMALL_RATE_TO_PER_TOKEN_PRECISION};

verus! {

/// Funding-fee state of a market: what each unit of long or short size has
/// paid since the market opened, the totals, and the latest hourly rates.
#[derive(Clone, Copy, Debug)]
pub struct MarketFundingFee {
    /// Funding paid per unit of long size (per-token precision).
    pub long_funding_fee_amount_per_size: i128,
    /// Funding paid per unit of short size (per-token precision).
    pub short_funding_fee_amount_per_size: i128,
    pub total_long_funding_fee: i128,
    pub total_short_funding_fee: i128,
    pub long_funding_fee_rate: i128,
    pub short_funding_fee_rate: i128,
    /// Time of the last update (unix seconds); zero before the first one.
    pub updated_at: i64,
}

/// Hourly rate (small-rate precision) of a per-size delta accrued over
/// `fee_durations` seconds: `delta * 3600 / fee_durations / 10^8`.
pub open spec fn hourly_rate_spec(delta: int, fee_durations: int) -> Option<int> {
    match ck_i(delta * 3600) {
        Some(a) => match ck_div_i(a, fee_durations) {
            Some(b) => ck_div_i(b, SMALL_RATE_TO_PER_TOKEN_PRECISION as int),
            None => None,
        },
        None => None,
    }
}

/// Outcome of `update_market_funding_fee_rate`: the result and the state it
/// leaves. The accumulators are advanced first, then the rates are written,
/// then the update time; a failing step leaves the earlier writes in place.
pub open spec fn funding_fee_update_spec(
    f: MarketFundingFee,
    short_delta: int,
    long_delta: int,
    fee_durations: int,
    now: i64,
) -> (BumpResult, MarketFundingFee) {
    let err = Err::<(), BumpErrorCode>(BumpErrorCode::MathError);
    match ck_i(short_delta + f.short_funding_fee_amount_per_size) {
        None => (err, f),
        Some(s) => {
            let f1 = MarketFundingFee { short_funding_fee_amount_per_size: s as i128, ..f };
            match ck_i(long_delta + f.long_funding_fee_amount_per_size) {
                None => (err, f1),
                Some(l) => {
                    let f2 = MarketFundingFee { long_funding_fee_amount_per_size: l as i128, ..f1 };
                    match hourly_rate_spec(long_delta, fee_durations) {
                        None => (err, f2),
                        Some(lr) => {
                            let f3 = MarketFundingFee { long_funding_fee_rate: lr as i128, ..f2 };
                            match hourly_rate_spec(short_delta, fee_durations) {
                                None => (err, f3),
                                Some(sr) => (
                                    Ok(()),
                                    MarketFundingFee {
                                        short_funding_fee_rate: sr as i128,
                                        updated_at: now,
                                        ..f3
                                    },
                                ),
                            }
                        },
                    }
                },
            }
        },
    }
}

/// Seconds since the last update, or zero before the first update.
pub open spec fn funding_durations_spec(updated_at: i64, now: i64) -> Option<int> {
    if updated_at > 0 {
        ck_i64(now - updated_at)
    } else {
        Some(0)
    }
}

/// Checked `i64` result.
pub open spec fn ck_i64(x: int) -> Option<int> {
    if i64::MIN <= x <= i64::MAX {
        Some(x)
    } else {
        None
    }
}

/// Hourly rate of a per-size delta (see `hourly_rate_spec`).
fn hourly_rate(delta: i128, fee_durations: i64) -> (r: BumpResult<i128>)
    ensures
        r matches Ok(v) ==> hourly_rate_spec(delta as int, fee_durations as int) == Some(
            v as int,
        ),
        r is Err <==> hourly_rate_spec(delta as int, fee_durations as int) is None,
        r is Err ==> r == Err::<i128, BumpErrorCode>(BumpErrorCode::MathError),
{
    let a = safe_mul_i(delta, 3600i128)?;
    let b = safe_div_i(a, fee_durations as i128)?;
    safe_div_i(b, 100_000_000i128)
}

impl MarketFundingFee {
    /// Records `now` as the time of the last update.
    pub fn update_last_update(&mut self, now: i64) -> (r: BumpResult)
        ensures
            r == Ok::<(), BumpErrorCode>(()),
            *final(self) == (MarketFundingFee { updated_at: now, ..*old(self) }),
    {
        self.updated_at = now;
        Ok(())
    }

    /// Advances the per-size accumulators by the given deltas, records the
    /// hourly rates they amount to over `fee_durations` seconds, and the
    /// update time (see `funding_fee_update_spec`).
    pub fn update_market_funding_fee_rate(
        &mut self,
        short_funding_fee_amount_per_size_delta: i128,
        long_funding_fee_amount_per_size_delta: i128,
        fee_durations: i64,
        now: i64,
    ) -> (r: BumpResult)
        ensures
            (r, *final(self)) == funding_fee_update_spec(
                *old(self),
                short_funding_fee_amount_per_size_delta as int,
                long_funding_fee_amount_per_size_delta as int,
                fee_durations as int,
                now,
            ),
    {
        self.short_funding_fee_amount_per_size = safe_add_i(
            short_funding_fee_amount_per_size_delta,
            self.short_funding_fee_amount_per_size,
        )?;
        self.long_funding_fee_amount_per_size = safe_add_i(
            long_funding_fee_amount_per_size_delta,
            self.long_funding_fee_amount_per_size,
        )?;
        self.long_funding_fee_rate = hourly_rate(
            long_funding_fee_amount_per_size_delta,
            fee_durations,
        )?;
        self.short_funding_fee_rate = hourly_rate(
            short_funding_fee_amount_per_size_delta,
            fee_durations,
        )?;
        self.update_last_update(now)?;
        Ok(())
    }

    /// Seconds elapsed since the last update (zero before the first one).
    pub fn get_market_funding_fee_durations(&self, now: i64) -> (r: BumpResult<i64>)
        ensures
            r matches Ok(v) ==> funding_durations_spec(self.updated_at, now) == Some(v as int),
            r is Err <==> funding_durations_spec(self.updated_at, now) is None,
            r is Err ==> r == Err::<i64, BumpErrorCode>(BumpErrorCode::MathError),
    {
        if self.updated_at > 0i64 {
            match now.checked_sub(self.updated_at) {
                Some(v) => Ok(v),
                None => Err(BumpErrorCode::MathError),
            }
        } else {
            Ok(0i64)
        }
    }
}

} // verus!
