//! Collection of staking and trading fees into pools.
use vstd::prelude::*;

use crate::calculator::mul_rate_u;
use crate::errors::{BumpErrorCode, BumpResult};
use crate::math::{abs_to_u, fits_i, fits_u, mul_div_spec, RATE_PRECISION};
use crate::state::infrastructure::fee_reward::FeeReward;
use crate::state::market::Market;
use crate::state::pool::{with_amount, with_unsettle, Pool};

verus! {

/// `pool` with its fee reward's collected fees grown by `fee`.
pub open spec fn with_fee(pool: Pool, fee: int) -> Pool {
    Pool { fee_reward: FeeReward { fee_amount: (pool.fee_reward.fee_amount + fee) as u128, ..pool.fee_reward }, ..pool }
}

/// `pool` with its fee reward's unsettled fees grown by `fee`.
pub open spec fn with_unsettle_fee(pool: Pool, fee: int) -> Pool {
    Pool {
        fee_reward: FeeReward {
            un_settle_fee_amount: (pool.fee_reward.un_settle_fee_amount + fee) as u128,
            ..pool.fee_reward
        },
        ..pool
    }
}

/// Outcome of booking a fee: cross-margin fees are recorded as unsettled,
/// others as collected.
pub open spec fn book_fee_spec(pool: Pool, fee: int, is_portfolio_margin: bool) -> (BumpResult<u128>, Pool) {
    if is_portfolio_margin {
        if fits_u(pool.fee_reward.un_settle_fee_amount + fee) {
            (Ok(fee as u128), with_unsettle_fee(pool, fee))
        } else {
            (Err(BumpErrorCode::MathError), pool)
        }
    } else if fits_u(pool.fee_reward.fee_amount + fee) {
        (Ok(fee as u128), with_fee(pool, fee))
    } else {
        (Err(BumpErrorCode::MathError), pool)
    }
}

/// Outcome of charging `rate` on `amount` as a collected fee.
pub open spec fn rate_fee_spec(pool: Pool, amount: int, rate: int) -> (BumpResult<u128>, Pool) {
    match mul_div_spec(amount, rate, RATE_PRECISION as int) {
        None => (Err(BumpErrorCode::MathError), pool),
        Some(fee) => book_fee_spec(pool, fee, false),
    }
}

/// Outcome of `settle_funding_fee`: a non-positive fee is paid by the pool,
/// a positive one enters it (as unsettled for cross margin); then the fee
/// leaves what the pool is still to receive.
pub open spec fn settle_funding_fee_spec(pool: Pool, fee: int, is_cross: bool) -> (BumpResult, Pool) {
    let err = Err::<(), BumpErrorCode>(BumpErrorCode::MathError);
    if fee == i128::MIN {
        (err, pool)
    } else {
        let abs = if fee < 0 {
            -fee
        } else {
            fee
        };
        let moved: (BumpResult, Pool) = if fee <= 0 {
            if pool.balance.amount < abs {
                (Err(BumpErrorCode::SubPoolAmountBiggerThanAmount), pool)
            } else {
                (Ok(()), with_amount(pool, pool.balance.amount - abs))
            }
        } else if is_cross {
            if fits_u(pool.balance.un_settle_amount + abs) {
                (Ok(()), with_unsettle(pool, pool.balance.un_settle_amount + abs))
            } else {
                (err, pool)
            }
        } else if fits_u(pool.balance.amount + abs) {
            (Ok(()), with_amount(pool, pool.balance.amount + abs))
        } else {
            (err, pool)
        };
        match moved.0 {
            Err(e) => (Err(e), moved.1),
            Ok(_) => {
                let p = moved.1;
                if fee == 0 {
                    (Ok(()), p)
                } else if fits_i(p.balance.settle_funding_fee - fee) {
                    (
                        Ok(()),
                        Pool {
                            balance: crate::state::pool::PoolBalance {
                                settle_funding_fee: (p.balance.settle_funding_fee - fee) as i128,
                                ..p.balance
                            },
                            ..p
                        },
                    )
                } else {
                    (err, p)
                }
            },
        }
    }
}

/// Charges the staking fee on a staked amount; returns the fee.
pub fn charge_staking_fee(stake_pool: &mut Pool, amount: u128) -> (r: BumpResult<u128>)
    ensures
        (r, *final(stake_pool)) == rate_fee_spec(
            *old(stake_pool),
            amount as int,
            old(stake_pool).config.stake_fee_rate as int,
        ),
{
    let fee_amount = mul_rate_u(amount, stake_pool.config.stake_fee_rate as u128)?;
    stake_pool.fee_reward.add_fee_amount(fee_amount)?;
    Ok(fee_amount)
}

/// Charges the unstaking fee on an unstaked amount; returns the fee.
pub fn collect_un_stake_fee(stake_pool: &mut Pool, un_stake_amount: u128) -> (r: BumpResult<u128>)
    ensures
        (r, *final(stake_pool)) == rate_fee_spec(
            *old(stake_pool),
            un_stake_amount as int,
            old(stake_pool).config.un_stake_fee_rate as int,
        ),
{
    let fee_amount = mul_rate_u(un_stake_amount, stake_pool.config.un_stake_fee_rate as u128)?;
    stake_pool.fee_reward.add_fee_amount(fee_amount)?;
    Ok(fee_amount)
}

/// Charges the market's open fee on a position's margin times leverage;
/// returns the fee.
pub fn collect_open_position_fee(
    market: &Market,
    pool: &mut Pool,
    margin: u128,
    is_portfolio_margin: bool,
) -> (r: BumpResult<u128>)
    ensures
        (r, *final(pool)) == (match mul_div_spec(
            margin as int,
            market.config.open_fee_rate as int,
            RATE_PRECISION as int,
        ) {
            None => (Err::<u128, BumpErrorCode>(BumpErrorCode::MathError), *old(pool)),
            Some(fee) => book_fee_spec(*old(pool), fee, is_portfolio_margin),
        }),
{
    let fee_amount = mul_rate_u(margin, market.config.open_fee_rate)?;
    if is_portfolio_margin {
        pool.fee_reward.add_un_settle_amount(fee_amount)?;
    } else {
        pool.fee_reward.add_fee_amount(fee_amount)?;
    }
    Ok(fee_amount)
}

/// Books a close fee; returns it.
pub fn collect_close_position_fee(stake_pool: &mut Pool, fee_amount: u128, is_portfolio_margin: bool) -> (r:
    BumpResult<u128>)
    ensures
        (r, *final(stake_pool)) == book_fee_spec(*old(stake_pool), fee_amount as int, is_portfolio_margin),
{
    if is_portfolio_margin {
        stake_pool.fee_reward.add_un_settle_amount(fee_amount)?;
    } else {
        stake_pool.fee_reward.add_fee_amount(fee_amount)?;
    }
    Ok(fee_amount)
}

/// Books a borrowing fee; returns it.
pub fn collect_borrowing_fee(pool: &mut Pool, fee_amount: u128, is_portfolio_margin: bool) -> (r:
    BumpResult<u128>)
    ensures
        (r, *final(pool)) == book_fee_spec(*old(pool), fee_amount as int, is_portfolio_margin),
{
    if is_portfolio_margin {
        pool.fee_reward.add_un_settle_amount(fee_amount)?;
    } else {
        pool.fee_reward.add_fee_amount(fee_amount)?;
    }
    Ok(fee_amount)
}

/// Settles a funding fee between a trader and the pool (see
/// `settle_funding_fee_spec`).
pub fn settle_funding_fee(pool: &mut Pool, fee_amount: i128, is_cross: bool) -> (r: BumpResult)
    ensures
        (r, *final(pool)) == settle_funding_fee_spec(*old(pool), fee_amount as int, is_cross),
{
    let abs = abs_to_u(fee_amount)?;
    if fee_amount <= 0i128 {
        pool.sub_amount(abs)?;
    } else if is_cross {
        pool.add_unsettle(abs)?;
    } else {
        pool.add_amount(abs)?;
    }
    pool.settle_pool_funding_fee(fee_amount)?;
    Ok(())
}

} // verus!
