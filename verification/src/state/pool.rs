//! Liquidity pools: balances, holds, fees and value.
use vstd::prelude::*;

use crate::calculator::{mul_rate_i, mul_rate_u, token_to_usd_i, usd_to_token_i};
use crate::errors::{BumpErrorCode, BumpResult};
use crate::math::{
    abs_to_u, cast_to_i, cast_to_u, ck_div_u, ck_i, ck_u, fits_i, fits_u, mul_div_i_spec,
    mul_div_spec, pow10, pow10_spec, res_u, safe_add_i, safe_add_u, safe_div_u, safe_mul_u,
    safe_sub_i, safe_sub_u, token_to_usd_i_spec, usd_to_token_i_spec, PRICE_TO_USD_PRECISION,
    RATE_PRECISION,
};
use crate::pubkey::{key_eq, Pubkey};
use crate::state::infrastructure::fee_reward::FeeReward;
use crate::state::infrastructure::pool_borrowing_fee::{borrowing_fee_update_spec, BorrowingFee};
use crate::state::market::{lemma_pool_side_sign, market_un_pnl_spec, Market};

verus! {

/// A liquidity pool of one token.
#[derive(Clone, Copy, Debug)]
pub struct Pool {
    pub key: Pubkey,
    pub name: [u8; 32],
    pub pnl: i128,
    pub apr: u128,
    pub insurance_fund_amount: u128,
    pub total_supply: u128,
    pub balance: PoolBalance,
    pub borrowing_fee: BorrowingFee,
    pub fee_reward: FeeReward,
    pub config: PoolConfig,
    pub pool_vault_key: Pubkey,
    pub stable_mint_key: Pubkey,
    pub mint_key: Pubkey,
    pub index: u16,
    pub status: PoolStatus,
    /// The pool holds the stable token that shorts are settled in.
    pub stable: bool,
    /// Number of markets that use the pool.
    pub market_number: u16,
}

/// Staking status of a pool.
#[derive(Clone, Copy, Debug, PartialEq, Eq, Structural)]
pub enum PoolStatus {
    NORMAL,
    StakePaused,
    UnStakePaused,
}

impl Default for PoolStatus {
    fn default() -> (r: Self)
        ensures
            r == PoolStatus::NORMAL,
    {
        PoolStatus::NORMAL
    }
}

/// Token balances of a pool.
#[derive(Clone, Copy, Debug)]
pub struct PoolBalance {
    /// Funding fee the pool is to receive (negative: to pay).
    pub settle_funding_fee: i128,
    pub amount: u128,
    /// Part of the pool lent to open positions.
    pub hold_amount: u128,
    /// Amount owed to the pool by cross-margin accounts, not yet settled.
    pub un_settle_amount: u128,
    pub loss_amount: u128,
}

/// Staking and lending parameters of a pool.
#[derive(Clone, Copy, Debug)]
pub struct PoolConfig {
    pub minimum_stake_amount: u128,
    pub minimum_un_stake_amount: u128,
    /// Share of the pool that may be lent (rate precision); zero means all.
    pub pool_liquidity_limit: u128,
    pub borrowing_interest_rate: u128,
    pub stake_fee_rate: u32,
    pub un_stake_fee_rate: u32,
    pub un_settle_mint_ratio_limit: u32,
}

/// A market together with the prices that valuing a pool against it needs.
#[derive(Clone, Copy, Debug)]
pub struct PoolMarketInput {
    pub market: Market,
    /// Price of the market's index token.
    pub index_price: u128,
    /// Decimals of the market's stable token.
    pub stable_token_decimals: u16,
    /// Price of the market's stable token.
    pub stable_token_price: u128,
}

// ---------------------------------------------------------------------------
// Model
// ---------------------------------------------------------------------------

/// The market belongs to the pool, as its pool or as its stable pool.
pub open spec fn in_pool(pool: Pool, m: Market) -> bool {
    m.pool_key@ == pool.key@ || m.stable_pool_key@ == pool.key@
}

/// Number of the given markets that belong to the pool.
pub open spec fn pool_market_count(pool: Pool, ms: Seq<PoolMarketInput>) -> nat
    decreases ms.len(),
{
    if ms.len() == 0 {
        0
    } else {
        pool_market_count(pool, ms.drop_last()) + (if in_pool(pool, ms.last().market) {
            1nat
        } else {
            0nat
        })
    }
}

/// The shared stable loss of a market (settled and unsettled) in USD.
pub open spec fn stable_loss_value_spec(m: Market, decimals: int, price: int) -> Option<int> {
    if fits_i(m.stable_unsettle_loss as int) {
        match ck_i(m.stable_loss + m.stable_unsettle_loss) {
            Some(loss) => token_to_usd_i_spec(loss, decimals, price),
            None => None,
        }
    } else {
        None
    }
}

/// Pool tokens that can back positions, counting the stable loss shared by
/// each short-sharing market: a stable loss is owed to the stable pool by
/// the other pool.
pub open spec fn liquidity_base_spec(
    pool: Pool,
    ms: Seq<PoolMarketInput>,
    decimals: int,
    price: int,
) -> Option<int>
    decreases ms.len(),
{
    if ms.len() == 0 {
        if fits_i(pool.balance.amount as int) && fits_i(pool.balance.un_settle_amount as int) {
            ck_i(pool.balance.amount + pool.balance.un_settle_amount)
        } else {
            None
        }
    } else {
        match liquidity_base_spec(pool, ms.drop_last(), decimals, price) {
            Some(b) => {
                let m = ms.last();
                if !in_pool(pool, m.market) || !m.market.share_short {
                    Some(b)
                } else {
                    match stable_loss_value_spec(
                        m.market,
                        m.stable_token_decimals as int,
                        m.stable_token_price as int,
                    ) {
                        Some(v) => match usd_to_token_i_spec(v, decimals, price) {
                            Some(t) => ck_i(
                                if !pool.stable {
                                    b + t
                                } else {
                                    b - t
                                },
                            ),
                            None => None,
                        },
                        None => None,
                    }
                }
            },
            None => None,
        }
    }
}

/// Amount the pool can still lend: the lendable share of the base minus
/// what is already held, never below zero.
pub open spec fn available_from_base_spec(pool: Pool, base: int) -> Option<int> {
    if base <= 0 {
        Some(0)
    } else if !fits_i(pool.config.pool_liquidity_limit as int) || !fits_i(
        pool.balance.hold_amount as int,
    ) {
        None
    } else {
        match mul_div_i_spec(base, pool.config.pool_liquidity_limit as int, RATE_PRECISION as int) {
            Some(avail) => if avail > pool.balance.hold_amount {
                Some(avail - pool.balance.hold_amount)
            } else {
                Some(0)
            },
            None => None,
        }
    }
}

/// Result of `get_pool_available_liquidity`.
pub open spec fn available_liquidity_spec(
    pool: Pool,
    ms: Seq<PoolMarketInput>,
    decimals: int,
    price: int,
) -> BumpResult<u128> {
    if pool.market_number != (pool_market_count(pool, ms) as u16) {
        Err(BumpErrorCode::MarketNumberNotEqual2Pool)
    } else {
        match liquidity_base_spec(pool, ms, decimals, price) {
            Some(b) => res_u(available_from_base_spec(pool, b)),
            None => Err(BumpErrorCode::MathError),
        }
    }
}

/// USD value of the pool's own tokens (balance, unsettled and funding).
pub open spec fn own_value_spec(pool: Pool, decimals: int, price: int) -> Option<int> {
    match ck_u(pool.balance.amount + pool.balance.un_settle_amount) {
        Some(a) => if fits_i(a) {
            match ck_i(a + pool.balance.settle_funding_fee) {
                Some(t) => token_to_usd_i_spec(t, decimals, price),
                None => None,
            }
        } else {
            None
        },
        None => None,
    }
}

/// Contribution of one market to the pool's value: a non-stable pool gains
/// the pool side of the long interest (and, when shorts are shared, of the
/// short interest and the shared loss); a stable pool loses the shared loss
/// or gains the pool side of the short interest.
pub open spec fn market_value_step_spec(
    pool: Pool,
    value: int,
    m: PoolMarketInput,
    stable_decimals: int,
    stable_price: int,
) -> Option<int> {
    let mk = m.market;
    let idx = m.index_price as int;
    if !pool.stable {
        match market_un_pnl_spec(mk.long_open_interest, true, idx) {
            Some(long_pnl) => match ck_i(value + long_pnl) {
                Some(v1) => if mk.share_short {
                    match market_un_pnl_spec(mk.short_open_interest, false, idx) {
                        Some(short_pnl) => match ck_i(v1 + short_pnl) {
                            Some(v2) => match stable_loss_value_spec(
                                mk,
                                stable_decimals,
                                stable_price,
                            ) {
                                Some(loss) => ck_i(v2 + loss),
                                None => None,
                            },
                            None => None,
                        },
                        None => None,
                    }
                } else {
                    Some(v1)
                },
                None => None,
            },
            None => None,
        }
    } else if mk.share_short {
        match stable_loss_value_spec(mk, stable_decimals, stable_price) {
            Some(loss) => ck_i(value - loss),
            None => None,
        }
    } else {
        match market_un_pnl_spec(mk.short_open_interest, false, idx) {
            Some(short_pnl) => ck_i(value + short_pnl),
            None => None,
        }
    }
}

/// Pool value accumulated over the markets that belong to the pool.
pub open spec fn pool_value_fold_spec(
    pool: Pool,
    start: int,
    ms: Seq<PoolMarketInput>,
    stable_decimals: int,
    stable_price: int,
) -> Option<int>
    decreases ms.len(),
{
    if ms.len() == 0 {
        Some(start)
    } else {
        match pool_value_fold_spec(pool, start, ms.drop_last(), stable_decimals, stable_price) {
            Some(v) => if in_pool(pool, ms.last().market) {
                market_value_step_spec(pool, v, ms.last(), stable_decimals, stable_price)
            } else {
                Some(v)
            },
            None => None,
        }
    }
}

/// Result of `get_pool_usd_value`: the pool's value in USD, floored at zero.
pub open spec fn pool_usd_value_spec(
    pool: Pool,
    decimals: int,
    price: int,
    stable_decimals: int,
    stable_price: int,
    ms: Seq<PoolMarketInput>,
) -> BumpResult<u128> {
    match own_value_spec(pool, decimals, price) {
        None => Err(BumpErrorCode::MathError),
        Some(start) => if pool.market_number != (pool_market_count(pool, ms) as u16) {
            Err(BumpErrorCode::MarketNumberNotEqual2Pool)
        } else {
            match pool_value_fold_spec(pool, start, ms, stable_decimals, stable_price) {
                Some(v) => if v <= 0 {
                    Ok(0u128)
                } else {
                    Ok(v as u128)
                },
                None => Err(BumpErrorCode::MathError),
            }
        },
    }
}

/// The held amount can grow by `amount`: within the balance (and unsettled
/// amount) when there is no liquidity limit, within its lendable share
/// otherwise.
pub open spec fn hold_allowed_spec(b: PoolBalance, limit: int, amount: int) -> Option<bool> {
    match ck_u(b.amount + b.un_settle_amount) {
        Some(total) => if limit == 0 {
            match ck_u(total - b.hold_amount) {
                Some(free) => Some(free >= amount),
                None => None,
            }
        } else {
            match mul_div_spec(total, limit, RATE_PRECISION as int) {
                Some(lendable) => match ck_u(lendable - b.hold_amount) {
                    Some(free) => Some(free >= amount),
                    None => None,
                },
                None => None,
            }
        },
        None => None,
    }
}

/// Outcome of `hold_pool`.
pub open spec fn hold_pool_spec(pool: Pool, amount: int) -> (BumpResult, Pool) {
    if amount == 0 {
        (Ok(()), pool)
    } else {
        match hold_allowed_spec(pool.balance, pool.config.pool_liquidity_limit as int, amount) {
            None => (Err(BumpErrorCode::MathError), pool),
            Some(false) => (Err(BumpErrorCode::PoolAvailableLiquidityNotEnough), pool),
            Some(true) => if fits_u(pool.balance.hold_amount + amount) {
                (
                    Ok(()),
                    Pool {
                        balance: PoolBalance {
                            hold_amount: (pool.balance.hold_amount + amount) as u128,
                            ..pool.balance
                        },
                        ..pool
                    },
                )
            } else {
                (Err(BumpErrorCode::MathError), pool)
            },
        }
    }
}

/// Outcome of `hold_pool_amount`: the amount must stay below the market's
/// share of the pool's available liquidity (see
/// `available_liquidity_spec`) and within what the pool can lend (see
/// `hold_pool_spec`).
pub open spec fn hold_pool_amount_spec(
    pool: Pool,
    ms: Seq<PoolMarketInput>,
    decimals: int,
    price: int,
    share_rate: int,
    amount: int,
) -> (BumpResult, Pool) {
    match available_liquidity_spec(pool, ms, decimals, price) {
        Err(e) => (Err(e), pool),
        Ok(a) => match mul_div_spec(a as int, share_rate, RATE_PRECISION as int) {
            None => (Err(BumpErrorCode::MathError), pool),
            Some(share) => if amount >= share {
                (Err(BumpErrorCode::PoolAvailableLiquidityNotEnough), pool)
            } else {
                hold_pool_spec(pool, amount)
            },
        },
    }
}

/// `pool` with the balance amount replaced.
pub open spec fn with_amount(pool: Pool, amount: int) -> Pool {
    Pool { balance: PoolBalance { amount: amount as u128, ..pool.balance }, ..pool }
}

/// `pool` with the held amount replaced.
pub open spec fn with_hold(pool: Pool, hold: int) -> Pool {
    Pool { balance: PoolBalance { hold_amount: hold as u128, ..pool.balance }, ..pool }
}

/// `pool` with the unsettled amount replaced.
pub open spec fn with_unsettle(pool: Pool, un_settle: int) -> Pool {
    Pool { balance: PoolBalance { un_settle_amount: un_settle as u128, ..pool.balance }, ..pool }
}

/// Outcome of `update_pnl_and_un_hold_pool_amount` after the hold has been
/// released: a loss of the pool leaves its balance; a profit enters the
/// balance, except the part still owed as a liability by the trader, which
/// becomes unsettled. A stable pool that shares shorts mirrors each move in
/// the market's shared loss. Steps apply in order; a failing step leaves the
/// earlier ones in place.
pub open spec fn pnl_settlement_spec(
    pool: Pool,
    market: Market,
    token_pnl: int,
    user_liability: int,
) -> (BumpResult, Pool, Market) {
    let err = Err::<(), BumpErrorCode>(BumpErrorCode::MathError);
    let mirror = pool.stable && market.share_short;
    if token_pnl < 0 {
        if token_pnl == i128::MIN {
            (err, pool, market)
        } else if pool.balance.amount < -token_pnl {
            (Err(BumpErrorCode::SubPoolAmountBiggerThanAmount), pool, market)
        } else {
            let p1 = with_amount(pool, pool.balance.amount + token_pnl);
            if mirror {
                match ck_i(market.stable_loss + token_pnl) {
                    Some(l) => (Ok(()), p1, Market { stable_loss: l as i128, ..market }),
                    None => (err, p1, market),
                }
            } else {
                (Ok(()), p1, market)
            }
        }
    } else if user_liability == 0 {
        match ck_u(pool.balance.amount + token_pnl) {
            None => (err, pool, market),
            Some(a) => {
                let p1 = with_amount(pool, a);
                if mirror {
                    match ck_i(market.stable_loss + token_pnl) {
                        Some(l) => (Ok(()), p1, Market { stable_loss: l as i128, ..market }),
                        None => (err, p1, market),
                    }
                } else {
                    (Ok(()), p1, market)
                }
            }
        }
    } else {
        let gain = if token_pnl > user_liability {
            token_pnl - user_liability
        } else {
            0
        };
        let owed = if token_pnl > user_liability {
            user_liability
        } else {
            token_pnl
        };
        match ck_u(pool.balance.amount + gain) {
            None => (err, pool, market),
            Some(a) => {
                let p1 = with_amount(pool, a);
                let step2 = if mirror && token_pnl > user_liability {
                    if fits_i(gain) {
                        match ck_i(market.stable_loss + gain) {
                            Some(l) => Some(Market { stable_loss: l as i128, ..market }),
                            None => None,
                        }
                    } else {
                        None
                    }
                } else {
                    Some(market)
                };
                match step2 {
                    None => (err, p1, market),
                    Some(m2) => match ck_u(p1.balance.un_settle_amount + owed) {
                        None => (err, p1, m2),
                        Some(u) => {
                            let p2 = with_unsettle(p1, u);
                            if mirror {
                                match ck_u(m2.stable_unsettle_loss + owed) {
                                    Some(sl) => (
                                        Ok(()),
                                        p2,
                                        Market { stable_unsettle_loss: sl as u128, ..m2 },
                                    ),
                                    None => (err, p2, m2),
                                }
                            } else {
                                (Ok(()), p2, m2)
                            }
                        },
                    },
                }
            },
        }
    }
}

// ---------------------------------------------------------------------------
// Implementation
// ---------------------------------------------------------------------------

impl Pool {
    /// Records the pool's annual percentage rate.
    pub fn set_apr(&mut self, apr: u128) -> (r: BumpResult)
        ensures
            r == Ok::<(), BumpErrorCode>(()),
            *final(self) == (Pool { apr, ..*old(self) }),
    {
        self.apr = apr;
        Ok(())
    }

    /// Adds to the pool's realized profit.
    pub fn add_pnl(&mut self, pool_pnl: i128) -> (r: BumpResult)
        ensures
            fits_i(old(self).pnl + pool_pnl) ==> r == Ok::<(), BumpErrorCode>(()) && *final(self)
                == (Pool { pnl: (old(self).pnl + pool_pnl) as i128, ..*old(self) }),
            !fits_i(old(self).pnl + pool_pnl) ==> r == Err::<(), BumpErrorCode>(
                BumpErrorCode::MathError,
            ) && *final(self) == *old(self),
    {
        self.pnl = safe_add_i(self.pnl, pool_pnl)?;
        Ok(())
    }

    /// Adds tokens to the pool's balance.
    pub fn add_amount(&mut self, amount: u128) -> (r: BumpResult)
        ensures
            fits_u(old(self).balance.amount + amount) ==> r == Ok::<(), BumpErrorCode>(()) && *final(self) == with_amount(*old(self), old(self).balance.amount + amount),
            !fits_u(old(self).balance.amount + amount) ==> r == Err::<(), BumpErrorCode>(
                BumpErrorCode::MathError,
            ) && *final(self) == *old(self),
    {
        self.balance.amount = safe_add_u(self.balance.amount, amount)?;
        Ok(())
    }

    /// Takes tokens from the pool's balance; refuses more than it holds.
    pub fn sub_amount(&mut self, amount: u128) -> (r: BumpResult)
        ensures
            old(self).balance.amount >= amount ==> r == Ok::<(), BumpErrorCode>(()) && *final(self)
                == with_amount(*old(self), old(self).balance.amount - amount),
            old(self).balance.amount < amount ==> r == Err::<(), BumpErrorCode>(
                BumpErrorCode::SubPoolAmountBiggerThanAmount,
            ) && *final(self) == *old(self),
    {
        if self.balance.amount < amount {
            return Err(BumpErrorCode::SubPoolAmountBiggerThanAmount);
        }
        self.balance.amount = safe_sub_u(self.balance.amount, amount)?;
        Ok(())
    }

    /// Adds staked tokens and the shares minted for them. The balance grows
    /// first; if the supply then overflows the balance keeps its growth.
    pub fn add_amount_and_supply(&mut self, amount: u128, supply_amount: u128) -> (r: BumpResult)
        ensures
            !fits_u(old(self).balance.amount + amount) ==> r == Err::<(), BumpErrorCode>(
                BumpErrorCode::MathError,
            ) && *final(self) == *old(self),
            fits_u(old(self).balance.amount + amount) && !fits_u(
                old(self).total_supply + supply_amount,
            ) ==> r == Err::<(), BumpErrorCode>(BumpErrorCode::MathError) && *final(self)
                == with_amount(*old(self), old(self).balance.amount + amount),
            fits_u(old(self).balance.amount + amount) && fits_u(
                old(self).total_supply + supply_amount,
            ) ==> r == Ok::<(), BumpErrorCode>(()) && *final(self) == (Pool {
                total_supply: (old(self).total_supply + supply_amount) as u128,
                ..with_amount(*old(self), old(self).balance.amount + amount)
            }),
    {
        self.balance.amount = safe_add_u(self.balance.amount, amount)?;
        self.total_supply = safe_add_u(self.total_supply, supply_amount)?;
        Ok(())
    }

    /// Removes unstaked tokens and the shares burnt for them. `amount` must
    /// not exceed the balance nor the supply; the balance shrinks first, and
    /// if the supply then underflows the balance keeps its decrease.
    pub fn sub_amount_and_supply(&mut self, amount: u128, supply_amount: u128) -> (r: BumpResult)
        ensures
            (old(self).balance.amount < amount || old(self).total_supply < amount) ==> r == Err::<
                (),
                BumpErrorCode,
            >(BumpErrorCode::SubPoolAmountBiggerThanAmount) && *final(self) == *old(self),
            old(self).balance.amount >= amount && old(self).total_supply >= amount
                && old(self).total_supply < supply_amount ==> r == Err::<(), BumpErrorCode>(
                BumpErrorCode::MathError,
            ) && *final(self) == with_amount(*old(self), old(self).balance.amount - amount),
            old(self).balance.amount >= amount && old(self).total_supply >= amount
                && old(self).total_supply >= supply_amount ==> r == Ok::<(), BumpErrorCode>(())
                && *final(self) == (Pool {
                total_supply: (old(self).total_supply - supply_amount) as u128,
                ..with_amount(*old(self), old(self).balance.amount - amount)
            }),
    {
        if self.balance.amount < amount {
            return Err(BumpErrorCode::SubPoolAmountBiggerThanAmount);
        }
        if self.total_supply < amount {
            return Err(BumpErrorCode::SubPoolAmountBiggerThanAmount);
        }
        self.balance.amount = safe_sub_u(self.balance.amount, amount)?;
        self.total_supply = safe_sub_u(self.total_supply, supply_amount)?;
        Ok(())
    }

    /// Reduces the recorded loss; refused when `amount` exceeds the balance.
    pub fn sub_loss_amount(&mut self, amount: u128) -> (r: BumpResult)
        ensures
            old(self).balance.amount < amount ==> r == Err::<(), BumpErrorCode>(
                BumpErrorCode::AmountNotEnough,
            ) && *final(self) == *old(self),
            old(self).balance.amount >= amount && old(self).balance.loss_amount < amount ==> r
                == Err::<(), BumpErrorCode>(BumpErrorCode::MathError) && *final(self) == *old(self),
            old(self).balance.amount >= amount && old(self).balance.loss_amount >= amount ==> r
                == Ok::<(), BumpErrorCode>(()) && *final(self) == (Pool {
                balance: PoolBalance {
                    loss_amount: (old(self).balance.loss_amount - amount) as u128,
                    ..old(self).balance
                },
                ..*old(self)
            }),
    {
        if self.balance.amount < amount {
            return Err(BumpErrorCode::AmountNotEnough);
        }
        self.balance.loss_amount = safe_sub_u(self.balance.loss_amount, amount)?;
        Ok(())
    }

    /// Releases held tokens; refuses more than is held.
    pub fn un_hold_pool(&mut self, amount: u128) -> (r: BumpResult)
        ensures
            old(self).balance.hold_amount >= amount ==> r == Ok::<(), BumpErrorCode>(()) && *final(self) == with_hold(*old(self), old(self).balance.hold_amount - amount),
            old(self).balance.hold_amount < amount ==> r == Err::<(), BumpErrorCode>(
                BumpErrorCode::SubHoldPoolBiggerThanHold,
            ) && *final(self) == *old(self),
    {
        if self.balance.hold_amount < amount {
            return Err(BumpErrorCode::SubHoldPoolBiggerThanHold);
        }
        self.balance.hold_amount = safe_sub_u(self.balance.hold_amount, amount)?;
        Ok(())
    }

    /// Records an amount owed to the pool that is not settled yet.
    pub fn add_unsettle(&mut self, amount: u128) -> (r: BumpResult)
        ensures
            fits_u(old(self).balance.un_settle_amount + amount) ==> r == Ok::<(), BumpErrorCode>(())
                && *final(self) == with_unsettle(
                *old(self),
                old(self).balance.un_settle_amount + amount,
            ),
            !fits_u(old(self).balance.un_settle_amount + amount) ==> r == Err::<(), BumpErrorCode>(
                BumpErrorCode::MathError,
            ) && *final(self) == *old(self),
    {
        self.balance.un_settle_amount = safe_add_u(self.balance.un_settle_amount, amount)?;
        Ok(())
    }

    /// Settles an unsettled amount: it moves from the unsettled amount into
    /// the balance. Refuses more than is unsettled; if the balance then
    /// overflows, the unsettled amount keeps its decrease.
    pub fn sub_unsettle(&mut self, amount: u128) -> (r: BumpResult)
        ensures
            old(self).balance.un_settle_amount < amount ==> r == Err::<(), BumpErrorCode>(
                BumpErrorCode::PoolSubUnsettleNotEnough,
            ) && *final(self) == *old(self),
            old(self).balance.un_settle_amount >= amount && !fits_u(
                old(self).balance.amount + amount,
            ) ==> r == Err::<(), BumpErrorCode>(BumpErrorCode::MathError) && *final(self)
                == with_unsettle(*old(self), old(self).balance.un_settle_amount - amount),
            old(self).balance.un_settle_amount >= amount && fits_u(
                old(self).balance.amount + amount,
            ) ==> r == Ok::<(), BumpErrorCode>(()) && *final(self) == with_amount(
                with_unsettle(*old(self), old(self).balance.un_settle_amount - amount),
                old(self).balance.amount + amount,
            ),
    {
        if self.balance.un_settle_amount < amount {
            return Err(BumpErrorCode::PoolSubUnsettleNotEnough);
        }
        self.balance.un_settle_amount = safe_sub_u(self.balance.un_settle_amount, amount)?;
        self.balance.amount = safe_add_u(self.balance.amount, amount)?;
        Ok(())
    }

    /// Largest amount that can leave the pool: the balance not held.
    pub fn get_current_max_un_stake(&self) -> (r: BumpResult<u128>)
        ensures
            r == res_u(ck_u(self.balance.amount - self.balance.hold_amount)),
    {
        safe_sub_u(self.balance.amount, self.balance.hold_amount)
    }

    /// Adds to the insurance fund.
    pub fn add_insurance_fund(&mut self, amount: u128) -> (r: BumpResult)
        ensures
            fits_u(old(self).insurance_fund_amount + amount) ==> r == Ok::<(), BumpErrorCode>(())
                && *final(self) == (Pool {
                insurance_fund_amount: (old(self).insurance_fund_amount + amount) as u128,
                ..*old(self)
            }),
            !fits_u(old(self).insurance_fund_amount + amount) ==> r == Err::<(), BumpErrorCode>(
                BumpErrorCode::MathError,
            ) && *final(self) == *old(self),
    {
        self.insurance_fund_amount = safe_add_u(self.insurance_fund_amount, amount)?;
        Ok(())
    }

    /// Accrues the pool's borrowing fee up to `now`.
    pub fn update_pool_borrowing_fee_rate(&mut self, now: i64) -> (r: BumpResult)
        ensures
            ({
                let (er, f) = borrowing_fee_update_spec(
                    old(self).borrowing_fee,
                    old(self).balance,
                    old(self).config.borrowing_interest_rate as int,
                    now,
                );
                r == er && *final(self) == (Pool { borrowing_fee: f, ..*old(self) })
            }),
    {
        let balance = self.balance;
        let rate = self.config.borrowing_interest_rate;
        self.borrowing_fee.update_pool_borrowing_fee_rate(&balance, rate, now)?;
        Ok(())
    }

    /// Adds to the funding fee the pool is to receive.
    pub fn update_pool_funding_fee(&mut self, amount: i128) -> (r: BumpResult)
        ensures
            fits_i(old(self).balance.settle_funding_fee + amount) ==> r == Ok::<(), BumpErrorCode>(
                (),
            ) && *final(self) == (Pool {
                balance: PoolBalance {
                    settle_funding_fee: (old(self).balance.settle_funding_fee + amount) as i128,
                    ..old(self).balance
                },
                ..*old(self)
            }),
            !fits_i(old(self).balance.settle_funding_fee + amount) ==> r == Err::<
                (),
                BumpErrorCode,
            >(BumpErrorCode::MathError) && *final(self) == *old(self),
    {
        self.balance.settle_funding_fee = safe_add_i(self.balance.settle_funding_fee, amount)?;
        Ok(())
    }

    /// Removes a settled funding fee from the amount the pool is to receive.
    pub fn settle_pool_funding_fee(&mut self, amount: i128) -> (r: BumpResult)
        ensures
            fits_i(old(self).balance.settle_funding_fee - amount) ==> r == Ok::<(), BumpErrorCode>(
                (),
            ) && *final(self) == (Pool {
                balance: PoolBalance {
                    settle_funding_fee: (old(self).balance.settle_funding_fee - amount) as i128,
                    ..old(self).balance
                },
                ..*old(self)
            }),
            !fits_i(old(self).balance.settle_funding_fee - amount) ==> r == Err::<
                (),
                BumpErrorCode,
            >(BumpErrorCode::MathError) && *final(self) == *old(self),
    {
        if amount == 0i128 {
            return Ok(());
        }
        self.balance.settle_funding_fee = safe_sub_i(self.balance.settle_funding_fee, amount)?;
        Ok(())
    }

    /// Number of the given markets that belong to the pool.
    fn count_pool_markets(&self, markets: &Vec<PoolMarketInput>) -> (r: usize)
        ensures
            r == pool_market_count(*self, markets@),
    {
        let mut count: usize = 0;
        let mut i: usize = 0;
        while i < markets.len()
            invariant
                i <= markets.len(),
                count == pool_market_count(*self, markets@.subrange(0, i as int)),
                count <= i,
            decreases markets.len() - i,
        {
            let m = &markets[i].market;
            proof {
                assert(markets@.subrange(0, i + 1).drop_last() =~= markets@.subrange(0, i as int));
            }
            if key_eq(&self.key, &m.pool_key) || key_eq(&self.key, &m.stable_pool_key) {
                count = count + 1;
            }
            i = i + 1;
        }
        assert(markets@.subrange(0, markets.len() as int) =~= markets@);
        count
    }

    /// Amount the pool can still lend (see `available_liquidity_spec`):
    /// `markets` are all markets, of which those that use the pool are
    /// counted; `decimals` and `price` are those of the pool's token.
    pub fn get_pool_available_liquidity(
        &self,
        markets: &Vec<PoolMarketInput>,
        decimals: u16,
        price: u128,
    ) -> (r: BumpResult<u128>)
        ensures
            r == available_liquidity_spec(*self, markets@, decimals as int, price as int),
    {
        let count = self.count_pool_markets(markets);
        if self.market_number != (count as u16) {
            return Err(BumpErrorCode::MarketNumberNotEqual2Pool);
        }
        proof {
            assert(markets@.subrange(0, 0) =~= Seq::<PoolMarketInput>::empty());
        }
        let start = match own_liquidity(self) {
            Ok(v) => v,
            Err(e) => {
                proof {
                    lemma_liquidity_base_none_extends(
                        *self,
                        markets@,
                        0,
                        decimals as int,
                        price as int,
                    );
                }
                return Err(e);
            },
        };
        let mut base_token_amount = start;
        let mut i: usize = 0;
        while i < markets.len()
            invariant
                i <= markets.len(),
                liquidity_base_spec(*self, markets@.subrange(0, i as int), decimals as int, price as int)
                    == Some(base_token_amount as int),
                self.market_number == (pool_market_count(*self, markets@) as u16),
            decreases markets.len() - i,
        {
            let input = &markets[i];
            proof {
                assert(markets@.subrange(0, i + 1).drop_last() =~= markets@.subrange(0, i as int));
                assert(markets@.subrange(0, i + 1).last() == markets@[i as int]);
            }
            let m = &input.market;
            if (key_eq(&self.key, &m.pool_key) || key_eq(&self.key, &m.stable_pool_key))
                && m.share_short {
                let unsettle = match cast_to_i(m.stable_unsettle_loss) {
                    Ok(v) => v,
                    Err(e) => {
                        proof {
                            lemma_liquidity_base_none_extends(
                                *self,
                                markets@,
                                i as int + 1,
                                decimals as int,
                                price as int,
                            );
                        }
                        return Err(e);
                    },
                };
                let step = stable_loss_token_amount(
                    m.stable_loss,
                    unsettle,
                    input.stable_token_decimals,
                    input.stable_token_price,
                    decimals,
                    price,
                );
                let t = match step {
                    Ok(t) => t,
                    Err(e) => {
                        proof {
                            lemma_liquidity_base_none_extends(
                                *self,
                                markets@,
                                i as int + 1,
                                decimals as int,
                                price as int,
                            );
                        }
                        return Err(e);
                    },
                };
                let next = if !self.stable {
                    safe_add_i(base_token_amount, t)
                } else {
                    safe_sub_i(base_token_amount, t)
                };
                base_token_amount = match next {
                    Ok(v) => v,
                    Err(e) => {
                        proof {
                            lemma_liquidity_base_none_extends(
                                *self,
                                markets@,
                                i as int + 1,
                                decimals as int,
                                price as int,
                            );
                        }
                        return Err(e);
                    },
                };
            }
            i = i + 1;
        }
        assert(markets@.subrange(0, markets.len() as int) =~= markets@);
        if base_token_amount <= 0i128 {
            return Ok(0u128);
        }
        let limit = cast_to_i(self.config.pool_liquidity_limit)?;
        let available_token_amount = mul_rate_i(base_token_amount, limit)?;
        let hold = cast_to_i(self.balance.hold_amount)?;
        if available_token_amount > hold {
            let d = safe_sub_i(available_token_amount, hold)?;
            cast_to_u(d)
        } else {
            Ok(0u128)
        }
    }

    /// Holds `amount` for a position after checking it against the lendable
    /// liquidity, scaled by the market's maximum share of it.
    pub fn hold_pool_amount(
        &mut self,
        amount: u128,
        markets: &Vec<PoolMarketInput>,
        decimals: u16,
        price: u128,
        max_pool_liquidity_share_rate: u32,
    ) -> (r: BumpResult)
        ensures
            (r, *final(self)) == hold_pool_amount_spec(
                *old(self),
                markets@,
                decimals as int,
                price as int,
                max_pool_liquidity_share_rate as int,
                amount as int,
            ),
    {
        let available = self.get_pool_available_liquidity(markets, decimals, price)?;
        let share = mul_rate_u(available, max_pool_liquidity_share_rate as u128)?;
        if amount >= share {
            return Err(BumpErrorCode::PoolAvailableLiquidityNotEnough);
        }
        self.hold_pool(amount)
    }

    fn hold_pool(&mut self, amount: u128) -> (r: BumpResult)
        ensures
            (r, *final(self)) == hold_pool_spec(*old(self), amount as int),
    {
        if amount == 0u128 {
            return Ok(());
        }
        let allowed = Self::check_hold_allowed(
            &self.balance,
            self.config.pool_liquidity_limit,
            amount,
        )?;
        if !allowed {
            return Err(BumpErrorCode::PoolAvailableLiquidityNotEnough);
        }
        self.balance.hold_amount = safe_add_u(self.balance.hold_amount, amount)?;
        Ok(())
    }

    fn check_hold_allowed(token_balance: &PoolBalance, pool_liquidity_limit: u128, amount: u128) -> (r:
        BumpResult<bool>)
        ensures
            hold_allowed_spec(*token_balance, pool_liquidity_limit as int, amount as int) matches Some(
                b,
            ) ==> r == Ok::<bool, BumpErrorCode>(b),
            hold_allowed_spec(*token_balance, pool_liquidity_limit as int, amount as int) is None
                ==> r == Err::<bool, BumpErrorCode>(BumpErrorCode::MathError),
    {
        let total = safe_add_u(token_balance.amount, token_balance.un_settle_amount)?;
        if pool_liquidity_limit == 0u128 {
            let free = safe_sub_u(total, token_balance.hold_amount)?;
            Ok(free >= amount)
        } else {
            let lendable = mul_rate_u(total, pool_liquidity_limit)?;
            let free = safe_sub_u(lendable, token_balance.hold_amount)?;
            Ok(free >= amount)
        }
    }

    /// USD value of the pool (see `pool_usd_value_spec`): `decimals` and
    /// `price` are those of the pool's token, `stable_decimals` and
    /// `stable_price` those of its stable token.
    pub fn get_pool_usd_value(
        &self,
        decimals: u16,
        price: u128,
        stable_decimals: u16,
        stable_price: u128,
        markets: &Vec<PoolMarketInput>,
    ) -> (r: BumpResult<u128>)
        ensures
            r == pool_usd_value_spec(
                *self,
                decimals as int,
                price as int,
                stable_decimals as int,
                stable_price as int,
                markets@,
            ),
    {
        let total = safe_add_u(self.balance.amount, self.balance.un_settle_amount)?;
        let total_i = cast_to_i(total)?;
        let own = safe_add_i(total_i, self.balance.settle_funding_fee)?;
        let start = token_to_usd_i(own, decimals, price)?;
        let count = self.count_pool_markets(markets);
        if self.market_number != (count as u16) {
            return Err(BumpErrorCode::MarketNumberNotEqual2Pool);
        }
        let mut pool_value = start;
        let mut i: usize = 0;
        while i < markets.len()
            invariant
                i <= markets.len(),
                pool_value_fold_spec(
                    *self,
                    start as int,
                    markets@.subrange(0, i as int),
                    stable_decimals as int,
                    stable_price as int,
                ) == Some(pool_value as int),
                own_value_spec(*self, decimals as int, price as int) == Some(start as int),
                self.market_number == (pool_market_count(*self, markets@) as u16),
            decreases markets.len() - i,
        {
            let input = &markets[i];
            proof {
                assert(markets@.subrange(0, i + 1).drop_last() =~= markets@.subrange(0, i as int));
                assert(markets@.subrange(0, i + 1).last() == markets@[i as int]);
            }
            let m = &input.market;
            if key_eq(&self.key, &m.pool_key) || key_eq(&self.key, &m.stable_pool_key) {
                match self.market_value_step(pool_value, input, stable_decimals, stable_price) {
                    Ok(v) => {
                        pool_value = v;
                    },
                    Err(e) => {
                        proof {
                            lemma_pool_value_none_extends(
                                *self,
                                start as int,
                                markets@,
                                i as int + 1,
                                stable_decimals as int,
                                stable_price as int,
                            );
                        }
                        return Err(e);
                    },
                }
            }
            i = i + 1;
        }
        assert(markets@.subrange(0, markets.len() as int) =~= markets@);
        if pool_value <= 0i128 {
            Ok(0u128)
        } else {
            Ok(pool_value as u128)
        }
    }

    /// One market's contribution to the pool's value.
    fn market_value_step(
        &self,
        value: i128,
        input: &PoolMarketInput,
        stable_decimals: u16,
        stable_price: u128,
    ) -> (r: BumpResult<i128>)
        ensures
            market_value_step_spec(
                *self,
                value as int,
                *input,
                stable_decimals as int,
                stable_price as int,
            ) matches Some(v) ==> r == Ok::<i128, BumpErrorCode>(v as i128) && fits_i(v),
            market_value_step_spec(
                *self,
                value as int,
                *input,
                stable_decimals as int,
                stable_price as int,
            ) is None ==> r == Err::<i128, BumpErrorCode>(BumpErrorCode::MathError),
    {
        let market = &input.market;
        if !self.stable {
            let long_pnl = market.get_market_un_pnl_at(true, input.index_price)?;
            let mut v = safe_add_i(value, long_pnl)?;
            if market.share_short {
                let short_pnl = market.get_market_un_pnl_at(false, input.index_price)?;
                v = safe_add_i(v, short_pnl)?;
                let loss = stable_loss_value(market, stable_decimals, stable_price)?;
                v = safe_add_i(v, loss)?;
            }
            Ok(v)
        } else if market.share_short {
            let loss = stable_loss_value(market, stable_decimals, stable_price)?;
            safe_sub_i(value, loss)
        } else {
            let short_pnl = market.get_market_un_pnl_at(false, input.index_price)?;
            safe_add_i(value, short_pnl)
        }
    }

    /// Price of one pool share: the pool's USD value per share, at price
    /// precision.
    pub fn get_pool_net_price(
        &self,
        decimals: u16,
        price: u128,
        stable_decimals: u16,
        stable_price: u128,
        markets: &Vec<PoolMarketInput>,
    ) -> (r: BumpResult<u128>)
        ensures
            r == pool_net_price_spec(
                *self,
                decimals as int,
                price as int,
                stable_decimals as int,
                stable_price as int,
                markets@,
            ),
    {
        let pool_value = self.get_pool_usd_value(
            decimals,
            price,
            stable_decimals,
            stable_price,
            markets,
        )?;
        let unit = pow10(decimals)?;
        let scaled = safe_mul_u(pool_value, unit)?;
        let per_share = safe_div_u(scaled, self.total_supply)?;
        safe_div_u(per_share, PRICE_TO_USD_PRECISION)
    }

    /// Releases the hold of a closed (part of a) position and books the
    /// pool's profit or loss in tokens (see `pnl_settlement_spec`).
    pub fn update_pnl_and_un_hold_pool_amount(
        &mut self,
        market: &mut Market,
        hold_amount: u128,
        token_pnl: i128,
        user_liability: u128,
    ) -> (r: BumpResult)
        ensures
            old(self).balance.hold_amount < hold_amount ==> r == Err::<(), BumpErrorCode>(
                BumpErrorCode::SubHoldPoolBiggerThanHold,
            ) && *final(self) == *old(self) && *final(market) == *old(market),
            old(self).balance.hold_amount >= hold_amount ==> (r, *final(self), *final(market))
                == pnl_settlement_spec(
                with_hold(*old(self), old(self).balance.hold_amount - hold_amount),
                *old(market),
                token_pnl as int,
                user_liability as int,
            ),
    {
        self.un_hold_pool(hold_amount)?;
        let mirror = self.stable && market.share_short;
        if token_pnl < 0i128 {
            let loss = abs_to_u(token_pnl)?;
            self.sub_amount(loss)?;
            if mirror {
                market.add_stable_loss(token_pnl)?;
            }
        } else if user_liability == 0u128 {
            let gain = cast_to_u(token_pnl)?;
            self.add_amount(gain)?;
            if mirror {
                market.add_stable_loss(token_pnl)?;
            }
        } else {
            let u_token_pnl = abs_to_u(token_pnl)?;
            let gain = if u_token_pnl > user_liability {
                safe_sub_u(u_token_pnl, user_liability)?
            } else {
                0u128
            };
            self.add_amount(gain)?;
            if mirror && u_token_pnl > user_liability {
                let g = cast_to_i(gain)?;
                market.add_stable_loss(g)?;
            }
            let owed = if u_token_pnl > user_liability {
                user_liability
            } else {
                u_token_pnl
            };
            self.add_unsettle(owed)?;
            if mirror {
                market.add_unsettle_stable_loss(owed)?;
            }
        }
        Ok(())
    }
}

/// Result of `get_pool_net_price`: the pool's USD value per share.
pub open spec fn pool_net_price_spec(
    pool: Pool,
    decimals: int,
    price: int,
    stable_decimals: int,
    stable_price: int,
    ms: Seq<PoolMarketInput>,
) -> BumpResult<u128> {
    match pool_usd_value_spec(pool, decimals, price, stable_decimals, stable_price, ms) {
        Err(e) => Err(e),
        Ok(value) => res_u(net_price_spec(value as int, decimals, pool.total_supply as int)),
    }
}

/// Price of one share: `value * 10^decimals / supply / PRICE_TO_USD_PRECISION`.
pub open spec fn net_price_spec(value: int, decimals: int, supply: int) -> Option<int> {
    match pow10_spec(decimals) {
        Some(unit) => match ck_u(value * unit) {
            Some(scaled) => match ck_div_u(scaled, supply) {
                Some(per_share) => ck_div_u(per_share, PRICE_TO_USD_PRECISION as int),
                None => None,
            },
            None => None,
        },
        None => None,
    }
}

/// The pool's own tokens, balance plus unsettled, as a signed amount.
fn own_liquidity(pool: &Pool) -> (r: BumpResult<i128>)
    ensures
        liquidity_base_spec(*pool, Seq::<PoolMarketInput>::empty(), 0, 0) matches Some(v) ==> r
            == Ok::<i128, BumpErrorCode>(v as i128),
        liquidity_base_spec(*pool, Seq::<PoolMarketInput>::empty(), 0, 0) is None ==> r == Err::<
            i128,
            BumpErrorCode,
        >(BumpErrorCode::MathError),
{
    let a = cast_to_i(pool.balance.amount)?;
    let u = cast_to_i(pool.balance.un_settle_amount)?;
    safe_add_i(a, u)
}

/// The shared stable loss of a market in USD.
fn stable_loss_value(market: &Market, decimals: u16, price: u128) -> (r: BumpResult<i128>)
    ensures
        stable_loss_value_spec(*market, decimals as int, price as int) matches Some(v) ==> r
            == Ok::<i128, BumpErrorCode>(v as i128) && fits_i(v),
        stable_loss_value_spec(*market, decimals as int, price as int) is None ==> r == Err::<
            i128,
            BumpErrorCode,
        >(BumpErrorCode::MathError),
{
    let unsettle = cast_to_i(market.stable_unsettle_loss)?;
    let loss = safe_add_i(market.stable_loss, unsettle)?;
    token_to_usd_i(loss, decimals, price)
}

/// Pool tokens worth the shared stable loss `stable_loss + unsettle`.
fn stable_loss_token_amount(
    stable_loss: i128,
    unsettle: i128,
    stable_decimals: u16,
    stable_price: u128,
    decimals: u16,
    price: u128,
) -> (r: BumpResult<i128>)
    ensures
        ({
            let o = match ck_i(stable_loss + unsettle) {
                Some(loss) => match token_to_usd_i_spec(
                    loss,
                    stable_decimals as int,
                    stable_price as int,
                ) {
                    Some(v) => usd_to_token_i_spec(v, decimals as int, price as int),
                    None => None,
                },
                None => None,
            };
            &&& o matches Some(t) ==> r == Ok::<i128, BumpErrorCode>(t as i128) && fits_i(t)
            &&& o is None ==> r == Err::<i128, BumpErrorCode>(BumpErrorCode::MathError)
        }),
{
    let loss = safe_add_i(stable_loss, unsettle)?;
    let value = token_to_usd_i(loss, stable_decimals, stable_price)?;
    usd_to_token_i(value, decimals, price)
}

/// Once the running base fails on a prefix, it fails on every longer one.
proof fn lemma_liquidity_base_none_extends(
    pool: Pool,
    ms: Seq<PoolMarketInput>,
    k: int,
    decimals: int,
    price: int,
)
    requires
        0 <= k <= ms.len(),
        liquidity_base_spec(pool, ms.subrange(0, k), decimals, price) is None,
    ensures
        liquidity_base_spec(pool, ms, decimals, price) is None,
    decreases ms.len() - k,
{
    if k < ms.len() {
        assert(ms.subrange(0, k + 1).drop_last() =~= ms.subrange(0, k));
        lemma_liquidity_base_none_extends(pool, ms, k + 1, decimals, price);
    } else {
        assert(ms.subrange(0, k) =~= ms);
    }
}

/// Once the running value fails on a prefix, it fails on every longer one.
proof fn lemma_pool_value_none_extends(
    pool: Pool,
    start: int,
    ms: Seq<PoolMarketInput>,
    k: int,
    stable_decimals: int,
    stable_price: int,
)
    requires
        0 <= k <= ms.len(),
        pool_value_fold_spec(pool, start, ms.subrange(0, k), stable_decimals, stable_price) is None,
    ensures
        pool_value_fold_spec(pool, start, ms, stable_decimals, stable_price) is None,
    decreases ms.len() - k,
{
    if k < ms.len() {
        assert(ms.subrange(0, k + 1).drop_last() =~= ms.subrange(0, k));
        lemma_pool_value_none_extends(pool, start, ms, k + 1, stable_decimals, stable_price);
    } else {
        assert(ms.subrange(0, k) =~= ms);
    }
}

/// A market moves a pool's value against its traders: for a non-stable
/// pool whose market does not share shorts, a mark price at or above the
/// longs' entry leaves the pool worth no more than before the market is
/// counted, and a price at or below it no less; for a stable pool taking
/// the short side, a mark price at or below the shorts' entry leaves it
/// worth no more, and at or above no less.
pub proof fn lemma_market_value_against_traders(
    pool: Pool,
    value: int,
    m: PoolMarketInput,
    stable_decimals: int,
    stable_price: int,
)
    requires
        !m.market.share_short,
        market_value_step_spec(pool, value, m, stable_decimals, stable_price) is Some,
    ensures
        ({
            let v = market_value_step_spec(pool, value, m, stable_decimals, stable_price)->0;
            let idx = m.index_price as int;
            let le = m.market.long_open_interest.entry_price as int;
            let se = m.market.short_open_interest.entry_price as int;
            &&& !pool.stable && idx >= le ==> v <= value
            &&& !pool.stable && idx <= le ==> v >= value
            &&& pool.stable && idx <= se ==> v <= value
            &&& pool.stable && idx >= se ==> v >= value
        }),
{
    let idx = m.index_price as int;
    if !pool.stable {
        lemma_pool_side_sign(m.market.long_open_interest, true, idx);
    } else {
        lemma_pool_side_sign(m.market.short_open_interest, false, idx);
    }
}

/// Settling an unsettled amount keeps what the pool is owed in total: the
/// balance plus the unsettled amount is unchanged.
pub proof fn lemma_sub_unsettle_conserves(before: Pool, amount: u128)
    requires
        before.balance.un_settle_amount >= amount,
        fits_u(before.balance.amount + amount),
    ensures
        ({
            let after = with_amount(
                with_unsettle(before, before.balance.un_settle_amount - amount),
                before.balance.amount + amount,
            );
            after.balance.amount + after.balance.un_settle_amount == before.balance.amount
                + before.balance.un_settle_amount
        }),
{
}

/// Holding and then releasing the same amount gives back the held amount.
pub proof fn lemma_hold_then_un_hold_restores(pool: Pool, amount: u128)
    requires
        hold_pool_spec(pool, amount as int).0 is Ok,
    ensures
        ({
            let held = hold_pool_spec(pool, amount as int).1;
            held.balance.hold_amount >= amount && with_hold(
                held,
                held.balance.hold_amount - amount,
            ) == pool
        }),
{
}

} // verus!
