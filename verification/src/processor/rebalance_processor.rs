//! Keeper rebalancing: settling a pool's unsettled amounts out of the trade
//! token's vault, and settling a market's stable loss between its pool and
//! its stable pool through a keeper.
use vstd::prelude::*;

use crate::calculator::{token_to_usd_u, usd_to_token_u};
use crate::errors::{BumpErrorCode, BumpResult};
use crate::math::{abs_to_u, fits_i, fits_u, res_u, safe_sub_u, token_to_usd_spec, usd_to_token_spec};
use crate::processor::position_processor::TokenTransfer;
use crate::pubkey::key_eq;
use crate::state::infrastructure::fee_reward::FeeReward;
use crate::state::lookup::TokenPrice;
use crate::state::market::Market;
use crate::state::pool::{in_pool, with_amount, with_unsettle, Pool};
use crate::state::trade_token::TradeToken;

verus! {

/// A market whose unsettled stable loss can be settled.
pub open spec fn settles_stable_loss(pool: Pool, m: Market) -> bool {
    in_pool(pool, m) && m.share_short && m.stable_unsettle_loss != 0
}

/// Number of the markets that belong to the pool.
pub open spec fn market_count(pool: Pool, ms: Seq<Market>) -> nat
    decreases ms.len(),
{
    if ms.len() == 0 {
        0
    } else {
        market_count(pool, ms.drop_last()) + (if in_pool(pool, ms.last()) {
            1nat
        } else {
            0nat
        })
    }
}

/// The market, from `i` on, whose unsettled stable loss a settlement of
/// `transfer` tokens clears: the first market of the pool that shares
/// shorts and has an unsettled loss takes the whole transfer, and succeeds
/// only when its unsettled loss is exactly the transfer; no market is
/// touched when nothing is transferred.
pub open spec fn unsettle_target(ms: Seq<Market>, pool: Pool, i: int, transfer: int) -> Result<
    Option<int>,
    BumpErrorCode,
>
    decreases ms.len() - i,
{
    if i < 0 || i >= ms.len() {
        Ok(None)
    } else if !settles_stable_loss(pool, ms[i]) {
        unsettle_target(ms, pool, i + 1, transfer)
    } else if transfer == 0 {
        Ok(None)
    } else if ms[i].stable_unsettle_loss == transfer {
        Ok(Some(i))
    } else {
        Err(BumpErrorCode::MathError)
    }
}

/// The pool after its unsettled fees were settled into its fees.
pub open spec fn fees_settled(pool: Pool) -> Option<Pool> {
    let fee = pool.fee_reward.un_settle_fee_amount;
    if fee == 0 {
        Some(pool)
    } else if fits_u(pool.fee_reward.fee_amount + fee) {
        Some(
            Pool {
                fee_reward: FeeReward {
                    un_settle_fee_amount: 0,
                    fee_amount: (pool.fee_reward.fee_amount + fee) as u128,
                    ..pool.fee_reward
                },
                ..pool
            },
        )
    } else {
        None
    }
}

/// Outcome of `rebalance_pool_unsettle`: the pool, the index of the market
/// whose unsettled stable loss is cleared, and the unsettled fees and the
/// unsettled amount (what exceeds the token's liability) that move from the
/// trade token's vault to the pool's vault. The settled amount enters the
/// balance twice: once as it leaves the unsettled amount and once more.
pub open spec fn rebalance_unsettle_spec(pool: Pool, liability: int, ms: Seq<Market>) -> Result<
    (Pool, Option<int>, u128, u128),
    BumpErrorCode,
> {
    match fees_settled(pool) {
        None => Err(BumpErrorCode::MathError),
        Some(p1) => if p1.balance.un_settle_amount < liability {
            Err(BumpErrorCode::PoolUnsettleSmallThanTokenLiability)
        } else {
            let t = p1.balance.un_settle_amount - liability;
            if !fits_u(p1.balance.amount + t) || !fits_u(p1.balance.amount + 2 * t) {
                Err(BumpErrorCode::MathError)
            } else {
                let p2 = with_amount(with_unsettle(p1, liability), p1.balance.amount + 2 * t);
                let fee = pool.fee_reward.un_settle_fee_amount;
                if !pool.stable {
                    Ok((p2, None, fee, t as u128))
                } else if pool.market_number != (market_count(pool, ms) as u16) {
                    Err(BumpErrorCode::MarketNumberNotEqual2Pool)
                } else {
                    match unsettle_target(ms, pool, 0, t) {
                        Err(e) => Err(e),
                        Ok(j) => Ok((p2, j, fee, t as u128)),
                    }
                }
            }
        },
    }
}

/// The markets with the unsettled stable loss of market `j` (if any) cleared.
pub open spec fn cleared_at(ms: Seq<Market>, j: Option<int>) -> Seq<Market> {
    match j {
        None => ms,
        Some(k) => ms.update(k, Market { stable_unsettle_loss: 0, ..ms[k] }),
    }
}

/// Settles the pool's unsettled fees and unsettled amount (beyond what the
/// token's holders owe) from the trade token's vault; for a stable pool the
/// settlement also clears the unsettled stable loss of a market (see
/// `unsettle_target`). `markets` are all markets. Returns the two
/// transfers into the pool's vault (see `rebalance_unsettle_spec`). On
/// failure nothing changes.
pub fn rebalance_pool_unsettle(
    pool: &mut Pool,
    trade_token: &TradeToken,
    markets: &mut Vec<Market>,
) -> (r: BumpResult<(TokenTransfer, TokenTransfer)>)
    ensures
        match rebalance_unsettle_spec(*old(pool), trade_token.total_liability as int, old(markets)@) {
            Err(e) => r == Err::<(TokenTransfer, TokenTransfer), BumpErrorCode>(e) && *final(pool)
                == *old(pool) && final(markets)@ == old(markets)@,
            Ok((p, j, fee, t)) => r == Ok::<(TokenTransfer, TokenTransfer), BumpErrorCode>(
                (
                    if fee > 0 {
                        TokenTransfer::TokenVaultToPool(fee)
                    } else {
                        TokenTransfer::NoTransfer
                    },
                    TokenTransfer::TokenVaultToPool(t),
                ),
            ) && *final(pool) == p && final(markets)@ == cleared_at(old(markets)@, j),
        },
{
    let mut p = *pool;
    let fee_reward_unsettle = p.fee_reward.un_settle_fee_amount;
    if fee_reward_unsettle > 0u128 {
        p.fee_reward.sub_un_settle_amount(fee_reward_unsettle)?;
        p.fee_reward.add_fee_amount(fee_reward_unsettle)?;
    }
    if !(p.balance.un_settle_amount >= trade_token.total_liability) {
        return Err(BumpErrorCode::PoolUnsettleSmallThanTokenLiability);
    }
    let transfer_amount = safe_sub_u(p.balance.un_settle_amount, trade_token.total_liability)?;
    p.sub_unsettle(transfer_amount)?;
    p.add_amount(transfer_amount)?;
    proof {
        assert(market_count(p, markets@) == market_count(*old(pool), markets@)) by {
            lemma_market_count_key(p, *old(pool), markets@);
        }
        lemma_unsettle_target_key(p, *old(pool), markets@, 0, transfer_amount as int);
    }
    let mut target: Option<usize> = None;
    if p.stable {
        let count = count_markets(&p, markets);
        if p.market_number != (count as u16) {
            return Err(BumpErrorCode::MarketNumberNotEqual2Pool);
        }
        target = find_unsettle_target(&p, markets, transfer_amount)?;
    }
    if let Some(k) = target {
        let mut m = markets[k];
        m.stable_unsettle_loss = 0u128;
        markets.set(k, m);
    }
    *pool = p;
    let first = if fee_reward_unsettle > 0u128 {
        TokenTransfer::TokenVaultToPool(fee_reward_unsettle)
    } else {
        TokenTransfer::NoTransfer
    };
    Ok((first, TokenTransfer::TokenVaultToPool(transfer_amount)))
}

/// Market counts depend on the pool's key alone.
proof fn lemma_market_count_key(p: Pool, q: Pool, ms: Seq<Market>)
    requires
        p.key == q.key,
    ensures
        market_count(p, ms) == market_count(q, ms),
    decreases ms.len(),
{
    if ms.len() > 0 {
        lemma_market_count_key(p, q, ms.drop_last());
    }
}

/// The settled market depends on the pool's key alone.
proof fn lemma_unsettle_target_key(p: Pool, q: Pool, ms: Seq<Market>, i: int, transfer: int)
    requires
        p.key == q.key,
    ensures
        unsettle_target(ms, p, i, transfer) == unsettle_target(ms, q, i, transfer),
    decreases ms.len() - i,
{
    if 0 <= i < ms.len() {
        lemma_unsettle_target_key(p, q, ms, i + 1, transfer);
    }
}

/// Number of the markets that belong to the pool.
fn count_markets(pool: &Pool, markets: &Vec<Market>) -> (r: usize)
    ensures
        r == market_count(*pool, markets@),
{
    let mut count: usize = 0;
    let mut i: usize = 0;
    while i < markets.len()
        invariant
            i <= markets.len(),
            count == market_count(*pool, markets@.subrange(0, i as int)),
            count <= i,
        decreases markets.len() - i,
    {
        proof {
            assert(markets@.subrange(0, i + 1).drop_last() =~= markets@.subrange(0, i as int));
        }
        let m = &markets[i];
        if key_eq(&pool.key, &m.pool_key) || key_eq(&pool.key, &m.stable_pool_key) {
            count = count + 1;
        }
        i = i + 1;
    }
    assert(markets@.subrange(0, markets.len() as int) =~= markets@);
    count
}

/// The market whose unsettled stable loss the settlement clears (see
/// `unsettle_target`).
fn find_unsettle_target(pool: &Pool, markets: &Vec<Market>, transfer: u128) -> (r: BumpResult<
    Option<usize>,
>)
    ensures
        match unsettle_target(markets@, *pool, 0, transfer as int) {
            Err(e) => r == Err::<Option<usize>, BumpErrorCode>(e),
            Ok(None) => r == Ok::<Option<usize>, BumpErrorCode>(None),
            Ok(Some(k)) => r == Ok::<Option<usize>, BumpErrorCode>(Some(k as usize)) && 0 <= k
                < markets.len(),
        },
{
    let mut i: usize = 0;
    while i < markets.len()
        invariant
            i <= markets.len(),
            unsettle_target(markets@, *pool, 0, transfer as int) == unsettle_target(
                markets@,
                *pool,
                i as int,
                transfer as int,
            ),
        decreases markets.len() - i,
    {
        let m = &markets[i];
        let in_this_pool = key_eq(&pool.key, &m.pool_key) || key_eq(&pool.key, &m.stable_pool_key);
        if in_this_pool && m.share_short && m.stable_unsettle_loss != 0u128 {
            if transfer == 0u128 {
                return Ok(None);
            }
            if m.stable_unsettle_loss == transfer {
                return Ok(Some(i));
            }
            return Err(BumpErrorCode::MathError);
        }
        i = i + 1;
    }
    Ok(None)
}

/// Token movements of a stable-loss rebalance between the keeper and the
/// vaults of a market's pool and stable pool.
#[derive(Clone, Copy, Debug, PartialEq, Eq, Structural)]
pub enum StableLossSwap {
    /// The keeper pays `pool_tokens` into the pool's vault and receives
    /// `stable_tokens` from the stable pool's vault.
    KeeperBuysStable { pool_tokens: u128, stable_tokens: u128 },
    /// The keeper pays `stable_tokens` into the stable pool's vault and
    /// receives `pool_tokens` from the pool's vault.
    KeeperSellsStable { pool_tokens: u128, stable_tokens: u128 },
}

/// Outcome of `rebalance_market_stable_loss`: the stable loss is valued in
/// pool tokens at the two prices; a positive loss is bought by the keeper
/// with pool tokens (and the loss is added to itself), a negative one is
/// sold to the keeper for pool tokens (and cleared).
pub open spec fn stable_loss_rebalance_spec(
    m: Market,
    pool: Pool,
    token: TokenPrice,
    stable_token: TokenPrice,
) -> Result<(Market, Pool, StableLossSwap), BumpErrorCode> {
    let loss = m.stable_loss as int;
    let abs = if loss > 0 {
        loss
    } else {
        -loss
    };
    if loss == 0 {
        Err(BumpErrorCode::RebalanceMarketStableLossIgnore)
    } else if !fits_i(abs) {
        Err(BumpErrorCode::MathError)
    } else {
        match res_u(
            token_to_usd_spec(abs, stable_token.trade_token.decimals as int, stable_token.price as int),
        ) {
            Err(e) => Err(e),
            Ok(value) => match res_u(
                usd_to_token_spec(value as int, token.trade_token.decimals as int, token.price as int),
            ) {
                Err(e) => Err(e),
                Ok(amount) => if loss > 0 {
                    if !fits_u(pool.balance.amount + amount) || !fits_i(loss + abs) {
                        Err(BumpErrorCode::MathError)
                    } else {
                        Ok(
                            (
                                Market { stable_loss: (loss + abs) as i128, ..m },
                                with_amount(pool, pool.balance.amount + amount),
                                StableLossSwap::KeeperBuysStable {
                                    pool_tokens: amount,
                                    stable_tokens: abs as u128,
                                },
                            ),
                        )
                    }
                } else if pool.balance.amount < amount {
                    Err(BumpErrorCode::SubPoolAmountBiggerThanAmount)
                } else {
                    Ok(
                        (
                            Market { stable_loss: 0, ..m },
                            with_amount(pool, pool.balance.amount - amount),
                            StableLossSwap::KeeperSellsStable {
                                pool_tokens: amount,
                                stable_tokens: abs as u128,
                            },
                        ),
                    )
                },
            },
        }
    }
}

/// Settles the market's stable loss between its pool and the stable pool
/// through the keeper (see `stable_loss_rebalance_spec`); `token` and
/// `stable_token` are the two pools' tokens with their prices. Returns the
/// keeper's swap. On failure nothing changes.
pub fn rebalance_market_stable_loss(
    market: &mut Market,
    pool: &mut Pool,
    token: &TokenPrice,
    stable_token: &TokenPrice,
) -> (r: BumpResult<StableLossSwap>)
    ensures
        match stable_loss_rebalance_spec(*old(market), *old(pool), *token, *stable_token) {
            Err(e) => r == Err::<StableLossSwap, BumpErrorCode>(e) && *final(market) == *old(market)
                && *final(pool) == *old(pool),
            Ok((m, p, swap)) => r == Ok::<StableLossSwap, BumpErrorCode>(swap) && *final(market) == m
                && *final(pool) == p,
        },
{
    if market.stable_loss == 0i128 {
        return Err(BumpErrorCode::RebalanceMarketStableLossIgnore);
    }
    let stable_loss = market.stable_loss;
    let abs_loss = abs_to_u(stable_loss)?;
    let stable_loss_value = token_to_usd_u(
        abs_loss,
        stable_token.trade_token.decimals,
        stable_token.price,
    )?;
    let trade_token_amount = usd_to_token_u(
        stable_loss_value,
        token.trade_token.decimals,
        token.price,
    )?;
    let mut m = *market;
    let mut p = *pool;
    let abs_i = abs_loss as i128;
    if stable_loss > 0i128 {
        p.add_amount(trade_token_amount)?;
        m.add_stable_loss(abs_i)?;
        *market = m;
        *pool = p;
        Ok(StableLossSwap::KeeperBuysStable { pool_tokens: trade_token_amount, stable_tokens: abs_loss })
    } else {
        p.sub_amount(trade_token_amount)?;
        m.add_stable_loss(abs_i)?;
        *market = m;
        *pool = p;
        Ok(StableLossSwap::KeeperSellsStable { pool_tokens: trade_token_amount, stable_tokens: abs_loss })
    }
}

} // verus!
