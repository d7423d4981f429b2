//! Minting and redeeming pool shares: quotes of shares against tokens at
//! the pool's net price, and the stake they are booked on.
use vstd::arithmetic::div_mod::{lemma_div_by_multiple, lemma_div_is_ordered};
use vstd::arithmetic::power::{lemma_pow_positive, pow};
use vstd::prelude::*;

use crate::calculator::{token_to_usd_u, usd_to_token_u};
use crate::errors::{BumpErrorCode, BumpResult};
use crate::math::{
    fits_u, pow10_spec, res_u, token_to_usd_spec, usd_to_token_spec, PRICE_TO_USD_PRECISION,
};
use crate::state::infrastructure::user_position::UserPosition;
use crate::state::infrastructure::user_stake::UserStake;
use crate::state::infrastructure::user_token::UserToken;
use crate::state::lookup::{find_token_price, token_price_from, TokenPrice};
use crate::state::pool::{available_liquidity_spec, pool_net_price_spec, Pool, PoolMarketInput};
use crate::state::state::State;
use crate::state::user::{
    has_stake, has_token, lemma_stake_slot, lemma_token_slot, same_but_stakes, stake_slot,
    token_slot, User,
};
use crate::state::user_margin::{lemma_balance_walk_bounds, portfolio_balance_walk};
use crate::state::user_value::available_value_of;

verus! {

/// Tokens paid out for `amount` shares, with the checks of a redemption:
/// the shares are valued at the pool's net price and paid in tokens at the
/// token's price; the value must exceed the pool's minimum and the tokens
/// must be available for lending.
pub open spec fn un_stake_quote_spec(
    pool: Pool,
    amount: int,
    decimals: int,
    price: int,
    stable_decimals: int,
    stable_price: int,
    ms: Seq<PoolMarketInput>,
) -> BumpResult<u128> {
    match pool_net_price_spec(pool, decimals, price, stable_decimals, stable_price, ms) {
        Err(e) => Err(e),
        Ok(net) => match res_u(token_to_usd_spec(amount, decimals, net as int)) {
            Err(e) => Err(e),
            Ok(usd) => match res_u(usd_to_token_spec(usd as int, decimals, price)) {
                Err(e) => Err(e),
                Ok(t) => if usd <= pool.config.minimum_un_stake_amount {
                    Err(BumpErrorCode::UnStakeTooSmall)
                } else {
                    match available_liquidity_spec(pool, ms, decimals, price) {
                        Err(e) => Err(e),
                        Ok(avail) => if t > avail {
                            Err(BumpErrorCode::UnStakeWithAmountNotEnough)
                        } else {
                            Ok(t)
                        },
                    }
                },
            },
        },
    }
}

/// Shares minted for `amount` tokens: one for one while the pool has no
/// shares, else the tokens' value at the pool's net price.
pub open spec fn supply_quote_spec(
    pool: Pool,
    amount: int,
    decimals: int,
    price: int,
    stable_decimals: int,
    stable_price: int,
    ms: Seq<PoolMarketInput>,
) -> BumpResult<u128> {
    if pool.total_supply > 0 {
        match res_u(token_to_usd_spec(amount, decimals, price)) {
            Err(e) => Err(e),
            Ok(usd) => match pool_net_price_spec(
                pool,
                decimals,
                price,
                stable_decimals,
                stable_price,
                ms,
            ) {
                Err(e) => Err(e),
                Ok(net) => res_u(usd_to_token_spec(usd as int, decimals, net as int)),
            },
        }
    } else if 0 <= amount <= u128::MAX {
        Ok(amount as u128)
    } else {
        Err(BumpErrorCode::MathError)
    }
}

/// The stake of `pool_key` lost `amount` shares and nothing else changed.
pub open spec fn stake_reduced(u: User, v: User, pool_key: Seq<u8>, amount: int) -> bool {
    let i = stake_slot(u, pool_key);
    let st = u.user_stakes@[i];
    &&& v.user_stakes@ == u.user_stakes@.update(
        i,
        UserStake { staked_share: (st.staked_share - amount) as u128, ..st },
    )
    &&& same_but_stakes(u, v)
}

/// Redeems `un_stake_amount` shares of the pool from the user's stake and
/// returns the tokens they are worth (see `un_stake_quote_spec`). The
/// stake must hold the shares. On failure nothing changes.
pub fn un_stake(
    pool: &Pool,
    user: &mut User,
    un_stake_amount: u128,
    tokens: &Vec<TokenPrice>,
    stable_decimals: u16,
    stable_price: u128,
    markets: &Vec<PoolMarketInput>,
) -> (r: BumpResult<u128>)
    ensures
        match token_price_from(tokens@, pool.mint_key@, 0) {
            None => r == Err::<u128, BumpErrorCode>(BumpErrorCode::TradeTokenNotFind) && *final(user)
                == *old(user),
            Some(tp) => match un_stake_quote_spec(
                *pool,
                un_stake_amount as int,
                tp.trade_token.decimals as int,
                tp.price as int,
                stable_decimals as int,
                stable_price as int,
                markets@,
            ) {
                Err(e) => r == Err::<u128, BumpErrorCode>(e) && *final(user) == *old(user),
                Ok(t) => if !has_stake(*old(user), pool.key@) {
                    r == Err::<u128, BumpErrorCode>(BumpErrorCode::CouldNotFindUserStake)
                        && *final(user) == *old(user)
                } else if old(user).user_stakes@[stake_slot(*old(user), pool.key@)].staked_share
                    < un_stake_amount {
                    r == Err::<u128, BumpErrorCode>(BumpErrorCode::AmountNotEnough) && *final(user)
                        == *old(user)
                } else {
                    r == Ok::<u128, BumpErrorCode>(t) && stake_reduced(
                        *old(user),
                        *final(user),
                        pool.key@,
                        un_stake_amount as int,
                    )
                },
            },
        },
{
    let base = find_token_price(tokens, &pool.mint_key)?;
    let decimals = base.trade_token.decimals;
    let net_price = pool.get_pool_net_price(
        decimals,
        base.price,
        stable_decimals,
        stable_price,
        markets,
    )?;
    let un_stake_usd = token_to_usd_u(un_stake_amount, decimals, net_price)?;
    let token_amount = usd_to_token_u(un_stake_usd, decimals, base.price)?;
    if !(un_stake_usd > pool.config.minimum_un_stake_amount) {
        return Err(BumpErrorCode::UnStakeTooSmall);
    }
    let available = pool.get_pool_available_liquidity(markets, decimals, base.price)?;
    if !(token_amount <= available) {
        return Err(BumpErrorCode::UnStakeWithAmountNotEnough);
    }
    user.sub_user_stake(&pool.key, un_stake_amount)?;
    Ok(token_amount)
}

/// Shares minted for `mint_amount` tokens of the pool (see
/// `supply_quote_spec`); the pool does not change.
pub fn stake(
    pool: &mut Pool,
    mint_amount: u128,
    tokens: &Vec<TokenPrice>,
    stable_decimals: u16,
    stable_price: u128,
    markets: &Vec<PoolMarketInput>,
) -> (r: BumpResult<u128>)
    ensures
        *final(pool) == *old(pool),
        match token_price_from(tokens@, old(pool).mint_key@, 0) {
            None => r == Err::<u128, BumpErrorCode>(BumpErrorCode::TradeTokenNotFind),
            Some(tp) => r == supply_quote_spec(
                *old(pool),
                mint_amount as int,
                tp.trade_token.decimals as int,
                tp.price as int,
                stable_decimals as int,
                stable_price as int,
                markets@,
            ),
        },
{
    let trade_token = find_token_price(tokens, &pool.mint_key)?;
    supply_quote(pool, mint_amount, &trade_token, stable_decimals, stable_price, markets)
}

/// Shares minted for `amount` tokens (see `supply_quote_spec`).
fn supply_quote(
    pool: &Pool,
    amount: u128,
    token: &TokenPrice,
    stable_decimals: u16,
    stable_price: u128,
    markets: &Vec<PoolMarketInput>,
) -> (r: BumpResult<u128>)
    ensures
        r == supply_quote_spec(
            *pool,
            amount as int,
            token.trade_token.decimals as int,
            token.price as int,
            stable_decimals as int,
            stable_price as int,
            markets@,
        ),
{
    let mut supply_amount = amount;
    if pool.total_supply > 0 {
        let decimals = token.trade_token.decimals;
        let usd = token_to_usd_u(amount, decimals, token.price)?;
        let net_price = pool.get_pool_net_price(
            decimals,
            token.price,
            stable_decimals,
            stable_price,
            markets,
        )?;
        supply_amount = usd_to_token_u(usd, decimals, net_price)?;
    }
    Ok(supply_amount)
}

/// Dividing by `z` and multiplying back never exceeds the start.
proof fn lemma_floor_round_trip(x: int, y: int, z: int)
    requires
        0 <= x,
        0 < y,
        0 < z,
    ensures
        (x * y / z) * z / y <= x,
{
    let q = x * y / z;
    assert(q * z <= x * y) by (nonlinear_arith)
        requires
            q == x * y / z,
            0 < z,
            0 <= x * y,
    ;
    lemma_div_is_ordered(q * z, x * y, y);
    lemma_div_by_multiple(x, y);
}

/// The USD value of a token amount, converted back to tokens at the same
/// price, is at most the amount.
proof fn lemma_usd_round_trip(amount: int, usd: int, decimals: int, price: int, tokens: int)
    requires
        0 <= amount,
        token_to_usd_spec(amount, decimals, price) == Some(usd),
        usd_to_token_spec(usd, decimals, price) == Some(tokens),
    ensures
        tokens <= amount,
{
    let unit = pow(10, decimals as nat);
    lemma_pow_positive(10, decimals as nat);
    let k = PRICE_TO_USD_PRECISION as int;
    assert(amount * price * k == amount * (price * k)) by (nonlinear_arith);
    lemma_floor_round_trip(amount, price * k, unit);
}

/// Tokens bought with a USD value and valued again at the same price are
/// worth at most that value.
proof fn lemma_token_round_trip(usd: int, tokens: int, decimals: int, price: int, back: int)
    requires
        0 <= usd,
        usd_to_token_spec(usd, decimals, price) == Some(tokens),
        token_to_usd_spec(tokens, decimals, price) == Some(back),
    ensures
        back <= usd,
{
    let unit = pow(10, decimals as nat);
    lemma_pow_positive(10, decimals as nat);
    let k = PRICE_TO_USD_PRECISION as int;
    assert(tokens * price * k == tokens * (price * k)) by (nonlinear_arith);
    lemma_floor_round_trip(usd, unit, price * k);
}

/// Converting fewer USD gives no more tokens.
proof fn lemma_usd_to_token_monotone(a: int, b: int, decimals: int, price: int, ta: int, tb: int)
    requires
        0 <= a <= b,
        usd_to_token_spec(a, decimals, price) == Some(ta),
        usd_to_token_spec(b, decimals, price) == Some(tb),
    ensures
        ta <= tb,
{
    let unit = pow(10, decimals as nat);
    lemma_pow_positive(10, decimals as nat);
    assert(a * unit <= b * unit) by (nonlinear_arith)
        requires
            a <= b,
            0 < unit,
    ;
    lemma_div_is_ordered(a * unit, b * unit, price * PRICE_TO_USD_PRECISION as int);
}

/// At one state of the pool, redeeming the shares minted for `amount`
/// tokens never gives back more than `amount` tokens: every conversion
/// rounds in the pool's favour.
pub proof fn lemma_stake_round_trip_never_gains(
    pool: Pool,
    amount: u128,
    decimals: int,
    price: int,
    stable_decimals: int,
    stable_price: int,
    ms: Seq<PoolMarketInput>,
)
    requires
        pool.total_supply > 0,
    ensures
        supply_quote_spec(pool, amount as int, decimals, price, stable_decimals, stable_price, ms)
            matches Ok(shares) ==> (un_stake_quote_spec(
            pool,
            shares as int,
            decimals,
            price,
            stable_decimals,
            stable_price,
            ms,
        ) matches Ok(tokens) ==> tokens <= amount),
{
    let sq = supply_quote_spec(pool, amount as int, decimals, price, stable_decimals, stable_price, ms);
    if let Ok(shares) = sq {
        let uq = un_stake_quote_spec(
            pool,
            shares as int,
            decimals,
            price,
            stable_decimals,
            stable_price,
            ms,
        );
        if let Ok(tokens) = uq {
            let usd1 = token_to_usd_spec(amount as int, decimals, price)->0;
            let net = pool_net_price_spec(pool, decimals, price, stable_decimals, stable_price, ms)->Ok_0;
            let usd2 = token_to_usd_spec(shares as int, decimals, net as int)->0;
            let back = usd_to_token_spec(usd1, decimals, price);
            lemma_token_round_trip(usd1, shares as int, decimals, net as int, usd2);
            assert(pow10_spec(decimals) is Some);
            assert(back is Some) by {
                assert(usd_to_token_spec(usd2, decimals, price) is Some);
                let unit = pow(10, decimals as nat);
                lemma_pow_positive(10, decimals as nat);
                assert(usd1 * unit <= u128::MAX) by (nonlinear_arith)
                    requires
                        usd1 * unit == (amount * price * PRICE_TO_USD_PRECISION as int) / unit
                            * unit,
                        amount * price * PRICE_TO_USD_PRECISION as int <= u128::MAX,
                        0 < unit,
                ;
            }
            lemma_usd_to_token_monotone(usd2, usd1, decimals, price, tokens as int, back->0);
            lemma_usd_round_trip(amount as int, usd1, decimals, price, back->0);
        }
    }
}

/// `v` is `u` with new balances, positions and stakes.
pub open spec fn moved_to_stake(
    u: User,
    v: User,
    toks: Seq<UserToken>,
    ps: Seq<UserPosition>,
    stakes: Seq<UserStake>,
) -> bool {
    &&& v.user_tokens@ == toks && v.user_positions@ == ps && v.user_stakes@ == stakes
    &&& v.next_order_id == u.next_order_id && v.next_liquidation_id == u.next_liquidation_id
    &&& v.hold == u.hold && v.user_orders == u.user_orders && v.user_key == u.user_key
    &&& v.authority == u.authority
}

/// Moves `mint_amount` tokens of the pool from the user's portfolio
/// balance into pool shares on the user's stake: the balance must exceed
/// the amount; cross positions in the token first give up the portfolio
/// part of their margin (see `portfolio_balance_walk`); after the debit the
/// account must keep a positive available value; the shares are quoted by
/// `supply_quote_spec`. Returns the shares and the updated stake; the pool
/// does not change. On failure nothing changes.
pub fn portfolio_to_stake(
    user: &mut User,
    pool: &mut Pool,
    mint_amount: u128,
    tokens: &Vec<TokenPrice>,
    stable_decimals: u16,
    stable_price: u128,
    markets: &Vec<PoolMarketInput>,
    _state: &State,
) -> (r: BumpResult<(u128, UserStake)>)
    ensures
        *final(pool) == *old(pool),
        match token_price_from(tokens@, old(pool).mint_key@, 0) {
            None => r == Err::<(u128, UserStake), BumpErrorCode>(BumpErrorCode::TradeTokenNotFind)
                && *final(user) == *old(user),
            Some(tp) => {
                let u = *old(user);
                let mint = old(pool).mint_key@;
                let t = u.user_tokens@[token_slot(u, mint)];
                if !has_token(u, mint) {
                    r == Err::<(u128, UserStake), BumpErrorCode>(
                        BumpErrorCode::CouldNotFindUserToken,
                    ) && *final(user) == u
                } else if t.amount <= mint_amount {
                    r == Err::<(u128, UserStake), BumpErrorCode>(BumpErrorCode::AmountNotEnough)
                        && *final(user) == u
                } else {
                    match portfolio_balance_walk(u.user_positions@, 0, mint_amount as int, mint, false) {
                        None => r == Err::<(u128, UserStake), BumpErrorCode>(
                            BumpErrorCode::MathError,
                        ) && *final(user) == u,
                        Some((ps, left)) => {
                            let toks = u.user_tokens@.update(
                                token_slot(u, mint),
                                UserToken { amount: (t.amount - left) as u128, ..t },
                            );
                            match available_value_of(toks, ps, u.hold as int, tokens@) {
                                Err(e) => r == Err::<(u128, UserStake), BumpErrorCode>(e)
                                    && *final(user) == u,
                                Ok(v) => if v <= 0 {
                                    r == Err::<(u128, UserStake), BumpErrorCode>(
                                        BumpErrorCode::AmountNotEnough,
                                    ) && *final(user) == u
                                } else {
                                    match supply_quote_spec(
                                        *old(pool),
                                        mint_amount as int,
                                        tp.trade_token.decimals as int,
                                        tp.price as int,
                                        stable_decimals as int,
                                        stable_price as int,
                                        markets@,
                                    ) {
                                        Err(e) => r == Err::<(u128, UserStake), BumpErrorCode>(e)
                                            && *final(user) == u,
                                        Ok(s) => {
                                            let j = stake_slot(u, old(pool).key@);
                                            let st = u.user_stakes@[j];
                                            if !has_stake(u, old(pool).key@) {
                                                r == Err::<(u128, UserStake), BumpErrorCode>(
                                                    BumpErrorCode::CouldNotFindUserStake,
                                                ) && *final(user) == u
                                            } else if !fits_u(st.staked_share + s) {
                                                r == Err::<(u128, UserStake), BumpErrorCode>(
                                                    BumpErrorCode::MathError,
                                                ) && *final(user) == u
                                            } else {
                                                let nst = UserStake {
                                                    staked_share: (st.staked_share + s) as u128,
                                                    ..st
                                                };
                                                r == Ok::<(u128, UserStake), BumpErrorCode>((s, nst))
                                                    && moved_to_stake(
                                                    u,
                                                    *final(user),
                                                    toks,
                                                    ps,
                                                    u.user_stakes@.update(j, nst),
                                                )
                                            }
                                        },
                                    }
                                },
                            }
                        },
                    }
                }
            },
        },
{
    let tp = find_token_price(tokens, &pool.mint_key)?;
    let mut u = *user;
    let ghost u0 = *user;
    let ti = u.get_user_token_index(&pool.mint_key)?;
    proof {
        lemma_token_slot(u, pool.mint_key@, ti as int);
        lemma_balance_walk_bounds(u.user_positions@, 0, mint_amount as int, pool.mint_key@, false);
    }
    let amount_held = u.user_tokens[ti].amount;
    if !(amount_held > mint_amount) {
        return Err(BumpErrorCode::AmountNotEnough);
    }
    u.sub_user_token_amount(&pool.mint_key, mint_amount)?;
    let available = u.get_available_value(tokens)?;
    if !(available > 0) {
        return Err(BumpErrorCode::AmountNotEnough);
    }
    let supply_amount = supply_quote(pool, mint_amount, &tp, stable_decimals, stable_price, markets)?;
    let j = u.get_user_stake_index(&pool.key)?;
    proof {
        assert(u.user_stakes == u0.user_stakes);
        lemma_stake_slot(u, pool.key@, j as int);
        lemma_stake_slot(u0, pool.key@, j as int);
    }
    let mut st = u.user_stakes[j];
    st.add_staked_share(supply_amount)?;
    u.user_stakes[j] = st;
    *user = u;
    Ok((supply_amount, st))
}

} // verus!
