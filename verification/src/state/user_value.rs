//! Valuation of a user account at given prices: the value of its balances
//! and of its cross-margin positions.
use vstd::prelude::*;

use crate::calculator::mm_spec;
use crate::errors::{BumpErrorCode, BumpResult};
use crate::math::{cast_to_i, fits_i, fits_u, safe_add_i, safe_add_u, safe_sub_i};
use crate::state::infrastructure::user_position::{
    position_fee_spec, un_pnl_usd_spec, PositionStatus, UserPosition,
};
use crate::state::infrastructure::user_token::{
    token_borrowing_value_spec, token_net_value_spec, token_used_value_spec, UserToken,
    UserTokenStatus,
};
use crate::state::lookup::{
    find_market, find_pool, find_token_price, market_from, pool_from, token_price_from,
    TokenPrice,
};
use crate::state::market::Market;
use crate::state::oracle::OraclePriceData;
use crate::state::pool::Pool;
use crate::state::state::State;
use crate::state::user::User;

verus! {

/// Sum of the weighted overdrawn values of the balances from slot `i` on,
/// added to `acc`.
pub open spec fn used_value_walk(toks: Seq<UserToken>, ts: Seq<TokenPrice>, i: int, acc: int) -> Result<
    int,
    BumpErrorCode,
>
    decreases toks.len() - i,
{
    if i < 0 || i >= toks.len() {
        Ok(acc)
    } else if toks[i].user_token_status == UserTokenStatus::INIT {
        used_value_walk(toks, ts, i + 1, acc)
    } else {
        match token_price_from(ts, toks[i].token_mint_key@, 0) {
            None => Err(BumpErrorCode::TradeTokenNotFind),
            Some(tp) => match token_used_value_spec(toks[i], tp.trade_token, tp.price as int) {
                Some(v) => if fits_u(acc + v) {
                    used_value_walk(toks, ts, i + 1, acc + v)
                } else {
                    Err(BumpErrorCode::MathError)
                },
                None => Err(BumpErrorCode::MathError),
            },
        }
    }
}

/// Checks that the collateral value of every balance from slot `i` on can
/// be computed.
pub open spec fn net_value_check_walk(toks: Seq<UserToken>, ts: Seq<TokenPrice>, i: int) -> Result<
    (),
    BumpErrorCode,
>
    decreases toks.len() - i,
{
    if i < 0 || i >= toks.len() {
        Ok(())
    } else if toks[i].user_token_status == UserTokenStatus::INIT {
        net_value_check_walk(toks, ts, i + 1)
    } else {
        match token_price_from(ts, toks[i].token_mint_key@, 0) {
            None => Err(BumpErrorCode::TradeTokenNotFind),
            Some(tp) => match token_net_value_spec(toks[i], tp.trade_token, tp.price as int) {
                Some(_) => net_value_check_walk(toks, ts, i + 1),
                None => Err(BumpErrorCode::MathError),
            },
        }
    }
}

/// Sums `(collateral value, weighted overdrawn value, borrowed value)` of
/// the balances from slot `i` on, added to `acc`.
pub open spec fn token_values_walk(
    toks: Seq<UserToken>,
    ts: Seq<TokenPrice>,
    i: int,
    acc: (int, int, int),
) -> Result<(int, int, int), BumpErrorCode>
    decreases toks.len() - i,
{
    if i < 0 || i >= toks.len() {
        Ok(acc)
    } else if toks[i].user_token_status == UserTokenStatus::INIT {
        token_values_walk(toks, ts, i + 1, acc)
    } else {
        match token_price_from(ts, toks[i].token_mint_key@, 0) {
            None => Err(BumpErrorCode::TradeTokenNotFind),
            Some(tp) => {
                let n = token_net_value_spec(toks[i], tp.trade_token, tp.price as int);
                let u = token_used_value_spec(toks[i], tp.trade_token, tp.price as int);
                let b = token_borrowing_value_spec(toks[i], tp.trade_token, tp.price as int);
                if n is Some && fits_u(acc.0 + n->0) && u is Some && fits_u(acc.1 + u->0)
                    && b is Some && fits_u(acc.2 + b->0) {
                    token_values_walk(toks, ts, i + 1, (acc.0 + n->0, acc.1 + u->0, acc.2 + b->0))
                } else {
                    Err(BumpErrorCode::MathError)
                }
            },
        }
    }
}

/// What a position contributes to the available value at `price`:
/// `(margin from portfolio, unrealized profit, maintenance margin)` of a
/// cross-margin position, nothing for an isolated one.
pub open spec fn position_value_spec(p: UserPosition, price: int) -> Option<(int, int, int)> {
    if !p.is_portfolio_margin {
        Some((0, 0, 0))
    } else {
        match un_pnl_usd_spec(p, price) {
            Some(x) => if fits_i(x) {
                Some((p.initial_margin_usd_from_portfolio as int, x, p.mm_usd as int))
            } else {
                None
            },
            None => None,
        }
    }
}

/// Sums the contributions (see `position_value_spec`) of the positions in
/// use from slot `i` on, each at the price of its index token.
pub open spec fn position_values_walk(
    ps: Seq<UserPosition>,
    ts: Seq<TokenPrice>,
    i: int,
    acc: (int, int, int),
) -> Result<(int, int, int), BumpErrorCode>
    decreases ps.len() - i,
{
    if i < 0 || i >= ps.len() {
        Ok(acc)
    } else if ps[i].status == PositionStatus::INIT {
        position_values_walk(ps, ts, i + 1, acc)
    } else {
        match token_price_from(ts, ps[i].index_mint_oracle@, 0) {
            None => Err(BumpErrorCode::TradeTokenNotFind),
            Some(tp) => match position_value_spec(ps[i], tp.price as int) {
                Some(v) => if fits_u(acc.0 + v.0) && fits_i(acc.1 + v.1) && fits_u(acc.2 + v.2) {
                    position_values_walk(ps, ts, i + 1, (acc.0 + v.0, acc.1 + v.1, acc.2 + v.2))
                } else {
                    Err(BumpErrorCode::MathError)
                },
                None => Err(BumpErrorCode::MathError),
            },
        }
    }
}

/// Value available for new cross-margin use: collateral value plus the
/// order hold, less what is overdrawn, plus unrealized losses (gains do
/// not count), less what is borrowed.
pub open spec fn available_value_spec(u: User, ts: Seq<TokenPrice>) -> Result<int, BumpErrorCode> {
    available_value_of(u.user_tokens@, u.user_positions@, u.hold as int, ts)
}

/// Available value of an account with these balances, positions and order
/// reserve.
pub open spec fn available_value_of(
    toks: Seq<UserToken>,
    poss: Seq<UserPosition>,
    hold: int,
    ts: Seq<TokenPrice>,
) -> Result<int, BumpErrorCode> {
    match token_values_walk(toks, ts, 0, (0, 0, 0)) {
        Err(e) => Err(e),
        Ok((net, used, borrowed)) => match position_values_walk(poss, ts, 0, (0, 0, 0)) {
            Err(e) => Err(e),
            Ok((fp, pnl, _mm)) => {
                let s = net + fp + hold;
                let x = s - used;
                let x2 = x + (if pnl > 0 {
                    0
                } else {
                    pnl
                });
                let x3 = x2 - fp;
                let x4 = x3 - borrowed;
                if fits_u(net + fp) && fits_u(s) && fits_i(s) && fits_i(used) && fits_i(x)
                    && fits_i(x2) && fits_i(fp) && fits_i(x3) && fits_i(borrowed) && fits_i(x4) {
                    Ok(x4)
                } else {
                    Err(BumpErrorCode::MathError)
                }
            },
        },
    }
}

/// Unrealized profits of cross positions never add to the available value;
/// only losses take from it. The available value is at most the balances'
/// net value plus the order reserve, less what is in use and what is
/// borrowed, and equals that when the positions are not at a loss overall.
pub proof fn lemma_available_value_ignores_profit(u: User, ts: Seq<TokenPrice>)
    requires
        available_value_spec(u, ts) is Ok,
    ensures
        token_values_walk(u.user_tokens@, ts, 0, (0, 0, 0)) is Ok,
        position_values_walk(u.user_positions@, ts, 0, (0, 0, 0)) is Ok,
        ({
            let v = available_value_spec(u, ts)->Ok_0;
            let (net, used, borrowed) = token_values_walk(u.user_tokens@, ts, 0, (0, 0, 0))->Ok_0;
            let pnl = position_values_walk(u.user_positions@, ts, 0, (0, 0, 0))->Ok_0.1;
            let collateral = net + u.hold - used - borrowed;
            &&& v <= collateral
            &&& pnl >= 0 ==> v == collateral
            &&& pnl < 0 ==> v == collateral + pnl
        }),
{
}

/// What a cross position contributes to the account's cross value:
/// `(margin, unrealized profit, fees, maintenance margin, size)`, all USD.
pub open spec fn cross_position_value_spec(
    p: UserPosition,
    index_price: int,
    margin_price: int,
    margin_decimals: int,
    market: Market,
    pool: Pool,
    state: State,
) -> Option<(int, int, int, int, int)> {
    match (
        un_pnl_usd_spec(p, index_price),
        position_fee_spec(p, market, pool, margin_price, margin_decimals),
        mm_spec(
            p.position_size as int,
            market.config.maximum_leverage as int,
            state.maximum_maintenance_margin_rate as int,
        ),
    ) {
        (Some(x), Some(f), Some(m)) => if fits_i(x) && fits_i(f) && fits_u(m) {
            Some((p.initial_margin_usd as int, x, f, m, p.position_size as int))
        } else {
            None
        },
        _ => None,
    }
}

/// Sums the contributions (see `cross_position_value_spec`) of the
/// positions in use from slot `i` on.
pub open spec fn cross_position_walk(
    ps: Seq<UserPosition>,
    ts: Seq<TokenPrice>,
    ms: Seq<Market>,
    pls: Seq<Pool>,
    state: State,
    i: int,
    acc: (int, int, int, int, int),
) -> Result<(int, int, int, int, int), BumpErrorCode>
    decreases ps.len() - i,
{
    if i < 0 || i >= ps.len() {
        Ok(acc)
    } else if ps[i].status == PositionStatus::INIT {
        cross_position_walk(ps, ts, ms, pls, state, i + 1, acc)
    } else {
        let p = ps[i];
        match token_price_from(ts, p.index_mint_oracle@, 0) {
            None => Err(BumpErrorCode::TradeTokenNotFind),
            Some(index) => match token_price_from(ts, p.margin_mint_key@, 0) {
                None => Err(BumpErrorCode::TradeTokenNotFind),
                Some(margin) => match market_from(ms, p.symbol@, 0) {
                    None => Err(BumpErrorCode::MarketNotFind),
                    Some(market) => match pool_from(pls, market.pool_key@, 0) {
                        None => Err(BumpErrorCode::CouldNotLoadPoolData),
                        Some(pool) => match cross_position_value_spec(
                            p,
                            index.price as int,
                            margin.price as int,
                            margin.trade_token.decimals as int,
                            market,
                            pool,
                            state,
                        ) {
                            Some(v) => if fits_u(acc.0 + v.0) && fits_i(acc.1 + v.1) && fits_i(
                                acc.2 + v.2,
                            ) && fits_u(acc.3 + v.3) && fits_u(acc.4 + v.4) {
                                cross_position_walk(
                                    ps,
                                    ts,
                                    ms,
                                    pls,
                                    state,
                                    i + 1,
                                    (acc.0 + v.0, acc.1 + v.1, acc.2 + v.2, acc.3 + v.3, acc.4 + v.4),
                                )
                            } else {
                                Err(BumpErrorCode::MathError)
                            },
                            None => Err(BumpErrorCode::MathError),
                        },
                    },
                },
            },
        }
    }
}

/// Weighted overdrawn value of the account, plus its order hold.
pub open spec fn total_used_value_spec(u: User, ts: Seq<TokenPrice>) -> Result<int, BumpErrorCode> {
    match used_value_walk(u.user_tokens@, ts, 0, 0) {
        Err(e) => Err(e),
        Ok(v) => if u.hold > 0 {
            if fits_u(v + u.hold) {
                Ok(v + u.hold)
            } else {
                Err(BumpErrorCode::MathError)
            }
        } else {
            Ok(v)
        },
    }
}

/// Cross net value of the account, with its maintenance margin and size:
/// the portfolio's net value plus the cross margins and the order hold,
/// plus unrealized profit, less what is used and the fees owed.
pub open spec fn cross_net_value_spec(
    u: User,
    ts: Seq<TokenPrice>,
    ms: Seq<Market>,
    pls: Seq<Pool>,
    state: State,
) -> Result<(int, int, int), BumpErrorCode> {
    match net_value_check_walk(u.user_tokens@, ts, 0) {
        Err(e) => Err(e),
        Ok(_) => match total_used_value_spec(u, ts) {
            Err(e) => Err(e),
            Ok(used) => match cross_position_walk(
                u.user_positions@,
                ts,
                ms,
                pls,
                state,
                0,
                (0, 0, 0, 0, 0),
            ) {
                Err(e) => Err(e),
                Ok((im, pnl, fee, mm, size)) => {
                    let s = im + u.hold;
                    let x = s + pnl - used - fee;
                    if fits_u(s) && fits_i(s) && fits_i(s + pnl) && fits_i(used) && fits_i(
                        s + pnl - used,
                    ) && fits_i(x) {
                        Ok((x, mm, size))
                    } else {
                        Err(BumpErrorCode::MathError)
                    }
                },
            },
        },
    }
}

impl User {
    /// Weighted overdrawn value of the account, plus its order hold (see
    /// `total_used_value_spec`).
    pub fn get_total_used_value(&self, tokens: &Vec<TokenPrice>) -> (r: BumpResult<u128>)
        ensures
            total_used_value_spec(*self, tokens@) matches Ok(v) ==> r == Ok::<u128, BumpErrorCode>(
                v as u128,
            ) && fits_u(v),
            total_used_value_spec(*self, tokens@) matches Err(e) ==> r == Err::<u128, BumpErrorCode>(
                e,
            ),
    {
        let mut total: u128 = 0;
        let mut i: usize = 0;
        while i < 12
            invariant
                i <= 12,
                self.user_tokens@.len() == 12,
                used_value_walk(self.user_tokens@, tokens@, 0, 0) == used_value_walk(
                    self.user_tokens@,
                    tokens@,
                    i as int,
                    total as int,
                ),
            decreases 12 - i,
        {
            let t = self.user_tokens[i];
            if t.user_token_status != UserTokenStatus::INIT {
                let tp = find_token_price(tokens, &t.token_mint_key)?;
                let v = t.get_token_used_value(&tp.trade_token, &OraclePriceData { price: tp.price, confidence: 0 })?;
                total = safe_add_u(total, v)?;
            }
            i = i + 1;
        }
        if self.hold > 0 {
            total = safe_add_u(total, self.hold)?;
        }
        Ok(total)
    }

    /// Collateral value of the balances. Every balance in use is valued,
    /// which fails on an unknown token or an overflow, but the sum is not
    /// kept: the result is zero.
    pub fn get_portfolio_net_value(&self, tokens: &Vec<TokenPrice>) -> (r: BumpResult<u128>)
        ensures
            net_value_check_walk(self.user_tokens@, tokens@, 0) matches Ok(_) ==> r == Ok::<
                u128,
                BumpErrorCode,
            >(0u128),
            net_value_check_walk(self.user_tokens@, tokens@, 0) matches Err(e) ==> r == Err::<
                u128,
                BumpErrorCode,
            >(e),
    {
        let total: u128 = 0;
        let mut i: usize = 0;
        while i < 12
            invariant
                i <= 12,
                self.user_tokens@.len() == 12,
                total == 0,
                net_value_check_walk(self.user_tokens@, tokens@, 0) == net_value_check_walk(
                    self.user_tokens@,
                    tokens@,
                    i as int,
                ),
            decreases 12 - i,
        {
            let t = self.user_tokens[i];
            if t.user_token_status != UserTokenStatus::INIT {
                let tp = find_token_price(tokens, &t.token_mint_key)?;
                let v = t.get_token_net_value(&tp.trade_token, &OraclePriceData { price: tp.price, confidence: 0 })?;
                let _ = safe_add_u(total, v)?;
            }
            i = i + 1;
        }
        Ok(total)
    }

    /// Value available for new cross-margin use (see
    /// `available_value_spec`).
    pub fn get_available_value(&self, tokens: &Vec<TokenPrice>) -> (r: BumpResult<i128>)
        ensures
            available_value_spec(*self, tokens@) matches Ok(v) ==> r == Ok::<i128, BumpErrorCode>(
                v as i128,
            ),
            available_value_spec(*self, tokens@) matches Err(e) ==> r == Err::<i128, BumpErrorCode>(
                e,
            ),
    {
        let mut net: u128 = 0;
        let mut used: u128 = 0;
        let mut borrowed: u128 = 0;
        let mut i: usize = 0;
        while i < 12
            invariant
                i <= 12,
                self.user_tokens@.len() == 12,
                token_values_walk(self.user_tokens@, tokens@, 0, (0, 0, 0)) == token_values_walk(
                    self.user_tokens@,
                    tokens@,
                    i as int,
                    (net as int, used as int, borrowed as int),
                ),
            decreases 12 - i,
        {
            let t = self.user_tokens[i];
            if t.user_token_status != UserTokenStatus::INIT {
                let tp = find_token_price(tokens, &t.token_mint_key)?;
                let price = OraclePriceData { price: tp.price, confidence: 0 };
                let n = t.get_token_net_value(&tp.trade_token, &price)?;
                net = safe_add_u(net, n)?;
                let u = t.get_token_used_value(&tp.trade_token, &price)?;
                used = safe_add_u(used, u)?;
                let b = t.get_token_borrowing_value(&price, &tp.trade_token)?;
                borrowed = safe_add_u(borrowed, b)?;
            }
            i = i + 1;
        }
        assert(token_values_walk(
            self.user_tokens@,
            tokens@,
            12,
            (net as int, used as int, borrowed as int),
        ) == Ok::<(int, int, int), BumpErrorCode>((net as int, used as int, borrowed as int)));
        let mut from_portfolio: u128 = 0;
        let mut pnl: i128 = 0;
        let mut mm: u128 = 0;
        let mut j: usize = 0;
        while j < 8
            invariant
                j <= 8,
                self.user_positions@.len() == 8,
                token_values_walk(self.user_tokens@, tokens@, 0, (0, 0, 0)) == Ok::<
                    (int, int, int),
                    BumpErrorCode,
                >((net as int, used as int, borrowed as int)),
                position_values_walk(self.user_positions@, tokens@, 0, (0, 0, 0))
                    == position_values_walk(
                    self.user_positions@,
                    tokens@,
                    j as int,
                    (from_portfolio as int, pnl as int, mm as int),
                ),
            decreases 8 - j,
        {
            let p = self.user_positions[j];
            if p.status != PositionStatus::INIT {
                let tp = find_token_price(tokens, &p.index_mint_oracle)?;
                let (fp, x, m, _) = p.get_position_value(tp.price)?;
                from_portfolio = safe_add_u(from_portfolio, fp)?;
                pnl = safe_add_i(pnl, x)?;
                mm = safe_add_u(mm, m)?;
            }
            j = j + 1;
        }
        let s1 = safe_add_u(net, from_portfolio)?;
        let s2 = safe_add_u(s1, self.hold)?;
        let s2_i = cast_to_i(s2)?;
        let used_i = cast_to_i(used)?;
        let x = safe_sub_i(s2_i, used_i)?;
        let loss = if pnl > 0 {
            0i128
        } else {
            pnl
        };
        let x2 = safe_add_i(x, loss)?;
        let fp_i = cast_to_i(from_portfolio)?;
        let x3 = safe_sub_i(x2, fp_i)?;
        let b_i = cast_to_i(borrowed)?;
        safe_sub_i(x3, b_i)
    }

    /// Totals over the positions in use: `(margin, unrealized profit, fees,
    /// maintenance margin, size)`, all USD (see `cross_position_walk`).
    pub fn get_user_cross_position_value(
        &self,
        state: &State,
        markets: &Vec<Market>,
        pools: &Vec<Pool>,
        tokens: &Vec<TokenPrice>,
    ) -> (r: BumpResult<(u128, i128, i128, u128, u128)>)
        ensures
            cross_position_walk(
                self.user_positions@,
                tokens@,
                markets@,
                pools@,
                *state,
                0,
                (0, 0, 0, 0, 0),
            ) matches Ok(v) ==> r == Ok::<(u128, i128, i128, u128, u128), BumpErrorCode>(
                (v.0 as u128, v.1 as i128, v.2 as i128, v.3 as u128, v.4 as u128),
            ) && fits_u(v.0) && fits_i(v.1) && fits_i(v.2) && fits_u(v.3) && fits_u(v.4),
            cross_position_walk(
                self.user_positions@,
                tokens@,
                markets@,
                pools@,
                *state,
                0,
                (0, 0, 0, 0, 0),
            ) matches Err(e) ==> r == Err::<(u128, i128, i128, u128, u128), BumpErrorCode>(e),
    {
        let mut im: u128 = 0;
        let mut pnl: i128 = 0;
        let mut fee: i128 = 0;
        let mut mm: u128 = 0;
        let mut size: u128 = 0;
        let mut j: usize = 0;
        while j < 8
            invariant
                j <= 8,
                self.user_positions@.len() == 8,
                cross_position_walk(
                    self.user_positions@,
                    tokens@,
                    markets@,
                    pools@,
                    *state,
                    0,
                    (0, 0, 0, 0, 0),
                ) == cross_position_walk(
                    self.user_positions@,
                    tokens@,
                    markets@,
                    pools@,
                    *state,
                    j as int,
                    (im as int, pnl as int, fee as int, mm as int, size as int),
                ),
            decreases 8 - j,
        {
            let p = self.user_positions[j];
            if p.status != PositionStatus::INIT {
                let index = find_token_price(tokens, &p.index_mint_oracle)?;
                let margin = find_token_price(tokens, &p.margin_mint_key)?;
                let market = find_market(markets, &p.symbol)?;
                let pool = find_pool(pools, &market.pool_key)?;
                im = safe_add_u(im, p.initial_margin_usd)?;
                let x = p.get_position_un_pnl_usd(index.price)?;
                pnl = safe_add_i(pnl, x)?;
                let f = p.get_position_fee(
                    &market,
                    &pool,
                    margin.price,
                    margin.trade_token.decimals,
                )?;
                fee = safe_add_i(fee, f)?;
                let m = p.get_position_mm(&market, state)?;
                mm = safe_add_u(mm, m)?;
                size = safe_add_u(size, p.position_size)?;
            }
            j = j + 1;
        }
        Ok((im, pnl, fee, mm, size))
    }

    /// Cross net value of the account with its maintenance margin and size
    /// (see `cross_net_value_spec`).
    pub fn get_user_cross_net_value(
        &self,
        tokens: &Vec<TokenPrice>,
        markets: &Vec<Market>,
        pools: &Vec<Pool>,
        state: &State,
    ) -> (r: BumpResult<(i128, u128, u128)>)
        ensures
            cross_net_value_spec(*self, tokens@, markets@, pools@, *state) matches Ok(v) ==> r
                == Ok::<(i128, u128, u128), BumpErrorCode>(
                (v.0 as i128, v.1 as u128, v.2 as u128),
            ),
            cross_net_value_spec(*self, tokens@, markets@, pools@, *state) matches Err(e) ==> r
                == Err::<(i128, u128, u128), BumpErrorCode>(e),
    {
        let portfolio_net_value = self.get_portfolio_net_value(tokens)?;
        let used_value = self.get_total_used_value(tokens)?;
        let (total_im_usd, total_un_pnl_usd, total_position_fee, total_position_mm, total_size) =
            self.get_user_cross_position_value(state, markets, pools, tokens)?;
        let s1 = safe_add_u(portfolio_net_value, total_im_usd)?;
        let s2 = safe_add_u(s1, self.hold)?;
        let s2_i = cast_to_i(s2)?;
        let x1 = safe_add_i(s2_i, total_un_pnl_usd)?;
        let used_i = cast_to_i(used_value)?;
        let x2 = safe_sub_i(x1, used_i)?;
        let x3 = safe_sub_i(x2, total_position_fee)?;
        Ok((x3, total_position_mm, total_size))
    }
}

} // verus!
