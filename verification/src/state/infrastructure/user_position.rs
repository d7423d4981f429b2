//! A user's open position in a market.
use vstd::prelude::*;

use crate::calculator::{
    get_mm, mm_spec, mul_per_token_rate_i, mul_per_token_rate_u, mul_rate_u, token_to_usd_i,
    token_to_usd_u, usd_to_token_i,
};
use crate::errors::{BumpErrorCode, BumpResult};
use crate::math::{
    cast_to_i, cast_to_u, ck_i, ck_u, fits_i, fits_u, mul_div_i_spec, mul_div_spec,
    res_i, res_u, safe_add_i, safe_add_u, safe_div_i, safe_div_u, safe_mul_i, safe_mul_u,
    safe_sub_i, safe_sub_u, tdiv, token_to_usd_i_spec, token_to_usd_spec, usd_to_token_i_spec,
    PER_TOKEN_PRECISION, RATE_PRECISION,
};
use crate::pubkey::{zero_key, zero_pubkey, Pubkey};
use crate::state::market::Market;
use crate::state::pool::Pool;
use crate::state::state::State;
use crate::state::trade_token::TradeToken;

verus! {

/// An open position: size and entry in USD, margin in margin tokens and in
/// USD, the fees realized so far and the accumulators they were last
/// settled against.
#[derive(Clone, Copy, Debug)]
pub struct UserPosition {
    /// Size (USD).
    pub position_size: u128,
    /// Average entry price of the index token.
    pub entry_price: u128,
    /// Average price of the margin token at entry.
    pub margin_token_entry_price: u128,
    /// Margin (margin tokens).
    pub initial_margin: u128,
    /// Margin (USD).
    pub initial_margin_usd: u128,
    /// Part of the margin (USD) that comes from the portfolio balance.
    pub initial_margin_usd_from_portfolio: u128,
    /// Maintenance margin (USD).
    pub mm_usd: u128,
    /// Amount held in the pool for the position.
    pub hold_pool_amount: u128,
    pub open_fee: u128,
    pub open_fee_in_usd: u128,
    pub realized_borrowing_fee: u128,
    pub realized_borrowing_fee_in_usd: u128,
    pub open_borrowing_fee_per_token: u128,
    pub realized_funding_fee: i128,
    pub realized_funding_fee_in_usd: i128,
    pub open_funding_fee_amount_per_size: i128,
    pub close_fee_in_usd: u128,
    pub realized_pnl: i128,
    pub user_key: Pubkey,
    pub user_token_account: Pubkey,
    pub margin_mint_key: Pubkey,
    pub index_mint_oracle: Pubkey,
    pub position_key: Pubkey,
    pub symbol: [u8; 32],
    pub updated_at: i64,
    /// Leverage (rate precision).
    pub leverage: u32,
    pub is_long: bool,
    pub is_portfolio_margin: bool,
    pub status: PositionStatus,
}

/// Whether a position slot is free or in use.
#[derive(Clone, Copy, Debug, PartialEq, Eq, Structural)]
pub enum PositionStatus {
    INIT,
    USING,
}

impl Default for PositionStatus {
    fn default() -> (r: Self)
        ensures
            r == PositionStatus::INIT,
    {
        PositionStatus::INIT
    }
}

/// Every amount, price, fee and key of the position is zero (apart from
/// its own key, its owner and its status).
pub open spec fn is_blank_position(p: UserPosition) -> bool {
    &&& p.position_size == 0 && p.entry_price == 0 && p.margin_token_entry_price == 0
    &&& p.initial_margin == 0 && p.initial_margin_usd == 0
    &&& p.initial_margin_usd_from_portfolio == 0 && p.mm_usd == 0 && p.hold_pool_amount == 0
    &&& p.open_fee == 0 && p.open_fee_in_usd == 0
    &&& p.realized_borrowing_fee == 0 && p.realized_borrowing_fee_in_usd == 0
    &&& p.open_borrowing_fee_per_token == 0 && p.realized_funding_fee == 0
    &&& p.realized_funding_fee_in_usd == 0 && p.open_funding_fee_amount_per_size == 0
    &&& p.close_fee_in_usd == 0 && p.realized_pnl == 0
    &&& p.user_token_account@ == zero_key()
    &&& p.margin_mint_key@ == zero_key() && p.index_mint_oracle@ == zero_key()
    &&& p.symbol@ == zero_key()
    &&& p.updated_at == 0 && p.leverage == 0 && !p.is_long && !p.is_portfolio_margin
}

/// The empty position: blank, with zero keys, slot free.
pub open spec fn is_empty_position(p: UserPosition) -> bool {
    &&& is_blank_position(p)
    &&& p.user_key@ == zero_key() && p.position_key@ == zero_key()
    &&& p.status == PositionStatus::INIT
}

/// The blank position keyed `key` of the account `user_key`, in use
/// (there is exactly one, see `lemma_blank_position_unique`).
pub open spec fn blank_position_spec(key: Seq<u8>, user_key: Pubkey) -> UserPosition {
    choose|p: UserPosition|
        is_blank_position(p) && p.position_key@ == key && p.user_key == user_key && p.status
            == PositionStatus::USING
}

/// Every blank position in use keyed `key` of `user_key` is
/// `blank_position_spec(key, user_key)`.
pub proof fn lemma_blank_position_unique(q: UserPosition, key: Seq<u8>, user_key: Pubkey)
    requires
        is_blank_position(q),
        q.position_key@ == key,
        q.user_key == user_key,
        q.status == PositionStatus::USING,
    ensures
        q == blank_position_spec(key, user_key),
{
    let c = blank_position_spec(key, user_key);
    assert(is_blank_position(c) && c.position_key@ == key && c.user_key == user_key && c.status
        == PositionStatus::USING);
    assert(c.user_token_account =~= q.user_token_account);
    assert(c.margin_mint_key =~= q.margin_mint_key);
    assert(c.index_mint_oracle =~= q.index_mint_oracle);
    assert(c.symbol =~= q.symbol);
    assert(c.position_key =~= q.position_key);
}

/// The empty position (there is exactly one, see
/// `lemma_empty_position_unique`).
pub open spec fn empty_position_spec() -> UserPosition {
    choose|p: UserPosition| is_empty_position(p)
}

/// Every empty position is `empty_position_spec()`.
pub proof fn lemma_empty_position_unique(q: UserPosition)
    requires
        is_empty_position(q),
    ensures
        q == empty_position_spec(),
{
    let c = empty_position_spec();
    assert(is_empty_position(c));
    assert(c.user_token_account =~= q.user_token_account);
    assert(c.margin_mint_key =~= q.margin_mint_key);
    assert(c.index_mint_oracle =~= q.index_mint_oracle);
    assert(c.symbol =~= q.symbol);
    assert(c.user_key =~= q.user_key);
    assert(c.position_key =~= q.position_key);
}

impl Default for UserPosition {
    fn default() -> (r: Self)
        ensures
            is_empty_position(r),
    {
        UserPosition {
            position_size: 0,
            entry_price: 0,
            margin_token_entry_price: 0,
            initial_margin: 0,
            initial_margin_usd: 0,
            initial_margin_usd_from_portfolio: 0,
            mm_usd: 0,
            hold_pool_amount: 0,
            open_fee: 0,
            open_fee_in_usd: 0,
            realized_borrowing_fee: 0,
            realized_borrowing_fee_in_usd: 0,
            open_borrowing_fee_per_token: 0,
            realized_funding_fee: 0,
            realized_funding_fee_in_usd: 0,
            open_funding_fee_amount_per_size: 0,
            close_fee_in_usd: 0,
            realized_pnl: 0,
            user_key: zero_pubkey(),
            user_token_account: zero_pubkey(),
            margin_mint_key: zero_pubkey(),
            index_mint_oracle: zero_pubkey(),
            position_key: zero_pubkey(),
            symbol: zero_pubkey(),
            updated_at: 0,
            leverage: 0,
            is_long: false,
            is_portfolio_margin: false,
            status: PositionStatus::INIT,
        }
    }
}

// ---------------------------------------------------------------------------
// Model
// ---------------------------------------------------------------------------

/// Unrealized profit (USD) at `index_price`: the size times the relative
/// price move in the position's favour, `size * move / entry_price`.
pub open spec fn un_pnl_usd_spec(p: UserPosition, index_price: int) -> Option<int> {
    if p.position_size == 0 {
        Some(0)
    } else if !fits_i(p.position_size as int) || !fits_i(index_price) || !fits_i(
        p.entry_price as int,
    ) {
        None
    } else {
        let mv = if p.is_long {
            index_price - p.entry_price
        } else {
            p.entry_price - index_price
        };
        match ck_i(mv) {
            Some(m) => mul_div_i_spec(p.position_size as int, m, p.entry_price as int),
            None => None,
        }
    }
}

/// Unrealized profit in margin tokens at `mint_token_price`.
pub open spec fn un_pnl_token_spec(
    p: UserPosition,
    decimals: int,
    mint_token_price: int,
    index_price: int,
) -> Option<int> {
    if p.position_size == 0 {
        Some(0)
    } else {
        match un_pnl_usd_spec(p, index_price) {
            Some(u) => usd_to_token_i_spec(u, decimals, mint_token_price),
            None => None,
        }
    }
}

/// The part of a margin borrowed beyond the trader's own funds:
/// `initial_margin * (leverage - 1)`.
pub open spec fn leveraged_margin_spec(p: UserPosition) -> Option<int> {
    match ck_u(p.leverage - RATE_PRECISION) {
        Some(l) => mul_div_spec(p.initial_margin as int, l, RATE_PRECISION as int),
        None => None,
    }
}

/// Fees the position owes in USD: funding (realized plus accrued since the
/// last settlement), borrowing (realized plus accrued on the leveraged
/// margin) and the close fee.
pub open spec fn position_fee_spec(
    p: UserPosition,
    market: Market,
    pool: Pool,
    price: int,
    decimals: int,
) -> Option<int> {
    let per_size = if p.is_long {
        market.funding_fee.long_funding_fee_amount_per_size
    } else {
        market.funding_fee.short_funding_fee_amount_per_size
    };
    if !fits_i(p.position_size as int) {
        None
    } else {
        match ck_i(per_size - p.open_funding_fee_amount_per_size) {
            None => None,
            Some(dps) => match mul_div_i_spec(p.position_size as int, dps, PER_TOKEN_PRECISION as int) {
                None => None,
                Some(ff) => {
                    let ffu = if p.is_long {
                        token_to_usd_i_spec(ff, decimals, price)
                    } else {
                        Some(ff)
                    };
                    match ffu {
                        None => None,
                        Some(fu) => match ck_i(p.realized_funding_fee_in_usd + fu) {
                            None => None,
                            Some(funding_total) => match leveraged_margin_spec(p) {
                                None => None,
                                Some(lm) => match ck_u(
                                    pool.borrowing_fee.cumulative_borrowing_fee_per_token
                                        - p.open_borrowing_fee_per_token,
                                ) {
                                    None => None,
                                    Some(dpt) => match mul_div_spec(dpt, lm, PER_TOKEN_PRECISION as int) {
                                        None => None,
                                        Some(bf) => match token_to_usd_spec(bf, decimals, price) {
                                            None => None,
                                            Some(bfu) => match ck_u(
                                                p.realized_borrowing_fee_in_usd + bfu,
                                            ) {
                                                None => None,
                                                Some(borrowing_total) => if fits_i(borrowing_total)
                                                    && fits_i(p.close_fee_in_usd as int) {
                                                    match ck_i(funding_total + borrowing_total) {
                                                        Some(t) => ck_i(t + p.close_fee_in_usd),
                                                        None => None,
                                                    }
                                                } else {
                                                    None
                                                },
                                            },
                                        },
                                    },
                                },
                            },
                        },
                    }
                },
            },
        }
    }
}

/// Liquidation price: the price at which margin, maintenance margin and
/// fees balance out, `value * entry_price / size`, where the value is
/// `size - margin + mm + fees` for a long and `size + margin - mm - fees`
/// for a short; zero when that value is negative.
pub open spec fn liquidation_price_spec(
    p: UserPosition,
    market: Market,
    pool: Pool,
    price: int,
    decimals: int,
) -> Option<int> {
    match position_fee_spec(p, market, pool, price, decimals) {
        None => None,
        Some(fee) => {
            let base = if p.is_long {
                match ck_u(p.position_size - p.initial_margin_usd) {
                    Some(a) => ck_u(a + p.mm_usd),
                    None => None,
                }
            } else {
                match ck_u(p.position_size + p.initial_margin_usd) {
                    Some(a) => ck_u(a - p.mm_usd),
                    None => None,
                }
            };
            match base {
                None => None,
                Some(b) => if !fits_i(b) {
                    None
                } else {
                    match ck_i(
                        if p.is_long {
                            b + fee
                        } else {
                            b - fee
                        },
                    ) {
                        None => None,
                        Some(v) => if v < 0 {
                            Some(0)
                        } else {
                            mul_div_spec(v, p.entry_price as int, p.position_size as int)
                        },
                    }
                },
            }
        },
    }
}

/// Outcome of `add_position_portfolio_balance`: `(returned amount, new
/// portfolio part of the margin in USD)`. Margin borrowed beyond the
/// portfolio part is taken back from `amount`, as far as it goes.
pub open spec fn portfolio_add_spec(p: UserPosition, amount: int) -> Option<(int, int)> {
    if p.initial_margin_usd == p.initial_margin_usd_from_portfolio {
        Some((0, p.initial_margin_usd_from_portfolio as int))
    } else {
        match ck_u(p.initial_margin_usd - p.initial_margin_usd_from_portfolio) {
            None => None,
            Some(d) => match mul_div_spec(d, p.initial_margin as int, p.initial_margin_usd as int) {
                None => None,
                Some(borrow) => {
                    let add = if amount <= borrow {
                        amount
                    } else {
                        borrow
                    };
                    match mul_div_spec(add, p.initial_margin_usd as int, p.initial_margin as int) {
                        None => None,
                        Some(add_usd) => match ck_u(p.initial_margin_usd_from_portfolio + add_usd) {
                            None => None,
                            Some(nfp) => Some((add, nfp)),
                        },
                    }
                },
            },
        }
    }
}

/// Outcome of `reduce_position_portfolio_balance`: the USD worth of
/// `amount` leaves the portfolio part of the margin. When it takes all of
/// it, the part becomes zero and zero is returned (an error when the margin
/// in USD is zero); otherwise `amount` is returned.
pub open spec fn portfolio_reduce_spec(p: UserPosition, amount: int) -> (BumpResult<u128>, UserPosition) {
    match mul_div_spec(amount, p.initial_margin_usd as int, p.initial_margin as int) {
        None => (Err(BumpErrorCode::MathError), p),
        Some(red) => if p.initial_margin_usd_from_portfolio <= red {
            let p1 = UserPosition { initial_margin_usd_from_portfolio: 0, ..p };
            if p.initial_margin_usd == 0 {
                (Err(BumpErrorCode::MathError), p1)
            } else {
                (Ok(0u128), p1)
            }
        } else {
            (
                Ok(amount as u128),
                UserPosition {
                    initial_margin_usd_from_portfolio: (p.initial_margin_usd_from_portfolio
                        - red) as u128,
                    ..p
                },
            )
        },
    }
}

// ---------------------------------------------------------------------------
// Implementation
// ---------------------------------------------------------------------------

impl UserPosition {

    /// Adds to the position's size (USD).
    pub fn add_position_size(&mut self, position_size: u128) -> (r: BumpResult)
        ensures
            fits_u(old(self).position_size + position_size) ==> r == Ok::<(), BumpErrorCode>(()) && *final(self)
                == (UserPosition { position_size: (old(self).position_size + position_size) as u128, ..*old(self) }),
            !fits_u(old(self).position_size + position_size) ==> r == Err::<(), BumpErrorCode>(
                BumpErrorCode::MathError,
            ) && *final(self) == *old(self),
    {
        self.position_size = safe_add_u(self.position_size, position_size)?;
        Ok(())
    }

    /// Adds to the open fee paid (margin tokens).
    pub fn add_open_fee(&mut self, open_fee: u128) -> (r: BumpResult)
        ensures
            fits_u(old(self).open_fee + open_fee) ==> r == Ok::<(), BumpErrorCode>(()) && *final(self)
                == (UserPosition { open_fee: (old(self).open_fee + open_fee) as u128, ..*old(self) }),
            !fits_u(old(self).open_fee + open_fee) ==> r == Err::<(), BumpErrorCode>(
                BumpErrorCode::MathError,
            ) && *final(self) == *old(self),
    {
        self.open_fee = safe_add_u(self.open_fee, open_fee)?;
        Ok(())
    }

    /// Adds to the open fee paid (USD).
    pub fn add_open_fee_in_usd(&mut self, open_fee_in_usd: u128) -> (r: BumpResult)
        ensures
            fits_u(old(self).open_fee_in_usd + open_fee_in_usd) ==> r == Ok::<(), BumpErrorCode>(()) && *final(self)
                == (UserPosition { open_fee_in_usd: (old(self).open_fee_in_usd + open_fee_in_usd) as u128, ..*old(self) }),
            !fits_u(old(self).open_fee_in_usd + open_fee_in_usd) ==> r == Err::<(), BumpErrorCode>(
                BumpErrorCode::MathError,
            ) && *final(self) == *old(self),
    {
        self.open_fee_in_usd = safe_add_u(self.open_fee_in_usd, open_fee_in_usd)?;
        Ok(())
    }

    /// Adds to the initial margin (margin tokens).
    pub fn add_initial_margin(&mut self, initial_margin: u128) -> (r: BumpResult)
        ensures
            fits_u(old(self).initial_margin + initial_margin) ==> r == Ok::<(), BumpErrorCode>(()) && *final(self)
                == (UserPosition { initial_margin: (old(self).initial_margin + initial_margin) as u128, ..*old(self) }),
            !fits_u(old(self).initial_margin + initial_margin) ==> r == Err::<(), BumpErrorCode>(
                BumpErrorCode::MathError,
            ) && *final(self) == *old(self),
    {
        self.initial_margin = safe_add_u(self.initial_margin, initial_margin)?;
        Ok(())
    }

    /// Adds to the realized borrowing fee (margin tokens).
    pub fn add_realized_borrowing_fee(&mut self, realized_borrowing_fee: u128) -> (r: BumpResult)
        ensures
            fits_u(old(self).realized_borrowing_fee + realized_borrowing_fee) ==> r == Ok::<(), BumpErrorCode>(()) && *final(self)
                == (UserPosition { realized_borrowing_fee: (old(self).realized_borrowing_fee + realized_borrowing_fee) as u128, ..*old(self) }),
            !fits_u(old(self).realized_borrowing_fee + realized_borrowing_fee) ==> r == Err::<(), BumpErrorCode>(
                BumpErrorCode::MathError,
            ) && *final(self) == *old(self),
    {
        self.realized_borrowing_fee = safe_add_u(self.realized_borrowing_fee, realized_borrowing_fee)?;
        Ok(())
    }

    /// Adds to the realized borrowing fee (USD).
    pub fn add_realized_borrowing_fee_in_usd(&mut self, realized_borrowing_fee_in_usd: u128) -> (r: BumpResult)
        ensures
            fits_u(old(self).realized_borrowing_fee_in_usd + realized_borrowing_fee_in_usd) ==> r == Ok::<(), BumpErrorCode>(()) && *final(self)
                == (UserPosition { realized_borrowing_fee_in_usd: (old(self).realized_borrowing_fee_in_usd + realized_borrowing_fee_in_usd) as u128, ..*old(self) }),
            !fits_u(old(self).realized_borrowing_fee_in_usd + realized_borrowing_fee_in_usd) ==> r == Err::<(), BumpErrorCode>(
                BumpErrorCode::MathError,
            ) && *final(self) == *old(self),
    {
        self.realized_borrowing_fee_in_usd = safe_add_u(self.realized_borrowing_fee_in_usd, realized_borrowing_fee_in_usd)?;
        Ok(())
    }

    /// Adds to the initial margin (USD).
    pub fn add_initial_margin_usd(&mut self, initial_margin_usd: u128) -> (r: BumpResult)
        ensures
            fits_u(old(self).initial_margin_usd + initial_margin_usd) ==> r == Ok::<(), BumpErrorCode>(()) && *final(self)
                == (UserPosition { initial_margin_usd: (old(self).initial_margin_usd + initial_margin_usd) as u128, ..*old(self) }),
            !fits_u(old(self).initial_margin_usd + initial_margin_usd) ==> r == Err::<(), BumpErrorCode>(
                BumpErrorCode::MathError,
            ) && *final(self) == *old(self),
    {
        self.initial_margin_usd = safe_add_u(self.initial_margin_usd, initial_margin_usd)?;
        Ok(())
    }

    /// Adds to the part of the initial margin (USD) taken from the portfolio.
    pub fn add_initial_margin_usd_from_portfolio(&mut self, initial_margin_usd_from_portfolio: u128) -> (r: BumpResult)
        ensures
            fits_u(old(self).initial_margin_usd_from_portfolio + initial_margin_usd_from_portfolio) ==> r == Ok::<(), BumpErrorCode>(()) && *final(self)
                == (UserPosition { initial_margin_usd_from_portfolio: (old(self).initial_margin_usd_from_portfolio + initial_margin_usd_from_portfolio) as u128, ..*old(self) }),
            !fits_u(old(self).initial_margin_usd_from_portfolio + initial_margin_usd_from_portfolio) ==> r == Err::<(), BumpErrorCode>(
                BumpErrorCode::MathError,
            ) && *final(self) == *old(self),
    {
        self.initial_margin_usd_from_portfolio = safe_add_u(self.initial_margin_usd_from_portfolio, initial_margin_usd_from_portfolio)?;
        Ok(())
    }

    /// Adds to the close fee owed (USD).
    pub fn add_close_fee_in_usd(&mut self, close_fee_in_usd: u128) -> (r: BumpResult)
        ensures
            fits_u(old(self).close_fee_in_usd + close_fee_in_usd) ==> r == Ok::<(), BumpErrorCode>(()) && *final(self)
                == (UserPosition { close_fee_in_usd: (old(self).close_fee_in_usd + close_fee_in_usd) as u128, ..*old(self) }),
            !fits_u(old(self).close_fee_in_usd + close_fee_in_usd) ==> r == Err::<(), BumpErrorCode>(
                BumpErrorCode::MathError,
            ) && *final(self) == *old(self),
    {
        self.close_fee_in_usd = safe_add_u(self.close_fee_in_usd, close_fee_in_usd)?;
        Ok(())
    }

    /// Adds to the amount the position holds in its pool.
    pub fn add_hold_pool_amount(&mut self, hold_pool_amount: u128) -> (r: BumpResult)
        ensures
            fits_u(old(self).hold_pool_amount + hold_pool_amount) ==> r == Ok::<(), BumpErrorCode>(()) && *final(self)
                == (UserPosition { hold_pool_amount: (old(self).hold_pool_amount + hold_pool_amount) as u128, ..*old(self) }),
            !fits_u(old(self).hold_pool_amount + hold_pool_amount) ==> r == Err::<(), BumpErrorCode>(
                BumpErrorCode::MathError,
            ) && *final(self) == *old(self),
    {
        self.hold_pool_amount = safe_add_u(self.hold_pool_amount, hold_pool_amount)?;
        Ok(())
    }

    /// Adds to the realized funding fee (margin tokens).
    pub fn add_realized_funding_fee(&mut self, realized_funding_fee: i128) -> (r: BumpResult)
        ensures
            fits_i(old(self).realized_funding_fee + realized_funding_fee) ==> r == Ok::<(), BumpErrorCode>(()) && *final(self)
                == (UserPosition { realized_funding_fee: (old(self).realized_funding_fee + realized_funding_fee) as i128, ..*old(self) }),
            !fits_i(old(self).realized_funding_fee + realized_funding_fee) ==> r == Err::<(), BumpErrorCode>(
                BumpErrorCode::MathError,
            ) && *final(self) == *old(self),
    {
        self.realized_funding_fee = safe_add_i(self.realized_funding_fee, realized_funding_fee)?;
        Ok(())
    }

    /// Adds to the realized funding fee (USD).
    pub fn add_realized_funding_fee_in_usd(&mut self, realized_funding_fee_in_usd: i128) -> (r: BumpResult)
        ensures
            fits_i(old(self).realized_funding_fee_in_usd + realized_funding_fee_in_usd) ==> r == Ok::<(), BumpErrorCode>(()) && *final(self)
                == (UserPosition { realized_funding_fee_in_usd: (old(self).realized_funding_fee_in_usd + realized_funding_fee_in_usd) as i128, ..*old(self) }),
            !fits_i(old(self).realized_funding_fee_in_usd + realized_funding_fee_in_usd) ==> r == Err::<(), BumpErrorCode>(
                BumpErrorCode::MathError,
            ) && *final(self) == *old(self),
    {
        self.realized_funding_fee_in_usd = safe_add_i(self.realized_funding_fee_in_usd, realized_funding_fee_in_usd)?;
        Ok(())
    }

    /// Adds to the realized profit (USD).
    pub fn add_realized_pnl(&mut self, realized_pnl: i128) -> (r: BumpResult)
        ensures
            fits_i(old(self).realized_pnl + realized_pnl) ==> r == Ok::<(), BumpErrorCode>(()) && *final(self)
                == (UserPosition { realized_pnl: (old(self).realized_pnl + realized_pnl) as i128, ..*old(self) }),
            !fits_i(old(self).realized_pnl + realized_pnl) ==> r == Err::<(), BumpErrorCode>(
                BumpErrorCode::MathError,
            ) && *final(self) == *old(self),
    {
        self.realized_pnl = safe_add_i(self.realized_pnl, realized_pnl)?;
        Ok(())
    }

    /// Removes from the position's size.
    pub fn sub_position_size(&mut self, position_size: u128) -> (r: BumpResult)
        ensures
            fits_u(old(self).position_size - position_size) ==> r == Ok::<(), BumpErrorCode>(()) && *final(self)
                == (UserPosition { position_size: (old(self).position_size - position_size) as u128, ..*old(self) }),
            !fits_u(old(self).position_size - position_size) ==> r == Err::<(), BumpErrorCode>(
                BumpErrorCode::MathError,
            ) && *final(self) == *old(self),
    {
        self.position_size = safe_sub_u(self.position_size, position_size)?;
        Ok(())
    }

    /// Removes from the initial margin (margin tokens).
    pub fn sub_initial_margin(&mut self, initial_margin: u128) -> (r: BumpResult)
        ensures
            fits_u(old(self).initial_margin - initial_margin) ==> r == Ok::<(), BumpErrorCode>(()) && *final(self)
                == (UserPosition { initial_margin: (old(self).initial_margin - initial_margin) as u128, ..*old(self) }),
            !fits_u(old(self).initial_margin - initial_margin) ==> r == Err::<(), BumpErrorCode>(
                BumpErrorCode::MathError,
            ) && *final(self) == *old(self),
    {
        self.initial_margin = safe_sub_u(self.initial_margin, initial_margin)?;
        Ok(())
    }

    /// Removes from the initial margin (USD).
    pub fn sub_initial_margin_usd(&mut self, initial_margin_usd: u128) -> (r: BumpResult)
        ensures
            fits_u(old(self).initial_margin_usd - initial_margin_usd) ==> r == Ok::<(), BumpErrorCode>(()) && *final(self)
                == (UserPosition { initial_margin_usd: (old(self).initial_margin_usd - initial_margin_usd) as u128, ..*old(self) }),
            !fits_u(old(self).initial_margin_usd - initial_margin_usd) ==> r == Err::<(), BumpErrorCode>(
                BumpErrorCode::MathError,
            ) && *final(self) == *old(self),
    {
        self.initial_margin_usd = safe_sub_u(self.initial_margin_usd, initial_margin_usd)?;
        Ok(())
    }

    /// Removes from the part of the initial margin taken from the portfolio.
    pub fn sub_initial_margin_usd_from_portfolio(&mut self, initial_margin_usd_from_portfolio: u128) -> (r: BumpResult)
        ensures
            fits_u(old(self).initial_margin_usd_from_portfolio - initial_margin_usd_from_portfolio) ==> r == Ok::<(), BumpErrorCode>(()) && *final(self)
                == (UserPosition { initial_margin_usd_from_portfolio: (old(self).initial_margin_usd_from_portfolio - initial_margin_usd_from_portfolio) as u128, ..*old(self) }),
            !fits_u(old(self).initial_margin_usd_from_portfolio - initial_margin_usd_from_portfolio) ==> r == Err::<(), BumpErrorCode>(
                BumpErrorCode::MathError,
            ) && *final(self) == *old(self),
    {
        self.initial_margin_usd_from_portfolio = safe_sub_u(self.initial_margin_usd_from_portfolio, initial_margin_usd_from_portfolio)?;
        Ok(())
    }

    /// Removes from the amount held in the pool.
    pub fn sub_hold_pool_amount(&mut self, hold_pool_amount: u128) -> (r: BumpResult)
        ensures
            fits_u(old(self).hold_pool_amount - hold_pool_amount) ==> r == Ok::<(), BumpErrorCode>(()) && *final(self)
                == (UserPosition { hold_pool_amount: (old(self).hold_pool_amount - hold_pool_amount) as u128, ..*old(self) }),
            !fits_u(old(self).hold_pool_amount - hold_pool_amount) ==> r == Err::<(), BumpErrorCode>(
                BumpErrorCode::MathError,
            ) && *final(self) == *old(self),
    {
        self.hold_pool_amount = safe_sub_u(self.hold_pool_amount, hold_pool_amount)?;
        Ok(())
    }

    /// Removes a settled part of the realized borrowing fee (margin tokens).
    pub fn sub_realized_borrowing_fee(&mut self, realized_borrowing_fee: u128) -> (r: BumpResult)
        ensures
            fits_u(old(self).realized_borrowing_fee - realized_borrowing_fee) ==> r == Ok::<(), BumpErrorCode>(()) && *final(self)
                == (UserPosition { realized_borrowing_fee: (old(self).realized_borrowing_fee - realized_borrowing_fee) as u128, ..*old(self) }),
            !fits_u(old(self).realized_borrowing_fee - realized_borrowing_fee) ==> r == Err::<(), BumpErrorCode>(
                BumpErrorCode::MathError,
            ) && *final(self) == *old(self),
    {
        self.realized_borrowing_fee = safe_sub_u(self.realized_borrowing_fee, realized_borrowing_fee)?;
        Ok(())
    }

    /// Removes a settled part of the realized borrowing fee (USD).
    pub fn sub_realized_borrowing_fee_usd(&mut self, realized_borrowing_fee_in_usd: u128) -> (r: BumpResult)
        ensures
            fits_u(old(self).realized_borrowing_fee_in_usd - realized_borrowing_fee_in_usd) ==> r == Ok::<(), BumpErrorCode>(()) && *final(self)
                == (UserPosition { realized_borrowing_fee_in_usd: (old(self).realized_borrowing_fee_in_usd - realized_borrowing_fee_in_usd) as u128, ..*old(self) }),
            !fits_u(old(self).realized_borrowing_fee_in_usd - realized_borrowing_fee_in_usd) ==> r == Err::<(), BumpErrorCode>(
                BumpErrorCode::MathError,
            ) && *final(self) == *old(self),
    {
        self.realized_borrowing_fee_in_usd = safe_sub_u(self.realized_borrowing_fee_in_usd, realized_borrowing_fee_in_usd)?;
        Ok(())
    }

    /// Removes a settled part of the close fee (USD).
    pub fn sub_close_fee_usd(&mut self, close_fee_in_usd: u128) -> (r: BumpResult)
        ensures
            fits_u(old(self).close_fee_in_usd - close_fee_in_usd) ==> r == Ok::<(), BumpErrorCode>(()) && *final(self)
                == (UserPosition { close_fee_in_usd: (old(self).close_fee_in_usd - close_fee_in_usd) as u128, ..*old(self) }),
            !fits_u(old(self).close_fee_in_usd - close_fee_in_usd) ==> r == Err::<(), BumpErrorCode>(
                BumpErrorCode::MathError,
            ) && *final(self) == *old(self),
    {
        self.close_fee_in_usd = safe_sub_u(self.close_fee_in_usd, close_fee_in_usd)?;
        Ok(())
    }

    /// Removes a settled part of the realized funding fee (margin tokens).
    pub fn sub_realized_funding_fee(&mut self, realized_funding_fee: i128) -> (r: BumpResult)
        ensures
            fits_i(old(self).realized_funding_fee - realized_funding_fee) ==> r == Ok::<(), BumpErrorCode>(()) && *final(self)
                == (UserPosition { realized_funding_fee: (old(self).realized_funding_fee - realized_funding_fee) as i128, ..*old(self) }),
            !fits_i(old(self).realized_funding_fee - realized_funding_fee) ==> r == Err::<(), BumpErrorCode>(
                BumpErrorCode::MathError,
            ) && *final(self) == *old(self),
    {
        self.realized_funding_fee = safe_sub_i(self.realized_funding_fee, realized_funding_fee)?;
        Ok(())
    }

    /// Removes a settled part of the realized funding fee (USD).
    pub fn sub_realized_funding_fee_usd(&mut self, realized_funding_fee_in_usd: i128) -> (r: BumpResult)
        ensures
            fits_i(old(self).realized_funding_fee_in_usd - realized_funding_fee_in_usd) ==> r == Ok::<(), BumpErrorCode>(()) && *final(self)
                == (UserPosition { realized_funding_fee_in_usd: (old(self).realized_funding_fee_in_usd - realized_funding_fee_in_usd) as i128, ..*old(self) }),
            !fits_i(old(self).realized_funding_fee_in_usd - realized_funding_fee_in_usd) ==> r == Err::<(), BumpErrorCode>(
                BumpErrorCode::MathError,
            ) && *final(self) == *old(self),
    {
        self.realized_funding_fee_in_usd = safe_sub_i(self.realized_funding_fee_in_usd, realized_funding_fee_in_usd)?;
        Ok(())
    }

    /// Sets the entry price.
    pub fn set_entry_price(&mut self, entry_price: u128) -> (r: BumpResult)
        ensures
            r == Ok::<(), BumpErrorCode>(()),
            *final(self) == (UserPosition { entry_price: entry_price, ..*old(self) }),
    {
        self.entry_price = entry_price;
        Ok(())
    }

    /// Sets the margin token's price at entry.
    pub fn set_margin_token_entry_price(&mut self, entry_price: u128) -> (r: BumpResult)
        ensures
            r == Ok::<(), BumpErrorCode>(()),
            *final(self) == (UserPosition { margin_token_entry_price: entry_price, ..*old(self) }),
    {
        self.margin_token_entry_price = entry_price;
        Ok(())
    }

    /// Sets the user's token account.
    pub fn set_user_token_account(&mut self, user_token_account: Pubkey) -> (r: BumpResult)
        ensures
            r == Ok::<(), BumpErrorCode>(()),
            *final(self) == (UserPosition { user_token_account: user_token_account, ..*old(self) }),
    {
        self.user_token_account = user_token_account;
        Ok(())
    }

    /// Sets the initial margin (margin tokens).
    pub fn set_initial_margin(&mut self, initial_margin: u128) -> (r: BumpResult)
        ensures
            r == Ok::<(), BumpErrorCode>(()),
            *final(self) == (UserPosition { initial_margin: initial_margin, ..*old(self) }),
    {
        self.initial_margin = initial_margin;
        Ok(())
    }

    /// Sets the open fee.
    pub fn set_open_fee(&mut self, open_fee: u128) -> (r: BumpResult)
        ensures
            r == Ok::<(), BumpErrorCode>(()),
            *final(self) == (UserPosition { open_fee: open_fee, ..*old(self) }),
    {
        self.open_fee = open_fee;
        Ok(())
    }

    /// Sets the initial margin (USD).
    pub fn set_initial_margin_usd(&mut self, initial_margin_usd: u128) -> (r: BumpResult)
        ensures
            r == Ok::<(), BumpErrorCode>(()),
            *final(self) == (UserPosition { initial_margin_usd: initial_margin_usd, ..*old(self) }),
    {
        self.initial_margin_usd = initial_margin_usd;
        Ok(())
    }

    /// Sets the leverage (rate precision).
    pub fn set_leverage(&mut self, leverage: u32) -> (r: BumpResult)
        ensures
            r == Ok::<(), BumpErrorCode>(()),
            *final(self) == (UserPosition { leverage: leverage, ..*old(self) }),
    {
        self.leverage = leverage;
        Ok(())
    }

    /// Sets the maintenance margin (USD).
    pub fn set_mm_usd(&mut self, mm_usd: u128) -> (r: BumpResult)
        ensures
            r == Ok::<(), BumpErrorCode>(()),
            *final(self) == (UserPosition { mm_usd: mm_usd, ..*old(self) }),
    {
        self.mm_usd = mm_usd;
        Ok(())
    }

    /// Sets the realized profit.
    pub fn set_realized_pnl(&mut self, realized_pnl: i128) -> (r: BumpResult)
        ensures
            r == Ok::<(), BumpErrorCode>(()),
            *final(self) == (UserPosition { realized_pnl: realized_pnl, ..*old(self) }),
    {
        self.realized_pnl = realized_pnl;
        Ok(())
    }

    /// Sets the pool's borrowing accumulator at the last settlement.
    pub fn set_open_borrowing_fee_per_token(&mut self, open_borrowing_fee_per_token: u128) -> (r: BumpResult)
        ensures
            r == Ok::<(), BumpErrorCode>(()),
            *final(self) == (UserPosition { open_borrowing_fee_per_token: open_borrowing_fee_per_token, ..*old(self) }),
    {
        self.open_borrowing_fee_per_token = open_borrowing_fee_per_token;
        Ok(())
    }

    /// Sets the market's funding accumulator at the last settlement.
    pub fn set_open_funding_fee_amount_per_size(&mut self, open_funding_fee_amount_per_size: i128) -> (r: BumpResult)
        ensures
            r == Ok::<(), BumpErrorCode>(()),
            *final(self) == (UserPosition { open_funding_fee_amount_per_size: open_funding_fee_amount_per_size, ..*old(self) }),
    {
        self.open_funding_fee_amount_per_size = open_funding_fee_amount_per_size;
        Ok(())
    }

    /// Sets the part of the initial margin taken from the portfolio.
    pub fn set_initial_margin_usd_from_portfolio(&mut self, initial_margin_usd_from_portfolio: u128) -> (r: BumpResult)
        ensures
            r == Ok::<(), BumpErrorCode>(()),
            *final(self) == (UserPosition { initial_margin_usd_from_portfolio: initial_margin_usd_from_portfolio, ..*old(self) }),
    {
        self.initial_margin_usd_from_portfolio = initial_margin_usd_from_portfolio;
        Ok(())
    }

    /// Sets the position's size.
    pub fn set_position_size(&mut self, position_size: u128) -> (r: BumpResult)
        ensures
            r == Ok::<(), BumpErrorCode>(()),
            *final(self) == (UserPosition { position_size: position_size, ..*old(self) }),
    {
        self.position_size = position_size;
        Ok(())
    }

    /// Sets the time of the last update.
    pub fn set_last_update(&mut self, last_update: i64) -> (r: BumpResult)
        ensures
            r == Ok::<(), BumpErrorCode>(()),
            *final(self) == (UserPosition { updated_at: last_update, ..*old(self) }),
    {
        self.updated_at = last_update;
        Ok(())
    }

    /// Sets the position's key.
    pub fn set_position_key(&mut self, position_key: Pubkey) -> (r: BumpResult)
        ensures
            r == Ok::<(), BumpErrorCode>(()),
            *final(self) == (UserPosition { position_key: position_key, ..*old(self) }),
    {
        self.position_key = position_key;
        Ok(())
    }

    /// Sets the owning user's key.
    pub fn set_user_key(&mut self, authority: Pubkey) -> (r: BumpResult)
        ensures
            r == Ok::<(), BumpErrorCode>(()),
            *final(self) == (UserPosition { user_key: authority, ..*old(self) }),
    {
        self.user_key = authority;
        Ok(())
    }

    /// Sets the index token's oracle.
    pub fn set_index_mint(&mut self, index_mint_oracle: Pubkey) -> (r: BumpResult)
        ensures
            r == Ok::<(), BumpErrorCode>(()),
            *final(self) == (UserPosition { index_mint_oracle: index_mint_oracle, ..*old(self) }),
    {
        self.index_mint_oracle = index_mint_oracle;
        Ok(())
    }

    /// Sets the market symbol.
    pub fn set_symbol(&mut self, symbol: [u8; 32]) -> (r: BumpResult)
        ensures
            r == Ok::<(), BumpErrorCode>(()),
            *final(self) == (UserPosition { symbol: symbol, ..*old(self) }),
    {
        self.symbol = symbol;
        Ok(())
    }

    /// Sets the margin token.
    pub fn set_margin_mint(&mut self, margin_mint: Pubkey) -> (r: BumpResult)
        ensures
            r == Ok::<(), BumpErrorCode>(()),
            *final(self) == (UserPosition { margin_mint_key: margin_mint, ..*old(self) }),
    {
        self.margin_mint_key = margin_mint;
        Ok(())
    }

    /// Sets the direction.
    pub fn set_is_long(&mut self, is_long: bool) -> (r: BumpResult)
        ensures
            r == Ok::<(), BumpErrorCode>(()),
            *final(self) == (UserPosition { is_long: is_long, ..*old(self) }),
    {
        self.is_long = is_long;
        Ok(())
    }

    /// Sets whether the margin comes from the portfolio (cross margin).
    pub fn set_portfolio_margin(&mut self, is_portfolio_margin: bool) -> (r: BumpResult)
        ensures
            r == Ok::<(), BumpErrorCode>(()),
            *final(self) == (UserPosition { is_portfolio_margin: is_portfolio_margin, ..*old(self) }),
    {
        self.is_portfolio_margin = is_portfolio_margin;
        Ok(())
    }

    /// Sets the status.
    pub fn set_status(&mut self, status: PositionStatus) -> (r: BumpResult)
        ensures
            r == Ok::<(), BumpErrorCode>(()),
            *final(self) == (UserPosition { status: status, ..*old(self) }),
    {
        self.status = status;
        Ok(())
    }

    /// Takes back, from a portfolio deposit of `amount`, margin the position
    /// borrowed (see `portfolio_add_spec`); returns the amount taken.
    pub fn add_position_portfolio_balance(&mut self, amount: u128) -> (r: BumpResult<u128>)
        ensures
            portfolio_add_spec(*old(self), amount as int) matches Some((ret, nfp)) ==> r == Ok::<
                u128,
                BumpErrorCode,
            >(ret as u128) && *final(self) == (UserPosition {
                initial_margin_usd_from_portfolio: nfp as u128,
                ..*old(self)
            }),
            portfolio_add_spec(*old(self), amount as int) is None ==> r == Err::<u128, BumpErrorCode>(
                BumpErrorCode::MathError,
            ) && *final(self) == *old(self),
    {
        if self.initial_margin_usd == self.initial_margin_usd_from_portfolio {
            Ok(0)
        } else {
            let d = safe_sub_u(self.initial_margin_usd, self.initial_margin_usd_from_portfolio)?;
            let p = safe_mul_u(d, self.initial_margin)?;
            let borrow_margin = safe_div_u(p, self.initial_margin_usd)?;
            let add_initial_amount = if amount <= borrow_margin {
                amount
            } else {
                borrow_margin
            };
            let q = safe_mul_u(add_initial_amount, self.initial_margin_usd)?;
            let add_initial_amount_usd = safe_div_u(q, self.initial_margin)?;
            self.initial_margin_usd_from_portfolio = safe_add_u(
                self.initial_margin_usd_from_portfolio,
                add_initial_amount_usd,
            )?;
            Ok(add_initial_amount)
        }
    }

    /// Removes the USD worth of `amount` from the portfolio part of the
    /// margin (see `portfolio_reduce_spec`).
    pub fn reduce_position_portfolio_balance(&mut self, amount: u128) -> (r: BumpResult<u128>)
        ensures
            (r, *final(self)) == portfolio_reduce_spec(*old(self), amount as int),
    {
        let p = safe_mul_u(amount, self.initial_margin_usd)?;
        let reduce_initial_margin_usd = safe_div_u(p, self.initial_margin)?;
        if self.initial_margin_usd_from_portfolio <= reduce_initial_margin_usd {
            self.initial_margin_usd_from_portfolio = 0;
            let z = safe_mul_u(self.initial_margin_usd_from_portfolio, self.initial_margin)?;
            safe_div_u(z, self.initial_margin_usd)
        } else {
            self.initial_margin_usd_from_portfolio = safe_sub_u(
                self.initial_margin_usd_from_portfolio,
                reduce_initial_margin_usd,
            )?;
            Ok(amount)
        }
    }

    /// Unrealized profit in USD at `index_price` (see `un_pnl_usd_spec`).
    pub fn get_position_un_pnl_usd(&self, index_price: u128) -> (r: BumpResult<i128>)
        ensures
            r == res_i(un_pnl_usd_spec(*self, index_price as int)),
    {
        if self.position_size == 0u128 {
            return Ok(0i128);
        }
        let size = cast_to_i(self.position_size)?;
        let index = cast_to_i(index_price)?;
        let entry = cast_to_i(self.entry_price)?;
        let mv = if self.is_long {
            safe_sub_i(index, entry)?
        } else {
            safe_sub_i(entry, index)?
        };
        let p = safe_mul_i(size, mv)?;
        safe_div_i(p, entry)
    }

    /// Maintenance margin of the position in its market.
    pub fn get_position_mm(&self, market: &Market, state: &State) -> (r: BumpResult<u128>)
        ensures
            r == res_u(
                mm_spec(
                    self.position_size as int,
                    market.config.maximum_leverage as int,
                    state.maximum_maintenance_margin_rate as int,
                ),
            ),
    {
        get_mm(
            self.position_size,
            market.config.maximum_leverage,
            state.maximum_maintenance_margin_rate,
        )
    }

    /// Unrealized profit in margin tokens (see `un_pnl_token_spec`).
    pub fn get_position_un_pnl_token(
        &self,
        trade_token: &TradeToken,
        mint_token_price: u128,
        index_price: u128,
    ) -> (r: BumpResult<i128>)
        ensures
            r == res_i(
                un_pnl_token_spec(
                    *self,
                    trade_token.decimals as int,
                    mint_token_price as int,
                    index_price as int,
                ),
            ),
    {
        if self.position_size == 0u128 {
            return Ok(0i128);
        }
        let un_pnl_usd = self.get_position_un_pnl_usd(index_price)?;
        usd_to_token_i(un_pnl_usd, trade_token.decimals, mint_token_price)
    }

    /// Fees owed in USD (see `position_fee_spec`).
    pub fn get_position_fee(
        &self,
        market: &Market,
        pool: &Pool,
        margin_mint_price: u128,
        trade_token_decimals: u16,
    ) -> (r: BumpResult<i128>)
        ensures
            r == res_i(
                position_fee_spec(
                    *self,
                    *market,
                    *pool,
                    margin_mint_price as int,
                    trade_token_decimals as int,
                ),
            ),
    {
        let funding_fee_amount_per_size = if self.is_long {
            market.funding_fee.long_funding_fee_amount_per_size
        } else {
            market.funding_fee.short_funding_fee_amount_per_size
        };
        let size = cast_to_i(self.position_size)?;
        let dps = safe_sub_i(funding_fee_amount_per_size, self.open_funding_fee_amount_per_size)?;
        let funding_fee = mul_per_token_rate_i(size, dps)?;
        let funding_fee_usd = if self.is_long {
            token_to_usd_i(funding_fee, trade_token_decimals, margin_mint_price)?
        } else {
            funding_fee
        };
        let funding_fee_total_usd = safe_add_i(self.realized_funding_fee_in_usd, funding_fee_usd)?;
        let lev = safe_sub_u(self.leverage as u128, RATE_PRECISION)?;
        let initial_margin_leverage = mul_rate_u(self.initial_margin, lev)?;
        let dpt = safe_sub_u(
            pool.borrowing_fee.cumulative_borrowing_fee_per_token,
            self.open_borrowing_fee_per_token,
        )?;
        let borrowing_fee = mul_per_token_rate_u(dpt, initial_margin_leverage)?;
        let borrowing_fee_usd = token_to_usd_u(
            borrowing_fee,
            trade_token_decimals,
            margin_mint_price,
        )?;
        let borrowing_fee_total_usd = safe_add_u(
            self.realized_borrowing_fee_in_usd,
            borrowing_fee_usd,
        )?;
        let b = cast_to_i(borrowing_fee_total_usd)?;
        let c = cast_to_i(self.close_fee_in_usd)?;
        let t = safe_add_i(funding_fee_total_usd, b)?;
        safe_add_i(t, c)
    }

    /// What a portfolio-margin position contributes to its account:
    /// `(margin from portfolio, unrealized profit, maintenance margin,
    /// margin)`; an isolated position contributes nothing.
    pub fn get_position_value(&self, price: u128) -> (r: BumpResult<(u128, i128, u128, u128)>)
        ensures
            !self.is_portfolio_margin ==> r == Ok::<(u128, i128, u128, u128), BumpErrorCode>(
                (0u128, 0i128, 0u128, 0u128),
            ),
            self.is_portfolio_margin ==> match un_pnl_usd_spec(*self, price as int) {
                Some(pnl) => if fits_i(pnl) {
                    r == Ok::<(u128, i128, u128, u128), BumpErrorCode>(
                        (
                            self.initial_margin_usd_from_portfolio,
                            pnl as i128,
                            self.mm_usd,
                            self.initial_margin,
                        ),
                    )
                } else {
                    r == Err::<(u128, i128, u128, u128), BumpErrorCode>(BumpErrorCode::MathError)
                },
                None => r == Err::<(u128, i128, u128, u128), BumpErrorCode>(
                    BumpErrorCode::MathError,
                ),
            },
    {
        if self.is_portfolio_margin {
            let position_un_pnl = self.get_position_un_pnl_usd(price)?;
            Ok(
                (
                    self.initial_margin_usd_from_portfolio,
                    position_un_pnl,
                    self.mm_usd,
                    self.initial_margin,
                ),
            )
        } else {
            Ok((0u128, 0i128, 0u128, 0u128))
        }
    }

    /// Liquidation price (see `liquidation_price_spec`).
    pub fn get_liquidation_price(
        &self,
        market: &Market,
        pool: &Pool,
        margin_token_price: u128,
        margin_token_decimals: u16,
    ) -> (r: BumpResult<u128>)
        ensures
            r == res_u(
                liquidation_price_spec(
                    *self,
                    *market,
                    *pool,
                    margin_token_price as int,
                    margin_token_decimals as int,
                ),
            ),
    {
        let mm_usd = self.mm_usd;
        let position_fee_usd = self.get_position_fee(
            market,
            pool,
            margin_token_price,
            margin_token_decimals,
        )?;
        let position_value = if self.is_long {
            let a = safe_sub_u(self.position_size, self.initial_margin_usd)?;
            let b = safe_add_u(a, mm_usd)?;
            let bi = cast_to_i(b)?;
            safe_add_i(bi, position_fee_usd)?
        } else {
            let a = safe_add_u(self.position_size, self.initial_margin_usd)?;
            let b = safe_sub_u(a, mm_usd)?;
            let bi = cast_to_i(b)?;
            safe_sub_i(bi, position_fee_usd)?
        };
        if position_value < 0 {
            Ok(0)
        } else {
            let v = cast_to_u(position_value)?;
            let p = safe_mul_u(v, self.entry_price)?;
            safe_div_u(p, self.position_size)
        }
    }
}

/// The unrealized profit of a long and of a short with the same size and
/// entry price are opposite at every index price.
pub proof fn lemma_un_pnl_long_short_opposite(p: UserPosition, index_price: int)
    requires
        fits_i(index_price),
    ensures
        ({
            let long = un_pnl_usd_spec(UserPosition { is_long: true, ..p }, index_price);
            let short = un_pnl_usd_spec(UserPosition { is_long: false, ..p }, index_price);
            (long is Some && short is Some) ==> long->0 == -short->0
        }),
{
    let s = p.position_size as int;
    let m = index_price - p.entry_price;
    assert(s * (-m) == -(s * m)) by (nonlinear_arith);
    if p.entry_price > 0 {
        assert(tdiv(-(s * m), p.entry_price as int) == -tdiv(s * m, p.entry_price as int));
    }
}

} // verus!
