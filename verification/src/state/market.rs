//! Perpetual markets: open interest, funding and the loss shared with the
//! stable pool.
use vstd::prelude::*;

use crate::calculator::{
    avg_entry_price_spec, compute_avg_entry_price, compute_decrease_avg_entry_price,
    div_to_precision_i, div_to_precision_u, diff_u, mul_div_u,
};
use crate::errors::{BumpErrorCode, BumpResult};
use crate::math::{
    cast_to_i, ck_div_u, ck_i, ck_u, fits_i, fits_u, mul_div_i_spec, mul_div_spec, res_i,
    safe_add_i, safe_add_u, safe_div_i, safe_div_u, safe_mul_i, safe_mul_u, safe_sub_i,
    safe_sub_u, tdiv, PRICE_PRECISION, SMALL_RATE_TO_PER_TOKEN_PRECISION,
};
use crate::pubkey::Pubkey;
use crate::state::infrastructure::market_funding_fee::{
    funding_durations_spec, funding_fee_update_spec, MarketFundingFee,
};
use crate::state::oracle_map::{oracle_price_spec, OracleMap};
use crate::state::state::State;

verus! {

/// A perpetual market on an index token.
#[derive(Clone, Copy, Debug)]
pub struct Market {
    pub symbol: [u8; 32],
    pub long_open_interest: MarketPosition,
    pub short_open_interest: MarketPosition,
    pub funding_fee: MarketFundingFee,
    pub config: MarketConfig,
    /// Loss (negative) or profit (positive) of shorts owed between the pool
    /// and the stable pool, in stable tokens.
    pub stable_loss: i128,
    pub pool_key: Pubkey,
    pub pool_mint_key: Pubkey,
    pub index_mint_oracle: Pubkey,
    pub stable_pool_key: Pubkey,
    pub stable_pool_mint_key: Pubkey,
    pub stable_unsettle_loss: u128,
    pub index: u16,
    pub market_status: MarketStatus,
    pub share_short: bool,
}

/// Trading status of a market.
#[derive(Clone, Copy, Debug, PartialEq, Eq, Structural)]
pub enum MarketStatus {
    NORMAL,
    ReduceOnly,
    Pause,
}

impl Default for MarketStatus {
    fn default() -> (r: Self)
        ensures
            r == MarketStatus::NORMAL,
    {
        MarketStatus::NORMAL
    }
}

/// Open interest of one side of a market.
#[derive(Clone, Copy, Debug)]
pub struct MarketPosition {
    /// Total size (USD).
    pub open_interest: u128,
    /// Average entry price of the open interest.
    pub entry_price: u128,
}

/// Trading parameters of a market.
#[derive(Clone, Copy, Debug)]
pub struct MarketConfig {
    pub tick_size: u128,
    pub open_fee_rate: u128,
    pub close_fee_rate: u128,
    pub maximum_long_open_interest_cap: u128,
    pub maximum_short_open_interest_cap: u128,
    pub long_short_ratio_limit: u128,
    pub long_short_oi_bottom_limit: u128,
    pub maximum_leverage: u32,
    pub minimum_leverage: u32,
    pub max_pool_liquidity_share_rate: u32,
}

/// A change of open interest.
#[derive(Clone, Copy, Debug)]
pub struct UpdateOIParams {
    pub margin_token: Pubkey,
    pub size: u128,
    pub is_long: bool,
    pub entry_price: u128,
    pub token_decimal: u16,
}

// ---------------------------------------------------------------------------
// Model
// ---------------------------------------------------------------------------

/// Interest after adding `size` at `price`.
pub open spec fn added_interest_spec(p: MarketPosition, size: int, price: int) -> Option<
    MarketPosition,
> {
    match ck_u(p.open_interest + size) {
        Some(oi) => Some(MarketPosition { open_interest: oi as u128, entry_price: price as u128 }),
        None => None,
    }
}

/// Interest after removing `size`: closing all of it (or more) resets the
/// side; otherwise the remainder keeps `price` as its entry price.
pub open spec fn removed_interest_spec(p: MarketPosition, size: int, price: int) -> MarketPosition {
    if p.open_interest <= size {
        MarketPosition { open_interest: 0, entry_price: 0 }
    } else {
        MarketPosition {
            open_interest: (p.open_interest - size) as u128,
            entry_price: price as u128,
        }
    }
}

/// The side of the market an open-interest change applies to, after it.
pub open spec fn oi_update_spec(m: Market, add: bool, params: UpdateOIParams) -> Option<
    MarketPosition,
> {
    let p = if params.is_long {
        m.long_open_interest
    } else {
        m.short_open_interest
    };
    if add {
        if p.open_interest == 0 {
            added_interest_spec(p, params.size as int, params.entry_price as int)
        } else {
            match avg_entry_price_spec(
                p.open_interest as int,
                p.entry_price as int,
                params.size as int,
                params.entry_price as int,
                m.config.tick_size as int,
                params.is_long,
            ) {
                Some(avg) => if fits_u(avg) {
                    added_interest_spec(p, params.size as int, avg)
                } else {
                    None
                },
                None => None,
            }
        }
    } else {
        Some(removed_interest_spec(p, params.size as int, p.entry_price as int))
    }
}

/// `m` with the given side replaced.
pub open spec fn with_side(m: Market, is_long: bool, p: MarketPosition) -> Market {
    if is_long {
        Market { long_open_interest: p, ..m }
    } else {
        Market { short_open_interest: p, ..m }
    }
}

/// Funding owed over the period by the paying side (before division by its
/// interest): `max(long, short) * seconds * rate`, where the rate per second
/// is the base rate scaled by the imbalance `|long - short| / (long + short)`.
pub open spec fn total_funding_fee_spec(l: int, s: int, seconds: int, base_rate: int) -> Option<
    int,
> {
    match ck_u(l + s) {
        Some(total) => match mul_div_spec(
            if l >= s {
                l - s
            } else {
                s - l
            },
            base_rate,
            total,
        ) {
            Some(rate) => match ck_u(
                (if l >= s {
                    l
                } else {
                    s
                }) * seconds,
            ) {
                Some(a) => ck_u(a * rate),
                None => None,
            },
            None => None,
        },
        None => None,
    }
}

/// Per-size funding delta of the long side (per-token precision, in index
/// tokens at `price`): positive when longs pay, negative when they receive
/// (capped by the maximum funding rate).
pub open spec fn long_funding_delta_spec(
    l: int,
    s: int,
    seconds: int,
    total_fee: int,
    max_rate: int,
    price: int,
) -> Option<int> {
    let per_qty = if l > s {
        match ck_div_u(total_fee, l) {
            Some(q) => ck_u(q * SMALL_RATE_TO_PER_TOKEN_PRECISION),
            None => None,
        }
    } else {
        match ck_u(max_rate * seconds) {
            Some(cap) => match ck_div_u(total_fee, l) {
                Some(q) => mul_div_spec(
                    if cap <= q {
                        cap
                    } else {
                        q
                    },
                    SMALL_RATE_TO_PER_TOKEN_PRECISION as int,
                    1,
                ),
                None => None,
            },
            None => None,
        }
    };
    match per_qty {
        Some(c) => match mul_div_spec(c, PRICE_PRECISION as int, price) {
            Some(v) => if fits_i(v) {
                Some(
                    if l > s {
                        v
                    } else {
                        -v
                    },
                )
            } else {
                None
            },
            None => None,
        },
        None => None,
    }
}

/// Per-size funding delta of the short side (per-token precision): negative
/// (capped) when longs pay, positive when shorts pay.
pub open spec fn short_funding_delta_spec(
    l: int,
    s: int,
    seconds: int,
    total_fee: int,
    max_rate: int,
) -> Option<int> {
    if l > s {
        match ck_u(max_rate * seconds) {
            Some(cap) => match ck_div_u(total_fee, s) {
                Some(q) => {
                    let m = if cap <= q {
                        cap
                    } else {
                        q
                    };
                    if fits_i(m) {
                        mul_div_i_spec(-m, SMALL_RATE_TO_PER_TOKEN_PRECISION as int, 1)
                    } else {
                        None
                    }
                },
                None => None,
            },
            None => None,
        }
    } else {
        match ck_div_u(total_fee, s) {
            Some(q) => if fits_i(q) {
                mul_div_i_spec(q, SMALL_RATE_TO_PER_TOKEN_PRECISION as int, 1)
            } else {
                None
            },
            None => None,
        }
    }
}

/// Per-size funding deltas `(long, short)` of the period.
pub open spec fn funding_deltas_spec(
    l: int,
    s: int,
    seconds: int,
    base_rate: int,
    max_rate: int,
    price: int,
) -> Option<(int, int)> {
    match total_funding_fee_spec(l, s, seconds, base_rate) {
        Some(total) => {
            let long_delta = if l > 0 {
                long_funding_delta_spec(l, s, seconds, total, max_rate, price)
            } else {
                Some(0)
            };
            let short_delta = if s > 0 {
                short_funding_delta_spec(l, s, seconds, total, max_rate)
            } else {
                Some(0)
            };
            match long_delta {
                Some(ld) => match short_delta {
                    Some(sd) => Some((ld, sd)),
                    None => None,
                },
                None => None,
            }
        },
        None => None,
    }
}

/// Outcome of `Market::update_market_funding_fee_rate`. When nothing is
/// owed (no interest, balanced interest or no elapsed time) only the update
/// time moves; otherwise the accumulators advance by the period's deltas.
/// A period of `i64::MIN` seconds has no absolute value and is refused.
pub open spec fn market_funding_update_spec(m: Market, state: State, price: int, now: i64) -> (
    BumpResult,
    Market,
) {
    let err = Err::<(), BumpErrorCode>(BumpErrorCode::MathError);
    let l = m.long_open_interest.open_interest as int;
    let s = m.short_open_interest.open_interest as int;
    match funding_durations_spec(m.funding_fee.updated_at, now) {
        None => (err, m),
        Some(d) => if (l == 0 && s == 0) || l == s || d == 0 {
            (Ok(()), Market { funding_fee: MarketFundingFee { updated_at: now, ..m.funding_fee }, ..m })
        } else if d == i64::MIN {
            (err, m)
        } else {
            let seconds = if d >= 0 {
                d
            } else {
                -d
            };
            match funding_deltas_spec(
                l,
                s,
                seconds,
                state.funding_fee_base_rate as int,
                state.maximum_funding_base_rate as int,
                price,
            ) {
                None => (err, m),
                Some((ld, sd)) => {
                    let (r, f) = funding_fee_update_spec(m.funding_fee, sd, ld, d, now);
                    (r, Market { funding_fee: f, ..m })
                },
            }
        },
    }
}

/// The side with more open interest pays funding and the other receives:
/// with more long interest the long per-size delta is never negative and
/// the short one never positive; with more short interest the signs are
/// reversed.
pub proof fn lemma_larger_side_pays_funding(
    l: int,
    s: int,
    seconds: int,
    base_rate: int,
    max_rate: int,
    price: int,
)
    requires
        0 <= l,
        0 <= s,
        0 <= seconds,
        0 <= base_rate,
        0 <= max_rate,
        funding_deltas_spec(l, s, seconds, base_rate, max_rate, price) is Some,
    ensures
        ({
            let (ld, sd) = funding_deltas_spec(l, s, seconds, base_rate, max_rate, price)->0;
            &&& l > s ==> ld >= 0 && sd <= 0
            &&& s > l ==> ld <= 0 && sd >= 0
        }),
{
    let total = total_funding_fee_spec(l, s, seconds, base_rate)->0;
    assert(total >= 0);
    if s > 0 {
        if l > s {
            let cap = ck_u(max_rate * seconds)->0;
            let q = ck_div_u(total, s)->0;
            let m = if cap <= q {
                cap
            } else {
                q
            };
            assert(m >= 0);
            assert((-m) * (SMALL_RATE_TO_PER_TOKEN_PRECISION as int) <= 0);
            assert(tdiv((-m) * (SMALL_RATE_TO_PER_TOKEN_PRECISION as int), 1) <= 0);
        } else {
            let q = ck_div_u(total, s)->0;
            assert(q >= 0);
            assert(q * (SMALL_RATE_TO_PER_TOKEN_PRECISION as int) >= 0);
            assert(tdiv(q * (SMALL_RATE_TO_PER_TOKEN_PRECISION as int), 1) >= 0);
        }
    }
}

/// The receiving side gets at most the maximum funding rate over the
/// period: with more long interest the shorts' per-size credit is at most
/// `max_rate * seconds` (in per-token precision); with more short interest
/// the longs' credit is at most that amount converted to index tokens at
/// `price`.
pub proof fn lemma_receiving_side_capped(
    l: int,
    s: int,
    seconds: int,
    base_rate: int,
    max_rate: int,
    price: int,
)
    requires
        0 <= l,
        0 <= s,
        0 <= seconds,
        0 <= base_rate,
        0 <= max_rate,
        0 < price,
        funding_deltas_spec(l, s, seconds, base_rate, max_rate, price) is Some,
    ensures
        ({
            let (ld, sd) = funding_deltas_spec(l, s, seconds, base_rate, max_rate, price)->0;
            let cap = max_rate * seconds * (SMALL_RATE_TO_PER_TOKEN_PRECISION as int);
            &&& l > s ==> -sd <= cap
            &&& s > l ==> -ld <= cap * (PRICE_PRECISION as int) / price
        }),
{
    let total = total_funding_fee_spec(l, s, seconds, base_rate)->0;
    let cap0 = max_rate * seconds;
    let cap = cap0 * (SMALL_RATE_TO_PER_TOKEN_PRECISION as int);
    assert(cap0 >= 0) by (nonlinear_arith)
        requires
            max_rate >= 0,
            seconds >= 0,
            cap0 == max_rate * seconds,
    ;
    if l > s && s > 0 {
        let q = ck_div_u(total, s)->0;
        let m = if cap0 <= q {
            cap0
        } else {
            q
        };
        assert(m * (SMALL_RATE_TO_PER_TOKEN_PRECISION as int) <= cap) by (nonlinear_arith)
            requires
                0 <= m <= cap0,
                cap == cap0 * (SMALL_RATE_TO_PER_TOKEN_PRECISION as int),
        ;
        assert(tdiv((-m) * (SMALL_RATE_TO_PER_TOKEN_PRECISION as int), 1) == (-m) * (
        SMALL_RATE_TO_PER_TOKEN_PRECISION as int));
    }
    if s > l && l > 0 {
        let q = ck_div_u(total, l)->0;
        let m = if cap0 <= q {
            cap0
        } else {
            q
        };
        let c = m * (SMALL_RATE_TO_PER_TOKEN_PRECISION as int);
        assert(c / 1 == c);
        assert(c <= cap) by (nonlinear_arith)
            requires
                0 <= m <= cap0,
                c == m * (SMALL_RATE_TO_PER_TOKEN_PRECISION as int),
                cap == cap0 * (SMALL_RATE_TO_PER_TOKEN_PRECISION as int),
        ;
        assert((c * (PRICE_PRECISION as int)) / price <= (cap * (PRICE_PRECISION as int)) / price)
            by (nonlinear_arith)
            requires
                0 <= c <= cap,
                price > 0,
        {
            assert(c * (PRICE_PRECISION as int) <= cap * (PRICE_PRECISION as int));
            vstd::arithmetic::div_mod::lemma_div_is_ordered(
                c * (PRICE_PRECISION as int),
                cap * (PRICE_PRECISION as int),
                price,
            );
        }
    }
}

/// A funding update moves the accumulators in the direction of who pays:
/// with more long interest the long per-size accumulator does not decrease
/// and the short one does not increase; with more short interest the other
/// way round.
pub proof fn lemma_funding_update_direction(m: Market, state: State, price: int, now: i64)
    requires
        market_funding_update_spec(m, state, price, now).0 is Ok,
    ensures
        ({
            let m2 = market_funding_update_spec(m, state, price, now).1;
            let l = m.long_open_interest.open_interest;
            let s = m.short_open_interest.open_interest;
            &&& l > s ==> m2.funding_fee.long_funding_fee_amount_per_size
                >= m.funding_fee.long_funding_fee_amount_per_size
                && m2.funding_fee.short_funding_fee_amount_per_size
                <= m.funding_fee.short_funding_fee_amount_per_size
            &&& s > l ==> m2.funding_fee.long_funding_fee_amount_per_size
                <= m.funding_fee.long_funding_fee_amount_per_size
                && m2.funding_fee.short_funding_fee_amount_per_size
                >= m.funding_fee.short_funding_fee_amount_per_size
        }),
{
    let l = m.long_open_interest.open_interest as int;
    let s = m.short_open_interest.open_interest as int;
    match funding_durations_spec(m.funding_fee.updated_at, now) {
        None => {},
        Some(d) => if (l == 0 && s == 0) || l == s || d == 0 {
        } else if d == i64::MIN {
        } else {
            let seconds = if d >= 0 {
                d
            } else {
                -d
            };
            let r = funding_deltas_spec(
                l,
                s,
                seconds,
                state.funding_fee_base_rate as int,
                state.maximum_funding_base_rate as int,
                price,
            );
            if r is Some {
                lemma_larger_side_pays_funding(
                    l,
                    s,
                    seconds,
                    state.funding_fee_base_rate as int,
                    state.maximum_funding_base_rate as int,
                    price,
                );
            }
        },
    }
}

/// Unrealized profit of the pool against one side of the market at
/// `mark_price` (the opposite of the traders' profit).
pub open spec fn market_un_pnl_spec(p: MarketPosition, is_long: bool, mark_price: int) -> Option<int> {
    if p.entry_price == 0 {
        Some(0)
    } else if !fits_i(p.open_interest as int) || !fits_i(mark_price) || !fits_i(
        p.entry_price as int,
    ) {
        None
    } else {
        let move_ = if is_long {
            mark_price - p.entry_price
        } else {
            p.entry_price - mark_price
        };
        match ck_i(move_) {
            Some(mv) => match mul_div_i_spec(p.open_interest as int, mv, p.entry_price as int) {
                Some(pnl) => ck_i(-pnl),
                None => None,
            },
            None => None,
        }
    }
}

/// The pool's side of a market's interest has the opposite sign of the
/// traders' profit: it is zero without an entry price; for longs it is at
/// most zero when the mark price is at or above their entry and at least
/// zero when it is at or below; for shorts the other way round.
pub proof fn lemma_pool_side_sign(p: MarketPosition, is_long: bool, mark_price: int)
    requires
        market_un_pnl_spec(p, is_long, mark_price) is Some,
    ensures
        ({
            let r = market_un_pnl_spec(p, is_long, mark_price)->0;
            let e = p.entry_price as int;
            &&& e == 0 ==> r == 0
            &&& e > 0 && is_long && mark_price >= e ==> r <= 0
            &&& e > 0 && is_long && mark_price <= e ==> r >= 0
            &&& e > 0 && !is_long && mark_price <= e ==> r <= 0
            &&& e > 0 && !is_long && mark_price >= e ==> r >= 0
        }),
{
    let e = p.entry_price as int;
    if e > 0 {
        let oi = p.open_interest as int;
        let mv = if is_long {
            mark_price - e
        } else {
            e - mark_price
        };
        let x = oi * mv;
        assert(mv >= 0 ==> x >= 0) by (nonlinear_arith)
            requires
                oi >= 0,
                x == oi * mv,
        ;
        assert(mv <= 0 ==> x <= 0) by (nonlinear_arith)
            requires
                oi >= 0,
                x == oi * mv,
        ;
        assert(x >= 0 ==> tdiv(x, e) >= 0) by (nonlinear_arith)
            requires
                e > 0,
        ;
        assert(x <= 0 ==> tdiv(x, e) <= 0) by (nonlinear_arith)
            requires
                e > 0,
        ;
    }
}

// ---------------------------------------------------------------------------
// Implementation
// ---------------------------------------------------------------------------

impl MarketPosition {
    /// Adds `size` to the open interest, which now has entry price `price`.
    pub fn add_open_interest(&mut self, size: u128, price: u128) -> (r: BumpResult)
        ensures
            added_interest_spec(*old(self), size as int, price as int) matches Some(p) ==> r
                == Ok::<(), BumpErrorCode>(()) && *final(self) == p,
            added_interest_spec(*old(self), size as int, price as int) is None ==> r == Err::<
                (),
                BumpErrorCode,
            >(BumpErrorCode::MathError) && *final(self) == *old(self),
    {
        self.open_interest = safe_add_u(self.open_interest, size)?;
        self.entry_price = price;
        Ok(())
    }

    /// Removes `size` from the open interest (see `removed_interest_spec`).
    pub fn sub_open_interest(&mut self, size: u128, price: u128) -> (r: BumpResult)
        ensures
            r == Ok::<(), BumpErrorCode>(()),
            *final(self) == removed_interest_spec(*old(self), size as int, price as int),
    {
        if self.open_interest <= size {
            self.open_interest = 0;
            self.entry_price = 0;
        } else {
            self.entry_price = price;
            self.open_interest = safe_sub_u(self.open_interest, size)?;
        }
        Ok(())
    }
}

impl Market {
    /// Adds to the loss shared with the stable pool.
    pub fn add_stable_loss(&mut self, amount: i128) -> (r: BumpResult)
        ensures
            fits_i(old(self).stable_loss + amount) ==> r == Ok::<(), BumpErrorCode>(()) && *final(self) == (Market { stable_loss: (old(self).stable_loss + amount) as i128, ..*old(self) }),
            !fits_i(old(self).stable_loss + amount) ==> r == Err::<(), BumpErrorCode>(
                BumpErrorCode::MathError,
            ) && *final(self) == *old(self),
    {
        self.stable_loss = safe_add_i(self.stable_loss, amount)?;
        Ok(())
    }

    /// Adds to the shared loss that is not settled yet.
    pub fn add_unsettle_stable_loss(&mut self, amount: u128) -> (r: BumpResult)
        ensures
            old(self).stable_unsettle_loss + amount <= u128::MAX ==> r == Ok::<(), BumpErrorCode>(
                (),
            ) && *final(self) == (Market {
                stable_unsettle_loss: (old(self).stable_unsettle_loss + amount) as u128,
                ..*old(self)
            }),
            old(self).stable_unsettle_loss + amount > u128::MAX ==> r == Err::<(), BumpErrorCode>(
                BumpErrorCode::MathError,
            ) && *final(self) == *old(self),
    {
        self.stable_unsettle_loss = safe_add_u(self.stable_unsettle_loss, amount)?;
        Ok(())
    }

    /// Settles `amount` of the unsettled shared loss. When more is unsettled
    /// than `amount`, the gap is computed as `amount - stable_unsettle_loss`,
    /// which underflows; when less is unsettled, the remainder
    /// `stable_unsettle_loss - amount` underflows. Only an exact settlement
    /// succeeds: it clears the unsettled loss and returns zero.
    pub fn sub_unsettle_stable_loss(&mut self, amount: u128) -> (r: BumpResult<u128>)
        ensures
            old(self).stable_unsettle_loss == amount ==> r == Ok::<u128, BumpErrorCode>(0)
                && *final(self) == (Market { stable_unsettle_loss: 0, ..*old(self) }),
            old(self).stable_unsettle_loss != amount ==> r == Err::<u128, BumpErrorCode>(
                BumpErrorCode::MathError,
            ) && *final(self) == *old(self),
    {
        if self.stable_unsettle_loss > amount {
            let gap = safe_sub_u(amount, self.stable_unsettle_loss)?;
            self.stable_unsettle_loss = 0u128;
            return Ok(gap);
        }
        self.stable_unsettle_loss = safe_sub_u(self.stable_unsettle_loss, amount)?;
        Ok(0u128)
    }

    /// Adds (`add`) or removes open interest on one side.
    pub fn update_oi(&mut self, add: bool, params: UpdateOIParams) -> (r: BumpResult)
        ensures
            oi_update_spec(*old(self), add, params) matches Some(p) ==> r == Ok::<
                (),
                BumpErrorCode,
            >(()) && *final(self) == with_side(*old(self), params.is_long, p),
            oi_update_spec(*old(self), add, params) is None ==> r == Err::<(), BumpErrorCode>(
                BumpErrorCode::MathError,
            ) && *final(self) == *old(self),
    {
        if add {
            self.add_oi(params)
        } else {
            self.sub_oi(params)
        }
    }

    /// Adds to the running total of funding fees of one side.
    pub fn update_market_total_funding_fee(&mut self, amount: i128, is_long: bool) -> (r:
        BumpResult)
        ensures
            is_long && fits_i(old(self).funding_fee.total_long_funding_fee + amount) ==> r == Ok::<
                (),
                BumpErrorCode,
            >(()) && *final(self) == (Market {
                funding_fee: MarketFundingFee {
                    total_long_funding_fee: (old(self).funding_fee.total_long_funding_fee
                        + amount) as i128,
                    ..old(self).funding_fee
                },
                ..*old(self)
            }),
            !is_long && fits_i(old(self).funding_fee.total_short_funding_fee + amount) ==> r
                == Ok::<(), BumpErrorCode>(()) && *final(self) == (Market {
                funding_fee: MarketFundingFee {
                    total_short_funding_fee: (old(self).funding_fee.total_short_funding_fee
                        + amount) as i128,
                    ..old(self).funding_fee
                },
                ..*old(self)
            }),
            !fits_i(
                (if is_long {
                    old(self).funding_fee.total_long_funding_fee
                } else {
                    old(self).funding_fee.total_short_funding_fee
                }) + amount,
            ) ==> r == Err::<(), BumpErrorCode>(BumpErrorCode::MathError) && *final(self) == *old(self),
    {
        if is_long {
            self.funding_fee.total_long_funding_fee = safe_add_i(
                self.funding_fee.total_long_funding_fee,
                amount,
            )?;
        } else {
            self.funding_fee.total_short_funding_fee = safe_add_i(
                self.funding_fee.total_short_funding_fee,
                amount,
            )?;
        }
        Ok(())
    }

    fn add_oi(&mut self, params: UpdateOIParams) -> (r: BumpResult)
        ensures
            oi_update_spec(*old(self), true, params) matches Some(p) ==> r == Ok::<
                (),
                BumpErrorCode,
            >(()) && *final(self) == with_side(*old(self), params.is_long, p),
            oi_update_spec(*old(self), true, params) is None ==> r == Err::<(), BumpErrorCode>(
                BumpErrorCode::MathError,
            ) && *final(self) == *old(self),
    {
        let tick_size = self.config.tick_size;
        let mut market_position = if params.is_long {
            self.long_open_interest
        } else {
            self.short_open_interest
        };
        if market_position.open_interest == 0u128 {
            market_position.add_open_interest(params.size, params.entry_price)?;
        } else {
            let entry_price = compute_avg_entry_price(
                market_position.open_interest,
                market_position.entry_price,
                params.size,
                params.entry_price,
                tick_size,
                params.token_decimal,
                params.is_long,
            )?;
            market_position.add_open_interest(params.size, entry_price)?;
        }
        if params.is_long {
            self.long_open_interest = market_position;
        } else {
            self.short_open_interest = market_position;
        }
        Ok(())
    }

    fn sub_oi(&mut self, params: UpdateOIParams) -> (r: BumpResult)
        ensures
            oi_update_spec(*old(self), false, params) matches Some(p) ==> r == Ok::<
                (),
                BumpErrorCode,
            >(()) && *final(self) == with_side(*old(self), params.is_long, p),
            oi_update_spec(*old(self), false, params) is None ==> r == Err::<(), BumpErrorCode>(
                BumpErrorCode::MathError,
            ) && *final(self) == *old(self),
    {
        let mut market_position = if params.is_long {
            self.long_open_interest
        } else {
            self.short_open_interest
        };
        let entry_price = compute_decrease_avg_entry_price(
            market_position.open_interest,
            market_position.entry_price,
            params.size,
            params.entry_price,
            self.config.tick_size,
            params.token_decimal,
            params.is_long,
        )?;
        market_position.sub_open_interest(params.size, entry_price)?;
        if params.is_long {
            self.long_open_interest = market_position;
        } else {
            self.short_open_interest = market_position;
        }
        Ok(())
    }

    /// Accrues funding up to `now` at index price `price` (see
    /// `market_funding_update_spec`).
    pub fn update_market_funding_fee_rate(&mut self, state: &State, price: u128, now: i64) -> (r:
        BumpResult)
        ensures
            (r, *final(self)) == market_funding_update_spec(*old(self), *state, price as int, now),
    {
        let funding_fee_duration_in_seconds = self.funding_fee.get_market_funding_fee_durations(
            now,
        )?;
        let l = self.long_open_interest.open_interest;
        let s = self.short_open_interest.open_interest;
        if (l == 0u128 && s == 0u128) || l == s || funding_fee_duration_in_seconds == 0 {
            self.funding_fee.update_last_update(now)?;
            return Ok(());
        }
        if funding_fee_duration_in_seconds == i64::MIN {
            return Err(BumpErrorCode::MathError);
        }
        let (long_delta, short_delta) = funding_deltas(
            l,
            s,
            funding_fee_duration_in_seconds,
            state.funding_fee_base_rate,
            state.maximum_funding_base_rate,
            price,
        )?;
        self.funding_fee.update_market_funding_fee_rate(
            short_delta,
            long_delta,
            funding_fee_duration_in_seconds,
            now,
        )?;
        self.funding_fee.update_last_update(now)
    }

    /// Unrealized profit of the pool against one side of the market at the
    /// price its index oracle gives in `oracle_map` (the opposite of the
    /// traders' profit, see `market_un_pnl_spec`). Any failure to read that
    /// price is reported as `OracleNotFound`. The oracle map's updates and
    /// read time do not change.
    pub fn get_market_un_pnl(&self, is_long: bool, oracle_map: &mut OracleMap) -> (r: BumpResult<
        i128,
    >)
        ensures
            final(oracle_map).updates() == old(oracle_map).updates(),
            final(oracle_map).read_time() == old(oracle_map).read_time(),
            match oracle_price_spec(
                old(oracle_map).updates(),
                self.index_mint_oracle@,
                old(oracle_map).read_time(),
            ) {
                Err(_) => r == Err::<i128, BumpErrorCode>(BumpErrorCode::OracleNotFound),
                Ok(pd) => r == res_i(
                    market_un_pnl_spec(
                        if is_long {
                            self.long_open_interest
                        } else {
                            self.short_open_interest
                        },
                        is_long,
                        pd.price as int,
                    ),
                ),
            },
    {
        let mark_price = match oracle_map.get_price_data(&self.index_mint_oracle) {
            Ok(d) => d.price,
            Err(_) => {
                return Err(BumpErrorCode::OracleNotFound);
            },
        };
        self.get_market_un_pnl_at(is_long, mark_price)
    }

    /// Unrealized profit of the pool against one side at a given
    /// `mark_price` (see `market_un_pnl_spec`).
    pub fn get_market_un_pnl_at(&self, is_long: bool, mark_price: u128) -> (r: BumpResult<i128>)
        ensures
            r == res_i(
                market_un_pnl_spec(
                    if is_long {
                        self.long_open_interest
                    } else {
                        self.short_open_interest
                    },
                    is_long,
                    mark_price as int,
                ),
            ),
    {
        let position = if is_long {
            self.long_open_interest
        } else {
            self.short_open_interest
        };
        if position.entry_price == 0u128 {
            return Ok(0i128);
        }
        let oi = cast_to_i(position.open_interest)?;
        let mark = cast_to_i(mark_price)?;
        let entry = cast_to_i(position.entry_price)?;
        let mv = if is_long {
            safe_sub_i(mark, entry)?
        } else {
            safe_sub_i(entry, mark)?
        };
        let p = safe_mul_i(oi, mv)?;
        let pnl_in_usd = safe_div_i(p, entry)?;
        safe_sub_i(0i128, pnl_in_usd)
    }
}

/// The period's per-size funding deltas `(long, short)`.
fn funding_deltas(
    l: u128,
    s: u128,
    duration: i64,
    base_rate: u128,
    max_rate: u128,
    price: u128,
) -> (r: BumpResult<(i128, i128)>)
    requires
        duration != i64::MIN,
    ensures
        r matches Ok((ld, sd)) ==> funding_deltas_spec(
            l as int,
            s as int,
            (if duration >= 0 {
                duration as int
            } else {
                -duration
            }),
            base_rate as int,
            max_rate as int,
            price as int,
        ) == Some((ld as int, sd as int)),
        r is Err ==> funding_deltas_spec(
            l as int,
            s as int,
            (if duration >= 0 {
                duration as int
            } else {
                -duration
            }),
            base_rate as int,
            max_rate as int,
            price as int,
        ) is None,
        r is Err ==> r == Err::<(i128, i128), BumpErrorCode>(BumpErrorCode::MathError),
{
    let seconds: u128 = if duration >= 0 {
        duration as u128
    } else {
        (-duration) as u128
    };
    let long_pay_short = l > s;
    let diff = diff_u(l, s);
    let open_interest = safe_add_u(l, s)?;
    let funding_rate_per_second = mul_div_u(diff, base_rate, open_interest)?;
    let larger = if l >= s {
        l
    } else {
        s
    };
    let a = safe_mul_u(larger, seconds)?;
    let total_funding_fee = safe_mul_u(a, funding_rate_per_second)?;
    let mut long_delta: i128 = 0;
    let mut short_delta: i128 = 0;
    if l > 0 {
        let per_qty = if long_pay_short {
            let q = safe_div_u(total_funding_fee, l)?;
            safe_mul_u(q, SMALL_RATE_TO_PER_TOKEN_PRECISION)?
        } else {
            let cap = safe_mul_u(max_rate, seconds)?;
            let q = safe_div_u(total_funding_fee, l)?;
            let m = if cap <= q {
                cap
            } else {
                q
            };
            div_to_precision_u(m, 1u128, SMALL_RATE_TO_PER_TOKEN_PRECISION)?
        };
        let v = mul_div_u(per_qty, PRICE_PRECISION, price)?;
        let vi = cast_to_i(v)?;
        long_delta = if long_pay_short {
            vi
        } else {
            -vi
        };
    }
    if s > 0 {
        short_delta = if long_pay_short {
            let cap = safe_mul_u(max_rate, seconds)?;
            let q = safe_div_u(total_funding_fee, s)?;
            let m = if cap <= q {
                cap
            } else {
                q
            };
            let mi = cast_to_i(m)?;
            div_to_precision_i(-mi, 1i128, 100_000_000i128)?
        } else {
            let q = safe_div_u(total_funding_fee, s)?;
            let qi = cast_to_i(q)?;
            div_to_precision_i(qi, 1i128, 100_000_000i128)?
        };
    }
    Ok((long_delta, short_delta))
}

} // verus!
