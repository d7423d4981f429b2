//! Fixed-point helpers: rates, per-token accumulators, token/USD conversions,
//! maintenance margin and average entry prices.
use vstd::prelude::*;

use crate::errors::{BumpErrorCode, BumpResult};
use crate::math::{
    cast_to_i, ck_div_u, ck_u, mul_div_i_spec, mul_div_spec, pow10, res_i, res_u, safe_add_u,
    safe_div_i, safe_div_u, safe_mul_i, safe_mul_u, token_to_usd_i_spec, token_to_usd_spec,
    usd_to_token_i_spec, usd_to_token_spec, PER_TOKEN_PRECISION, PRICE_TO_USD_PRECISION,
    RATE_PRECISION, SMALL_RATE_PRECISION,
};

verus! {

/// `value * rate / RATE_PRECISION`.
pub fn mul_rate_u(value: u128, rate: u128) -> (r: BumpResult<u128>)
    ensures
        r == res_u(mul_div_spec(value as int, rate as int, RATE_PRECISION as int)),
{
    let p = safe_mul_u(value, rate)?;
    safe_div_u(p, RATE_PRECISION)
}

/// Signed `value * rate / RATE_PRECISION`, rounding toward zero.
pub fn mul_rate_i(value: i128, rate: i128) -> (r: BumpResult<i128>)
    ensures
        r == res_i(mul_div_i_spec(value as int, rate as int, RATE_PRECISION as int)),
{
    let p = safe_mul_i(value, rate)?;
    safe_div_i(p, 100_000i128)
}

/// `value * RATE_PRECISION / rate`: divides `value` by a rate.
pub fn div_rate_u(value: u128, rate: u128) -> (r: BumpResult<u128>)
    ensures
        r == res_u(mul_div_spec(value as int, RATE_PRECISION as int, rate as int)),
{
    let p = safe_mul_u(value, RATE_PRECISION)?;
    safe_div_u(p, rate)
}

/// `value * rate / SMALL_RATE_PRECISION`.
pub fn mul_small_rate_u(value: u128, rate: u128) -> (r: BumpResult<u128>)
    ensures
        r == res_u(mul_div_spec(value as int, rate as int, SMALL_RATE_PRECISION as int)),
{
    let p = safe_mul_u(value, rate)?;
    safe_div_u(p, SMALL_RATE_PRECISION)
}

/// `value * rate / PER_TOKEN_PRECISION`.
pub fn mul_per_token_rate_u(value: u128, rate: u128) -> (r: BumpResult<u128>)
    ensures
        r == res_u(mul_div_spec(value as int, rate as int, PER_TOKEN_PRECISION as int)),
{
    let p = safe_mul_u(value, rate)?;
    safe_div_u(p, PER_TOKEN_PRECISION)
}

/// Signed `value * rate / PER_TOKEN_PRECISION`, rounding toward zero.
pub fn mul_per_token_rate_i(value: i128, rate: i128) -> (r: BumpResult<i128>)
    ensures
        r == res_i(mul_div_i_spec(value as int, rate as int, PER_TOKEN_PRECISION as int)),
{
    let p = safe_mul_i(value, rate)?;
    safe_div_i(p, 1_000_000_000_000_000_000i128)
}

/// `a * precision / b`.
pub fn div_to_precision_u(a: u128, b: u128, precision: u128) -> (r: BumpResult<u128>)
    ensures
        r == res_u(mul_div_spec(a as int, precision as int, b as int)),
{
    let p = safe_mul_u(a, precision)?;
    safe_div_u(p, b)
}

/// Signed `a * precision / b`, rounding toward zero.
pub fn div_to_precision_i(a: i128, b: i128, precision: i128) -> (r: BumpResult<i128>)
    ensures
        r == res_i(mul_div_i_spec(a as int, precision as int, b as int)),
{
    let p = safe_mul_i(a, precision)?;
    safe_div_i(p, b)
}

/// `a * b / c`.
pub fn mul_div_u(a: u128, b: u128, c: u128) -> (r: BumpResult<u128>)
    ensures
        r == res_u(mul_div_spec(a as int, b as int, c as int)),
{
    let p = safe_mul_u(a, b)?;
    safe_div_u(p, c)
}

/// Absolute difference of two amounts.
pub fn diff_u(a: u128, b: u128) -> (r: u128)
    ensures
        r == (if a >= b {
            a - b
        } else {
            b - a
        }),
{
    if a >= b {
        a - b
    } else {
        b - a
    }
}

/// USD value of a token amount (see `token_to_usd_spec`).
pub fn token_to_usd_u(amount: u128, decimals: u16, price: u128) -> (r: BumpResult<u128>)
    ensures
        r == res_u(token_to_usd_spec(amount as int, decimals as int, price as int)),
{
    let unit = pow10(decimals)?;
    let v = safe_mul_u(amount, price)?;
    let w = safe_mul_u(v, PRICE_TO_USD_PRECISION)?;
    safe_div_u(w, unit)
}

/// Signed USD value of a signed token amount (see `token_to_usd_i_spec`).
pub fn token_to_usd_i(amount: i128, decimals: u16, price: u128) -> (r: BumpResult<i128>)
    ensures
        r == res_i(token_to_usd_i_spec(amount as int, decimals as int, price as int)),
{
    let unit = pow10(decimals)?;
    let price_i = cast_to_i(price)?;
    let unit_i = cast_to_i(unit)?;
    let v = safe_mul_i(amount, price_i)?;
    let w = safe_mul_i(v, 10_000_000_000i128)?;
    safe_div_i(w, unit_i)
}

/// Token amount worth a USD value (see `usd_to_token_spec`).
pub fn usd_to_token_u(usd: u128, decimals: u16, price: u128) -> (r: BumpResult<u128>)
    ensures
        r == res_u(usd_to_token_spec(usd as int, decimals as int, price as int)),
{
    let unit = pow10(decimals)?;
    let v = safe_mul_u(usd, unit)?;
    let p = safe_mul_u(price, PRICE_TO_USD_PRECISION)?;
    safe_div_u(v, p)
}

/// Signed token amount worth a signed USD value (see `usd_to_token_i_spec`).
pub fn usd_to_token_i(usd: i128, decimals: u16, price: u128) -> (r: BumpResult<i128>)
    ensures
        r == res_i(usd_to_token_i_spec(usd as int, decimals as int, price as int)),
{
    let unit = pow10(decimals)?;
    let unit_i = cast_to_i(unit)?;
    let v = safe_mul_i(usd, unit_i)?;
    let price_i = cast_to_i(price)?;
    let p = safe_mul_i(price_i, 10_000_000_000i128)?;
    safe_div_i(v, p)
}

/// Maintenance margin of a position of `size` (USD): the smaller of
/// `size / (2 * maximum_leverage)` and `size * maximum_maintenance_margin_rate`.
pub open spec fn mm_spec(size: int, maximum_leverage: int, mm_rate: int) -> Option<int> {
    match mul_div_spec(size, RATE_PRECISION as int, maximum_leverage * 2) {
        Some(a) => match mul_div_spec(size, mm_rate, RATE_PRECISION as int) {
            Some(b) => Some(
                if a <= b {
                    a
                } else {
                    b
                },
            ),
            None => None,
        },
        None => None,
    }
}

/// Maintenance margin (see `mm_spec`).
pub fn get_mm(size: u128, maximum_leverage: u32, maximum_maintenance_margin_rate: u32) -> (r:
    BumpResult<u128>)
    ensures
        r == res_u(
            mm_spec(size as int, maximum_leverage as int, maximum_maintenance_margin_rate as int),
        ),
{
    let by_leverage = div_rate_u(size, (maximum_leverage as u128) * 2)?;
    let by_rate = mul_rate_u(size, maximum_maintenance_margin_rate as u128)?;
    if by_leverage <= by_rate {
        Ok(by_leverage)
    } else {
        Ok(by_rate)
    }
}

/// `value` moved onto the grid of `tick_size`: up when `round_up`, down
/// otherwise; unchanged when the tick size is zero.
pub open spec fn to_tick_spec(value: int, tick_size: int, round_up: bool) -> Option<int> {
    if tick_size == 0 {
        Some(value)
    } else if value % tick_size == 0 || !round_up {
        Some(value - value % tick_size)
    } else {
        ck_u(value - value % tick_size + tick_size)
    }
}

/// Average entry price after adding `size` at `price` to `open_interest`
/// entered at `entry_price`: the size-weighted mean, moved onto the tick
/// grid, up for longs and down for shorts.
pub open spec fn avg_entry_price_spec(
    open_interest: int,
    entry_price: int,
    size: int,
    price: int,
    tick_size: int,
    is_long: bool,
) -> Option<int> {
    match ck_u(open_interest * entry_price) {
        Some(a) => match ck_u(size * price) {
            Some(b) => match ck_u(a + b) {
                Some(v) => match ck_u(open_interest + size) {
                    Some(q) => match ck_div_u(v, q) {
                        Some(avg) => to_tick_spec(avg, tick_size, is_long),
                        None => None,
                    },
                    None => None,
                },
                None => None,
            },
            None => None,
        },
        None => None,
    }
}

/// Average entry price after an increase (see `avg_entry_price_spec`).
/// `_token_decimals` is not needed by the size-weighted mean.
pub fn compute_avg_entry_price(
    open_interest: u128,
    entry_price: u128,
    size: u128,
    price: u128,
    tick_size: u128,
    _token_decimals: u16,
    is_long: bool,
) -> (r: BumpResult<u128>)
    ensures
        r == res_u(
            avg_entry_price_spec(
                open_interest as int,
                entry_price as int,
                size as int,
                price as int,
                tick_size as int,
                is_long,
            ),
        ),
{
    let a = safe_mul_u(open_interest, entry_price)?;
    let b = safe_mul_u(size, price)?;
    let v = safe_add_u(a, b)?;
    let q = safe_add_u(open_interest, size)?;
    let avg = safe_div_u(v, q)?;
    if tick_size == 0 {
        return Ok(avg);
    }
    let rem = avg % tick_size;
    proof {
        vstd::arithmetic::div_mod::lemma_mod_decreases(avg as nat, tick_size as nat);
    }
    if rem == 0 || !is_long {
        Ok(avg - rem)
    } else {
        safe_add_u(avg - rem, tick_size)
    }
}

/// Average entry price of what remains after a decrease: a decrease closes
/// part of the interest at its own average, so the remainder keeps
/// `entry_price`.
pub fn compute_decrease_avg_entry_price(
    _open_interest: u128,
    entry_price: u128,
    _size: u128,
    _price: u128,
    _tick_size: u128,
    _token_decimals: u16,
    _is_long: bool,
) -> (r: BumpResult<u128>)
    ensures
        r == Ok::<u128, BumpErrorCode>(entry_price),
{
    Ok(entry_price)
}

/// The average entry price is the size-weighted mean of the old entry and
/// the new price, rounded down to a whole price, then moved onto the tick
/// grid: exactly that mean without a tick size; otherwise a multiple of the
/// tick at most one tick above the mean for longs, at most one tick below
/// it for shorts.
pub proof fn lemma_avg_entry_is_weighted_mean(
    open_interest: int,
    entry_price: int,
    size: int,
    price: int,
    tick_size: int,
    is_long: bool,
)
    requires
        0 <= open_interest,
        0 <= entry_price,
        0 <= size,
        0 <= price,
        0 <= tick_size,
        avg_entry_price_spec(open_interest, entry_price, size, price, tick_size, is_long) is Some,
    ensures
        ({
            let r = avg_entry_price_spec(open_interest, entry_price, size, price, tick_size, is_long)->0;
            let w = open_interest * entry_price + size * price;
            let q = open_interest + size;
            &&& q > 0
            &&& tick_size == 0 ==> r * q <= w < (r + 1) * q
            &&& tick_size > 0 ==> r % tick_size == 0
            &&& tick_size > 0 && is_long ==> w / q <= r < w / q + tick_size
            &&& tick_size > 0 && !is_long ==> w / q - tick_size < r <= w / q
        }),
{
    let w = open_interest * entry_price + size * price;
    let q = open_interest + size;
    let avg = w / q;
    assert(avg * q <= w < (avg + 1) * q) by (nonlinear_arith)
        requires
            q > 0,
            w >= 0,
            avg == w / q,
    ;
    assert(avg >= 0) by (nonlinear_arith)
        requires
            q > 0,
            w >= 0,
            avg == w / q,
    ;
    if tick_size > 0 {
        let k = avg % tick_size;
        vstd::arithmetic::div_mod::lemma_fundamental_div_mod(avg, tick_size);
        vstd::arithmetic::div_mod::lemma_mod_pos_bound(avg, tick_size);
        vstd::arithmetic::div_mod::lemma_mod_multiples_basic(avg / tick_size, tick_size);
        vstd::arithmetic::div_mod::lemma_mod_multiples_basic(avg / tick_size + 1, tick_size);
        assert(avg - k == (avg / tick_size) * tick_size) by (nonlinear_arith)
            requires
                avg == tick_size * (avg / tick_size) + k,
        ;
        assert(avg - k + tick_size == (avg / tick_size + 1) * tick_size) by (nonlinear_arith)
            requires
                avg == tick_size * (avg / tick_size) + k,
        ;
    }
}

} // verus!
