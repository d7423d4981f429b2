//! Checked fixed-point arithmetic used by every balance, fee and price
//! computation of the library.
//!
//! All amounts are unsigned or signed 128-bit integers scaled by one of the
//! precisions below. Every operation is checked: an overflow, a division by
//! zero or a conversion out of range yields `BumpErrorCode::MathError`.
use vstd::arithmetic::power::pow;
use vstd::prelude::*;

use crate::errors::{BumpErrorCode, BumpResult};

verus! {

/// Precision of rates (fees, leverage, discounts): `1.0 == 10^5`.
pub const RATE_PRECISION: u128 = 100_000u128;

/// Precision of small per-second rates: `1.0 == 10^10`.
pub const SMALL_RATE_PRECISION: u128 = 10_000_000_000u128;

/// Precision of per-token accumulators: `1.0 == 10^18`.
pub const PER_TOKEN_PRECISION: u128 = 1_000_000_000_000_000_000u128;

/// Ratio between the per-token precision and the small-rate precision.
pub const SMALL_RATE_TO_PER_TOKEN_PRECISION: u128 = 100_000_000u128;

/// Precision of prices: `1.0 == 10^8`.
pub const PRICE_PRECISION: u128 = 100_000_000u128;

/// Ratio between the USD precision (`10^18`) and the price precision.
pub const PRICE_TO_USD_PRECISION: u128 = 10_000_000_000u128;

// ---------------------------------------------------------------------------
// Mathematical model
// ---------------------------------------------------------------------------

/// `x` is representable as a `u128`.
pub open spec fn fits_u(x: int) -> bool {
    0 <= x <= u128::MAX
}

/// `x` is representable as an `i128`.
pub open spec fn fits_i(x: int) -> bool {
    i128::MIN <= x <= i128::MAX
}

/// Division rounding toward zero, as Rust's integer division does.
pub open spec fn tdiv(x: int, d: int) -> int {
    if x >= 0 && d > 0 {
        x / d
    } else if x < 0 && d < 0 {
        (-x) / (-d)
    } else if x < 0 {
        -((-x) / d)
    } else {
        -(x / (-d))
    }
}

/// Checked `u128` result: the value if it is representable.
pub open spec fn ck_u(x: int) -> Option<int> {
    if fits_u(x) {
        Some(x)
    } else {
        None
    }
}

/// Checked `i128` result: the value if it is representable.
pub open spec fn ck_i(x: int) -> Option<int> {
    if fits_i(x) {
        Some(x)
    } else {
        None
    }
}

/// Checked unsigned division.
pub open spec fn ck_div_u(x: int, d: int) -> Option<int> {
    if d == 0 {
        None
    } else {
        ck_u(x / d)
    }
}

/// Checked signed division (rounding toward zero).
pub open spec fn ck_div_i(x: int, d: int) -> Option<int> {
    if d == 0 {
        None
    } else {
        ck_i(tdiv(x, d))
    }
}

/// The library's unsigned result of an optional mathematical value.
pub open spec fn res_u(o: Option<int>) -> BumpResult<u128> {
    match o {
        Some(x) => if fits_u(x) {
            Ok(x as u128)
        } else {
            Err(BumpErrorCode::MathError)
        },
        None => Err(BumpErrorCode::MathError),
    }
}

/// The library's signed result of an optional mathematical value.
pub open spec fn res_i(o: Option<int>) -> BumpResult<i128> {
    match o {
        Some(x) => if fits_i(x) {
            Ok(x as i128)
        } else {
            Err(BumpErrorCode::MathError)
        },
        None => Err(BumpErrorCode::MathError),
    }
}

/// `(a * b) / d`, each step checked in `u128`.
pub open spec fn mul_div_spec(a: int, b: int, d: int) -> Option<int> {
    match ck_u(a * b) {
        Some(p) => ck_div_u(p, d),
        None => None,
    }
}

/// `(a * b) / d`, each step checked in `i128`, rounding toward zero.
pub open spec fn mul_div_i_spec(a: int, b: int, d: int) -> Option<int> {
    match ck_i(a * b) {
        Some(p) => ck_div_i(p, d),
        None => None,
    }
}

/// `10^d`, when representable as a `u128`.
pub open spec fn pow10_spec(d: int) -> Option<int> {
    if d >= 0 {
        ck_u(pow(10, d as nat))
    } else {
        None
    }
}

/// Value in USD (precision `10^18`) of `amount` base units of a token with
/// `decimals` decimals at `price` (precision `10^8`):
/// `amount * price * PRICE_TO_USD_PRECISION / 10^decimals`.
pub open spec fn token_to_usd_spec(amount: int, decimals: int, price: int) -> Option<int> {
    match pow10_spec(decimals) {
        Some(unit) => match ck_u(amount * price) {
            Some(v) => match ck_u(v * PRICE_TO_USD_PRECISION) {
                Some(w) => ck_div_u(w, unit),
                None => None,
            },
            None => None,
        },
        None => None,
    }
}

/// Signed counterpart of `token_to_usd_spec`, rounding toward zero.
pub open spec fn token_to_usd_i_spec(amount: int, decimals: int, price: int) -> Option<int> {
    match pow10_spec(decimals) {
        Some(unit) => if fits_i(price) && fits_i(unit) {
            match ck_i(amount * price) {
                Some(v) => match ck_i(v * PRICE_TO_USD_PRECISION) {
                    Some(w) => ck_div_i(w, unit),
                    None => None,
                },
                None => None,
            }
        } else {
            None
        },
        None => None,
    }
}

/// Token amount (base units) worth `usd` at `price`:
/// `usd * 10^decimals / (price * PRICE_TO_USD_PRECISION)`.
pub open spec fn usd_to_token_spec(usd: int, decimals: int, price: int) -> Option<int> {
    match pow10_spec(decimals) {
        Some(unit) => match ck_u(usd * unit) {
            Some(v) => match ck_u(price * PRICE_TO_USD_PRECISION) {
                Some(p) => ck_div_u(v, p),
                None => None,
            },
            None => None,
        },
        None => None,
    }
}

/// Signed counterpart of `usd_to_token_spec`, rounding toward zero.
pub open spec fn usd_to_token_i_spec(usd: int, decimals: int, price: int) -> Option<int> {
    match pow10_spec(decimals) {
        Some(unit) => if fits_i(unit) {
            match ck_i(usd * unit) {
                Some(v) => match ck_i(price * PRICE_TO_USD_PRECISION) {
                    Some(p) => ck_div_i(v, p),
                    None => None,
                },
                None => None,
            }
        } else {
            None
        },
        None => None,
    }
}

// ---------------------------------------------------------------------------
// Checked primitive operations
// ---------------------------------------------------------------------------

/// Checked `u128` addition.
pub fn safe_add_u(a: u128, b: u128) -> (r: BumpResult<u128>)
    ensures
        r == res_u(ck_u(a + b)),
{
    match a.checked_add(b) {
        Some(v) => Ok(v),
        None => Err(BumpErrorCode::MathError),
    }
}

/// Checked `u128` subtraction.
pub fn safe_sub_u(a: u128, b: u128) -> (r: BumpResult<u128>)
    ensures
        r == res_u(ck_u(a - b)),
{
    match a.checked_sub(b) {
        Some(v) => Ok(v),
        None => Err(BumpErrorCode::MathError),
    }
}

/// Checked `u128` multiplication.
pub fn safe_mul_u(a: u128, b: u128) -> (r: BumpResult<u128>)
    ensures
        r == res_u(ck_u(a * b)),
{
    match a.checked_mul(b) {
        Some(v) => Ok(v),
        None => Err(BumpErrorCode::MathError),
    }
}

/// Checked `u128` division.
pub fn safe_div_u(a: u128, b: u128) -> (r: BumpResult<u128>)
    ensures
        r == res_u(ck_div_u(a as int, b as int)),
{
    match a.checked_div(b) {
        Some(v) => Ok(v),
        None => Err(BumpErrorCode::MathError),
    }
}

/// Checked `i128` addition.
pub fn safe_add_i(a: i128, b: i128) -> (r: BumpResult<i128>)
    ensures
        r == res_i(ck_i(a + b)),
{
    match a.checked_add(b) {
        Some(v) => Ok(v),
        None => Err(BumpErrorCode::MathError),
    }
}

/// Checked `i128` subtraction.
pub fn safe_sub_i(a: i128, b: i128) -> (r: BumpResult<i128>)
    ensures
        r == res_i(ck_i(a - b)),
{
    match a.checked_sub(b) {
        Some(v) => Ok(v),
        None => Err(BumpErrorCode::MathError),
    }
}

/// Checked `i128` multiplication.
pub fn safe_mul_i(a: i128, b: i128) -> (r: BumpResult<i128>)
    ensures
        r == res_i(ck_i(a * b)),
{
    match a.checked_mul(b) {
        Some(v) => Ok(v),
        None => Err(BumpErrorCode::MathError),
    }
}

/// Checked `i128` division, rounding toward zero.
pub fn safe_div_i(a: i128, b: i128) -> (r: BumpResult<i128>)
    ensures
        r == res_i(ck_div_i(a as int, b as int)),
{
    match a.checked_div(b) {
        Some(v) => Ok(v),
        None => Err(BumpErrorCode::MathError),
    }
}

/// Conversion of a `u128` to an `i128`.
pub fn cast_to_i(a: u128) -> (r: BumpResult<i128>)
    ensures
        r == res_i(Some(a as int)),
{
    if a <= 170141183460469231731687303715884105727u128 {
        Ok(a as i128)
    } else {
        Err(BumpErrorCode::MathError)
    }
}

/// Conversion of an `i128` to a `u128`.
pub fn cast_to_u(a: i128) -> (r: BumpResult<u128>)
    ensures
        r == res_u(Some(a as int)),
{
    if a >= 0 {
        Ok(a as u128)
    } else {
        Err(BumpErrorCode::MathError)
    }
}

/// Absolute value of an `i128` as a `u128`; `i128::MIN` has no `i128`
/// absolute value and is refused.
pub fn abs_to_u(a: i128) -> (r: BumpResult<u128>)
    ensures
        a == i128::MIN ==> r == Err::<u128, BumpErrorCode>(BumpErrorCode::MathError),
        a != i128::MIN ==> r == Ok::<u128, BumpErrorCode>(
            (if a < 0 {
                -a
            } else {
                a as int
            }) as u128,
        ),
{
    if a == i128::MIN {
        Err(BumpErrorCode::MathError)
    } else if a < 0 {
        Ok((-a) as u128)
    } else {
        Ok(a as u128)
    }
}

/// `10^d` as a `u128`.
pub fn pow10(d: u16) -> (r: BumpResult<u128>)
    ensures
        r == res_u(pow10_spec(d as int)),
{
    let mut acc: u128 = 1;
    let mut i: u16 = 0;
    assert(pow(10, 0) == 1) by {
        reveal_with_fuel(pow, 1);
    }
    while i < d
        invariant
            i <= d,
            acc as int == pow(10, i as nat),
        decreases d - i,
    {
        proof {
            reveal_with_fuel(pow, 2);
        }
        assert(pow(10, (i + 1) as nat) == 10 * pow(10, i as nat));
        match acc.checked_mul(10) {
            Some(v) => {
                acc = v;
            },
            None => {
                proof {
                    lemma_pow10_stays_large(i as nat, d as nat);
                }
                return Err(BumpErrorCode::MathError);
            },
        }
        i = i + 1;
    }
    Ok(acc)
}

/// Powers of ten only grow: once `10^(i+1)` leaves the `u128` range, so does
/// `10^d` for every `d > i`.
pub(crate) proof fn lemma_pow10_stays_large(i: nat, d: nat)
    requires
        i < d,
        10 * pow(10, i) > u128::MAX,
    ensures
        pow(10, d) > u128::MAX,
    decreases d - i,
{
    reveal_with_fuel(pow, 2);
    vstd::arithmetic::power::lemma_pow_positive(10, i);
    if d == i + 1 {
        assert(pow(10, d) == 10 * pow(10, i));
    } else {
        lemma_pow10_stays_large(i, (d - 1) as nat);
        assert(pow(10, d) == 10 * pow(10, (d - 1) as nat));
    }
}

} // verus!
