//! Oracle prices and their scaling to the library's price precision.
use vstd::arithmetic::power::pow;
use vstd::prelude::*;

use crate::errors::{BumpErrorCode, BumpResult};
use crate::math::{
    ck_div_u, lemma_pow10_stays_large, pow10, pow10_spec, safe_div_i, safe_div_u, safe_mul_i,
    safe_mul_u, tdiv, PRICE_PRECISION,
};
use crate::pubkey::key_eq;

verus! {

/// A price (price precision) and its confidence interval.
#[derive(Clone, Copy, Debug)]
pub struct OraclePriceData {
    pub price: u128,
    pub confidence: u128,
}

impl OraclePriceData {
    /// The price of one US dollar.
    pub fn default_usd() -> (r: Self)
        ensures
            r.price == PRICE_PRECISION,
            r.confidence == 1,
    {
        OraclePriceData { price: PRICE_PRECISION, confidence: 1 }
    }
}

/// What the library reads of a Pyth price update: the feed, the price
/// `price * 10^exponent` with its confidence, when it was published, and
/// whether the full guardian set verified it.
#[derive(Clone, Copy, Debug)]
pub struct PythPriceUpdate {
    pub feed_id: [u8; 32],
    pub price: i64,
    pub conf: u64,
    pub exponent: i32,
    pub publish_time: i64,
    pub fully_verified: bool,
}

/// Oldest price accepted, in seconds before the current time.
pub const MAXIMUM_PRICE_AGE: i64 = 180;

/// The update gives a price for `feed_id` at time `now`: it is fully
/// verified, of that feed, and not older than the maximum age.
pub open spec fn price_usable(u: PythPriceUpdate, feed_id: Seq<u8>, now: int) -> bool {
    &&& u.fully_verified
    &&& u.feed_id@ == feed_id
    &&& u.publish_time + MAXIMUM_PRICE_AGE >= now
}

/// Scale factors from a precision of `p` to price precision: a
/// multiplier when `p` is coarser, a divisor when it is finer.
pub open spec fn scale_factors(p: int) -> (int, int) {
    if p > PRICE_PRECISION {
        (1, p / PRICE_PRECISION as int)
    } else {
        (PRICE_PRECISION as int / p, 1)
    }
}

/// A Pyth price and confidence rescaled to price precision: the update's
/// precision `10^|exponent|` is first divided by `multiple` (which must be
/// below it); a negative price is refused.
pub open spec fn scaled_price_spec(price: int, conf: int, exponent: int, multiple: int) -> BumpResult<
    OraclePriceData,
> {
    match pow10_spec(
        if exponent < 0 {
            -exponent
        } else {
            exponent
        },
    ) {
        None => Err(BumpErrorCode::MathError),
        Some(precision) => if precision <= multiple {
            Err(BumpErrorCode::InvalidOracle)
        } else {
            match ck_div_u(precision, multiple) {
                None => Err(BumpErrorCode::MathError),
                Some(p) => {
                    let (mult, div) = scale_factors(p);
                    let scaled = tdiv(price * mult, div);
                    if scaled < 0 {
                        Err(BumpErrorCode::MathError)
                    } else {
                        Ok(
                            OraclePriceData {
                                price: scaled as u128,
                                confidence: (conf * mult / div) as u128,
                            },
                        )
                    }
                },
            }
        },
    }
}

/// No power of ten beyond `10^38` is a `u128`.
proof fn lemma_pow10_beyond_range(e: int)
    requires
        e > 38,
    ensures
        pow10_spec(e) is None,
{
    reveal_with_fuel(pow, 40);
    assert(pow(10, 38) == 100000000000000000000000000000000000000);
    lemma_pow10_stays_large(38, e as nat);
}

/// The price of `feed_id` given by the update at time `now`, scaled to
/// price precision (see `scaled_price_spec`); an update that is not usable
/// (see `price_usable`) reports the oracle offline.
pub fn get_pyth_price(
    feed_id: &[u8; 32],
    price_oracle: &PythPriceUpdate,
    now: i64,
    multiple: u128,
) -> (r: BumpResult<OraclePriceData>)
    ensures
        r == (if !price_usable(*price_oracle, feed_id@, now as int) {
            Err(BumpErrorCode::PythOffline)
        } else {
            scaled_price_spec(
                price_oracle.price as int,
                price_oracle.conf as int,
                price_oracle.exponent as int,
                multiple as int,
            )
        }),
{
    if !price_oracle.fully_verified || !key_eq(&price_oracle.feed_id, feed_id) || !((
    price_oracle.publish_time as i128) + (MAXIMUM_PRICE_AGE as i128) >= now as i128) {
        return Err(BumpErrorCode::PythOffline);
    }
    scale_price(price_oracle.price, price_oracle.conf, price_oracle.exponent, multiple)
}

/// The price of `feed_id` given by the update at time `now`, at price
/// precision.
pub fn get_oracle_price(feed_id: &[u8; 32], price_oracle: &PythPriceUpdate, now: i64) -> (r: BumpResult<
    OraclePriceData,
>)
    ensures
        r == (if !price_usable(*price_oracle, feed_id@, now as int) {
            Err(BumpErrorCode::PythOffline)
        } else {
            scaled_price_spec(
                price_oracle.price as int,
                price_oracle.conf as int,
                price_oracle.exponent as int,
                1,
            )
        }),
{
    get_pyth_price(feed_id, price_oracle, now, 1)
}

/// Rescales a price and its confidence (see `scaled_price_spec`).
fn scale_price(price: i64, conf: u64, exponent: i32, multiple: u128) -> (r: BumpResult<OraclePriceData>)
    ensures
        r == scaled_price_spec(price as int, conf as int, exponent as int, multiple as int),
{
    let e: i64 = if exponent < 0 {
        -(exponent as i64)
    } else {
        exponent as i64
    };
    if e > 38 {
        proof {
            lemma_pow10_beyond_range(e as int);
        }
        return Err(BumpErrorCode::MathError);
    }
    let oracle_precision = pow10(e as u16)?;
    if oracle_precision <= multiple {
        return Err(BumpErrorCode::InvalidOracle);
    }
    let p = safe_div_u(oracle_precision, multiple)?;
    assert(p >= 1) by (nonlinear_arith)
        requires
            oracle_precision > multiple,
            multiple > 0,
            p == oracle_precision / multiple,
    ;
    let mut oracle_scale_mult: u128 = 1;
    let mut oracle_scale_div: u128 = 1;
    if p > PRICE_PRECISION {
        oracle_scale_div = p / PRICE_PRECISION;
        assert(oracle_scale_div >= 1) by (nonlinear_arith)
            requires
                p > PRICE_PRECISION,
                oracle_scale_div == p / PRICE_PRECISION,
        ;
    } else {
        oracle_scale_mult = PRICE_PRECISION / p;
        assert(1 <= oracle_scale_mult <= PRICE_PRECISION) by (nonlinear_arith)
            requires
                1 <= p <= PRICE_PRECISION,
                oracle_scale_mult == PRICE_PRECISION / p,
        ;
    }
    assert(oracle_scale_div <= u128::MAX / 2);
    let mult_i = oracle_scale_mult as i128;
    let div_i = oracle_scale_div as i128;
    assert(-0x8000_0000_0000_0000 * 100_000_000 <= price * mult_i <= 0x7fff_ffff_ffff_ffff
        * 100_000_000) by (nonlinear_arith)
        requires
            -0x8000_0000_0000_0000 <= price <= 0x7fff_ffff_ffff_ffff,
            1 <= mult_i <= 100_000_000,
    ;
    let product = safe_mul_i(price as i128, mult_i)?;
    let scaled = safe_div_i(product, div_i)?;
    if scaled < 0 {
        return Err(BumpErrorCode::MathError);
    }
    assert(conf * oracle_scale_mult <= 0xffff_ffff_ffff_ffff * 100_000_000) by (nonlinear_arith)
        requires
            conf <= 0xffff_ffff_ffff_ffff,
            oracle_scale_mult <= 100_000_000,
    ;
    let conf_product = safe_mul_u(conf as u128, oracle_scale_mult)?;
    let conf_scaled = safe_div_u(conf_product, oracle_scale_div)?;
    Ok(OraclePriceData { price: scaled as u128, confidence: conf_scaled })
}

} // verus!
