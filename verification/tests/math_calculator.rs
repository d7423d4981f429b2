use bumpin_trade::calculator::{
    compute_avg_entry_price, compute_decrease_avg_entry_price, diff_u, div_rate_u,
    div_to_precision_i, div_to_precision_u, get_mm, mul_div_u, mul_per_token_rate_i,
    mul_per_token_rate_u, mul_rate_i, mul_rate_u, mul_small_rate_u, token_to_usd_i,
    token_to_usd_u, usd_to_token_i, usd_to_token_u,
};
use bumpin_trade::errors::BumpErrorCode;
use bumpin_trade::math::{
    abs_to_u, cast_to_i, cast_to_u, pow10, safe_add_i, safe_add_u, safe_div_i, safe_div_u,
    safe_mul_i, safe_mul_u, safe_sub_i, safe_sub_u,
};

#[test]
fn safe_math_checks_overflow() {
    assert_eq!(safe_add_u(1, 2), Ok(3));
    assert_eq!(safe_add_u(u128::MAX, 1), Err(BumpErrorCode::MathError));
    assert_eq!(safe_sub_u(5, 3), Ok(2));
    assert_eq!(safe_sub_u(3, 5), Err(BumpErrorCode::MathError));
    assert_eq!(safe_mul_u(u128::MAX / 2, 3), Err(BumpErrorCode::MathError));
    assert_eq!(safe_div_u(7, 2), Ok(3));
    assert_eq!(safe_div_u(7, 0), Err(BumpErrorCode::MathError));
    assert_eq!(safe_add_i(i128::MAX, 1), Err(BumpErrorCode::MathError));
    assert_eq!(safe_sub_i(-3, 4), Ok(-7));
    assert_eq!(safe_mul_i(-3, 4), Ok(-12));
    assert_eq!(safe_div_i(-7, 2), Ok(-3));
    assert_eq!(safe_div_i(i128::MIN, -1), Err(BumpErrorCode::MathError));
}

#[test]
fn casts_and_absolute_values() {
    assert_eq!(cast_to_i(5), Ok(5));
    assert_eq!(cast_to_i(u128::MAX), Err(BumpErrorCode::MathError));
    assert_eq!(cast_to_u(-1), Err(BumpErrorCode::MathError));
    assert_eq!(cast_to_u(9), Ok(9));
    assert_eq!(abs_to_u(-9), Ok(9));
    assert_eq!(abs_to_u(i128::MIN), Err(BumpErrorCode::MathError));
}

#[test]
fn powers_of_ten() {
    assert_eq!(pow10(0), Ok(1));
    assert_eq!(pow10(9), Ok(1_000_000_000));
    assert_eq!(pow10(38), Ok(100_000_000_000_000_000_000_000_000_000_000_000_000));
    assert_eq!(pow10(39), Err(BumpErrorCode::MathError));
}

#[test]
fn rate_helpers() {
    assert_eq!(mul_rate_u(1_000, 50_000), Ok(500));
    assert_eq!(mul_rate_i(-1_000, 50_000), Ok(-500));
    assert_eq!(mul_rate_i(-3, 50_000), Ok(-1));
    assert_eq!(div_rate_u(500, 50_000), Ok(1_000));
    assert_eq!(div_rate_u(500, 0), Err(BumpErrorCode::MathError));
    assert_eq!(mul_small_rate_u(20_000_000_000, 5), Ok(10));
    assert_eq!(mul_per_token_rate_u(3_000_000_000_000_000_000, 7), Ok(21));
    assert_eq!(mul_per_token_rate_i(-3_000_000_000_000_000_000, 7), Ok(-21));
    assert_eq!(div_to_precision_u(1, 4, 100), Ok(25));
    assert_eq!(div_to_precision_i(-1, 4, 100), Ok(-25));
    assert_eq!(mul_div_u(10, 10, 3), Ok(33));
    assert_eq!(diff_u(3, 10), 7);
    assert_eq!(diff_u(10, 3), 7);
}

#[test]
fn token_usd_conversions() {
    // 2 tokens of 9 decimals at 25 USD (price precision 1e8) are 50 USD
    // at USD precision 1e18.
    let usd = token_to_usd_u(2_000_000_000, 9, 2_500_000_000).unwrap();
    assert_eq!(usd, 50_000_000_000_000_000_000);
    assert_eq!(usd_to_token_u(usd, 9, 2_500_000_000), Ok(2_000_000_000));
    assert_eq!(token_to_usd_i(-2_000_000_000, 9, 2_500_000_000), Ok(-50_000_000_000_000_000_000));
    assert_eq!(usd_to_token_i(-50_000_000_000_000_000_000, 9, 2_500_000_000), Ok(-2_000_000_000));
    assert_eq!(usd_to_token_u(1, 9, 0), Err(BumpErrorCode::MathError));
    assert_eq!(token_to_usd_u(1, 40, 1), Err(BumpErrorCode::MathError));
}

#[test]
fn maintenance_margin_is_the_smaller_bound() {
    // size / (2 * 20x) = 25 000; size * 1% = 10 000.
    assert_eq!(get_mm(1_000_000, 20 * 100_000, 1_000), Ok(10_000));
    // size / (2 * 100x) = 5 000 is below size * 1%.
    assert_eq!(get_mm(1_000_000, 100 * 100_000, 1_000), Ok(5_000));
    assert_eq!(get_mm(1_000_000, 0, 1_000), Err(BumpErrorCode::MathError));
}

#[test]
fn average_entry_price_is_weighted_and_on_tick() {
    // (10 * 100 + 30 * 120) / 40 = 115.
    assert_eq!(compute_avg_entry_price(10, 100, 30, 120, 0, 9, true), Ok(115));
    // On a tick of 10: up for longs, down for shorts.
    assert_eq!(compute_avg_entry_price(10, 100, 30, 120, 10, 9, true), Ok(120));
    assert_eq!(compute_avg_entry_price(10, 100, 30, 120, 10, 9, false), Ok(110));
    assert_eq!(compute_avg_entry_price(0, 0, 0, 120, 10, 9, false), Err(BumpErrorCode::MathError));
    assert_eq!(compute_decrease_avg_entry_price(10, 100, 5, 90, 10, 9, true), Ok(100));
}
