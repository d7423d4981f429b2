use bumpin_trade::errors::BumpErrorCode;
use bumpin_trade::state::oracle::{get_oracle_price, get_pyth_price, OraclePriceData, PythPriceUpdate};
use bumpin_trade::state::oracle_map::OracleMap;
use bumpin_trade::utils::pda::{
    generate_market_pda, generate_pool_pda, generate_pool_vault_key, generate_position_key,
    generate_trade_token_vault_key, generate_user_pda,
};
use bumpin_trade::utils::signer::get_signer_seeds;
use solana_program::pubkey::Pubkey;

const FEED: [u8; 32] = [4; 32];

fn update(price: i64, exponent: i32, publish_time: i64) -> PythPriceUpdate {
    PythPriceUpdate { feed_id: FEED, price, conf: 10, exponent, publish_time, fully_verified: true }
}

fn prices(r: Result<OraclePriceData, BumpErrorCode>) -> Result<(u128, u128), BumpErrorCode> {
    r.map(|d| (d.price, d.confidence))
}

#[test]
fn pyth_prices_are_scaled_to_price_precision() {
    // 0.12345 at five decimals becomes 12 345 000 at eight.
    assert_eq!(prices(get_oracle_price(&FEED, &update(12_345, -5, 1_000), 1_100)), Ok((12_345_000, 10_000)));
    // At ten decimals the last two digits are dropped.
    assert_eq!(prices(get_oracle_price(&FEED, &update(12_345, -10, 1_000), 1_100)), Ok((123, 0)));
    // A multiple divides the update's precision first.
    assert_eq!(prices(get_pyth_price(&FEED, &update(12_345, -5, 1_000), 1_100, 10)), Ok((123_450_000, 100_000)));
    assert_eq!(
        prices(get_pyth_price(&FEED, &update(12_345, -2, 1_000), 1_100, 100)),
        Err(BumpErrorCode::InvalidOracle)
    );
    assert_eq!(prices(get_oracle_price(&FEED, &update(-1, -5, 1_000), 1_100)), Err(BumpErrorCode::MathError));
    assert_eq!(prices(get_oracle_price(&FEED, &update(1, -40, 1_000), 1_100)), Err(BumpErrorCode::MathError));
}

#[test]
fn stale_or_unverified_prices_are_refused() {
    assert!(get_oracle_price(&FEED, &update(12_345, -5, 1_000), 1_180).is_ok());
    assert_eq!(
        prices(get_oracle_price(&FEED, &update(12_345, -5, 1_000), 1_181)),
        Err(BumpErrorCode::PythOffline)
    );
    let mut partial = update(12_345, -5, 1_000);
    partial.fully_verified = false;
    assert_eq!(prices(get_oracle_price(&FEED, &partial, 1_100)), Err(BumpErrorCode::PythOffline));
    assert_eq!(
        prices(get_oracle_price(&[5; 32], &update(12_345, -5, 1_000), 1_100)),
        Err(BumpErrorCode::PythOffline)
    );
}

#[test]
fn oracle_map_reads_the_last_update_of_a_feed() {
    let mut m = OracleMap::load(vec![update(1, -5, 1_000), update(2, -5, 1_000)], 1_100).unwrap();
    assert!(m.contains(&FEED));
    assert!(m.contains(&[0; 32]));
    assert!(!m.contains(&[5; 32]));
    assert_eq!(prices(m.get_price_data(&FEED)), Ok((2_000, 10_000)));
    // A price read once is given again.
    assert_eq!(prices(m.get_price_data(&FEED)), Ok((2_000, 10_000)));
    assert_eq!(prices(m.get_price_data(&[5; 32])), Err(BumpErrorCode::OracleNotFound));
    let mut empty = OracleMap::empty();
    assert_eq!(prices(empty.get_price_data(&FEED)), Err(BumpErrorCode::OracleNotFound));
    assert!(!empty.contains(&FEED));
}

#[test]
fn usd_price_is_one() {
    let d = OraclePriceData::default_usd();
    assert_eq!(d.price, 100_000_000);
    assert_eq!(d.confidence, 1);
}

#[test]
fn derived_addresses_match_the_runtime() {
    let program = [42u8; 32];
    let id = Pubkey::new_from_array(program);
    let (pool, _) = Pubkey::find_program_address(&[b"pool", &3u16.to_le_bytes()], &id);
    assert_eq!(generate_pool_pda(3, &program), Ok(pool.to_bytes()));
    let (market, _) = Pubkey::find_program_address(&[b"market", &258u16.to_le_bytes()], &id);
    assert_eq!(generate_market_pda(258, &program), Ok(market.to_bytes()));
    let (vault, _) = Pubkey::find_program_address(&[b"pool_mint_vault", &1u16.to_le_bytes()], &id);
    assert_eq!(generate_pool_vault_key(1, &program), Ok(vault.to_bytes()));
    let (tvault, _) = Pubkey::find_program_address(&[b"trade_token_vault", &2u16.to_le_bytes()], &id);
    assert_eq!(generate_trade_token_vault_key(2, &program), Ok(tvault.to_bytes()));
    let authority = [7u8; 32];
    let (user, _) = Pubkey::find_program_address(&[b"user", &authority], &id);
    assert_eq!(generate_user_pda(&authority, &program), Ok(user.to_bytes()));
    let symbol = [9u8; 32];
    let (position, _) = Pubkey::find_program_address(&[&authority, &symbol, &[1u8]], &id);
    assert_eq!(generate_position_key(&authority, symbol, true, &program), Ok(position.to_bytes()));
    assert_ne!(generate_position_key(&authority, symbol, false, &program), Ok(position.to_bytes()));
}

#[test]
fn signer_seeds_carry_the_nonce() {
    let nonce = 254u8;
    let seeds = get_signer_seeds(&nonce);
    assert_eq!(seeds[0], b"bump_signer");
    assert_eq!(seeds[1], &[254u8]);
}
