use bumpin_trade::errors::BumpErrorCode;
use bumpin_trade::processor::position_processor::{
    calculate_decrease_position, decrease_position, execute_add_position_margin,
    execute_increase_order_margin, execute_reduce_position_margin, get_execution_price,
    handle_execute_order, get_pos_fee_in_usd, settle_isolate, update_funding_fee, use_base_token,
    validate_execute_order, DecreasePositionParams, TokenTransfer, UpdateDecreaseResponse,
    UpdatePositionMarginParams,
};
use bumpin_trade::state::infrastructure::fee_reward::FeeReward;
use bumpin_trade::state::infrastructure::market_funding_fee::MarketFundingFee;
use bumpin_trade::state::infrastructure::pool_borrowing_fee::BorrowingFee;
use bumpin_trade::state::infrastructure::user_order::{
    OrderSide, OrderStatus, OrderType, PositionSide, StopType, UserOrder,
};
use bumpin_trade::state::infrastructure::user_position::{PositionStatus, UserPosition};
use bumpin_trade::state::infrastructure::user_stake::UserStake;
use bumpin_trade::state::infrastructure::user_token::UserToken;
use bumpin_trade::state::lookup::TokenPrice;
use bumpin_trade::state::oracle::PythPriceUpdate;
use bumpin_trade::state::oracle_map::OracleMap;
use bumpin_trade::state::market::{Market, MarketConfig, MarketPosition, MarketStatus, UpdateOIParams};
use bumpin_trade::state::pool::{Pool, PoolBalance, PoolConfig, PoolMarketInput, PoolStatus};
use bumpin_trade::state::state::State;
use bumpin_trade::state::trade_token::TradeToken;
use bumpin_trade::state::user::User;

const MINT: [u8; 32] = [7; 32];
const POSITION_KEY: [u8; 32] = [5; 32];
const ONE_TOKEN: u128 = 1_000_000_000;
const ONE_USD: u128 = 1_000_000_000_000_000_000;
const ONE_USD_PRICE: u128 = 100_000_000;

fn market() -> Market {
    Market {
        symbol: [3; 32],
        long_open_interest: MarketPosition { open_interest: 10 * ONE_USD, entry_price: ONE_USD_PRICE },
        short_open_interest: MarketPosition { open_interest: 0, entry_price: 0 },
        funding_fee: MarketFundingFee {
            long_funding_fee_amount_per_size: 0,
            short_funding_fee_amount_per_size: 0,
            total_long_funding_fee: 0,
            total_short_funding_fee: 0,
            long_funding_fee_rate: 0,
            short_funding_fee_rate: 0,
            updated_at: 0,
        },
        config: MarketConfig {
            tick_size: 0,
            open_fee_rate: 0,
            close_fee_rate: 100,
            maximum_long_open_interest_cap: u128::MAX,
            maximum_short_open_interest_cap: u128::MAX,
            long_short_ratio_limit: 0,
            long_short_oi_bottom_limit: 0,
            maximum_leverage: 2_000_000,
            minimum_leverage: 100_000,
            max_pool_liquidity_share_rate: 100_000,
        },
        stable_loss: 0,
        pool_key: [1; 32],
        pool_mint_key: MINT,
        index_mint_oracle: [8; 32],
        stable_pool_key: [2; 32],
        stable_pool_mint_key: [9; 32],
        stable_unsettle_loss: 0,
        index: 0,
        market_status: MarketStatus::NORMAL,
        share_short: false,
    }
}

fn pool(key: u8, mint: [u8; 32], hold: u128) -> Pool {
    Pool {
        key: [key; 32],
        name: [0; 32],
        pnl: 0,
        apr: 0,
        insurance_fund_amount: 0,
        total_supply: 100 * ONE_TOKEN,
        balance: PoolBalance {
            settle_funding_fee: 0,
            amount: 100 * ONE_TOKEN,
            hold_amount: hold,
            un_settle_amount: 0,
            loss_amount: 0,
        },
        borrowing_fee: BorrowingFee {
            total_borrowing_fee: 0,
            total_realized_borrowing_fee: 0,
            cumulative_borrowing_fee_per_token: 0,
            updated_at: 0,
        },
        fee_reward: FeeReward::default(),
        config: PoolConfig {
            minimum_stake_amount: 0,
            minimum_un_stake_amount: 0,
            pool_liquidity_limit: 0,
            borrowing_interest_rate: 0,
            stake_fee_rate: 0,
            un_stake_fee_rate: 0,
            un_settle_mint_ratio_limit: 0,
        },
        pool_vault_key: [0; 32],
        stable_mint_key: [9; 32],
        mint_key: mint,
        index: 0,
        status: PoolStatus::NORMAL,
        stable: false,
        market_number: 1,
    }
}

fn trade_token() -> TradeToken {
    TradeToken {
        total_liability: 0,
        total_amount: 0,
        mint_key: MINT,
        oracle_key: [8; 32],
        vault_key: [6; 32],
        name: [0; 32],
        discount: 100_000,
        liquidation_factor: 0,
        index: 0,
        decimals: 9,
    }
}

fn state() -> State {
    State {
        admin: [0; 32],
        bump_signer: [0; 32],
        keeper_signer: [0; 32],
        bump_signer_nonce: 0,
        market_sequence: 0,
        pool_sequence: 0,
        trade_token_sequence: 0,
        minimum_order_margin_usd: 0,
        maximum_maintenance_margin_rate: 1_000,
        funding_fee_base_rate: 0,
        maximum_funding_base_rate: 0,
        minimum_precision_multiple: 0,
        pool_rewards_interval_limit: 0,
        init_fee: 0,
        trading_fee_usd_pool_rewards_ratio: 0,
        staking_fee_reward_ratio: 0,
        pool_fee_reward_ratio: 0,
    }
}

/// An isolated long of 10 USD on 1 token of margin (10x), entered at 1 USD.
fn position() -> UserPosition {
    let mut p = UserPosition::default();
    p.position_size = 10 * ONE_USD;
    p.entry_price = ONE_USD_PRICE;
    p.margin_token_entry_price = ONE_USD_PRICE;
    p.initial_margin = ONE_TOKEN;
    p.initial_margin_usd = ONE_USD;
    p.hold_pool_amount = 9 * ONE_TOKEN;
    p.leverage = 1_000_000;
    p.is_long = true;
    p.margin_mint_key = MINT;
    p.symbol = [3; 32];
    p.position_key = POSITION_KEY;
    p.status = PositionStatus::USING;
    p
}

fn user_with_position(p: UserPosition) -> User {
    let mut u = User {
        next_order_id: 0,
        next_liquidation_id: 0,
        hold: 0,
        user_tokens: [UserToken::default(); 12],
        user_stakes: [UserStake::default(); 12],
        user_positions: [UserPosition::default(); 8],
        user_orders: [UserOrder::default(); 8],
        user_key: [2; 32],
        authority: [3; 32],
    };
    u.user_positions[0] = p;
    u
}

#[test]
fn margin_token_of_an_order() {
    assert_eq!(use_base_token(&PositionSide::INCREASE, &OrderSide::LONG), Ok(true));
    assert_eq!(use_base_token(&PositionSide::INCREASE, &OrderSide::SHORT), Ok(false));
    assert_eq!(use_base_token(&PositionSide::DECREASE, &OrderSide::LONG), Ok(false));
    assert_eq!(use_base_token(&PositionSide::DECREASE, &OrderSide::SHORT), Ok(true));
    assert_eq!(use_base_token(&PositionSide::NONE, &OrderSide::SHORT), Err(BumpErrorCode::InvalidParam));
}

#[test]
fn execution_price_respects_the_order() {
    let mut o = UserOrder::default();
    o.order_side = OrderSide::LONG;
    o.order_type = OrderType::MARKET;
    o.acceptable_price = 110;
    assert_eq!(get_execution_price(100, &o), Ok(100));
    assert_eq!(get_execution_price(110, &o), Err(BumpErrorCode::PriceIsNotAllowed));
    o.order_type = OrderType::LIMIT;
    o.trigger_price = 90;
    assert_eq!(get_execution_price(100, &o), Err(BumpErrorCode::PriceIsNotAllowed));
    assert_eq!(get_execution_price(90, &o), Ok(90));
    o.order_type = OrderType::STOP;
    o.stop_type = StopType::StopLoss;
    assert_eq!(get_execution_price(95, &o), Ok(95));
    assert_eq!(get_execution_price(85, &o), Err(BumpErrorCode::PriceIsNotAllowed));
}

#[test]
fn order_leverage_must_be_within_the_market_range() {
    let mut o = UserOrder::default();
    o.leverage = 1_000_000;
    assert_eq!(validate_execute_order(&o, &market()), Ok(()));
    o.leverage = 3_000_000;
    assert_eq!(validate_execute_order(&o, &market()), Err(BumpErrorCode::LeverageIsNotAllowed));
    o.leverage = 10;
    assert_eq!(validate_execute_order(&o, &market()), Err(BumpErrorCode::LeverageIsNotAllowed));
}

#[test]
fn position_fees_add_up() {
    assert_eq!(get_pos_fee_in_usd(-5, 3, 4), Ok(2));
    assert_eq!(get_pos_fee_in_usd(i128::MAX, 1, 0), Err(BumpErrorCode::MathError));
}

#[test]
fn full_close_settles_fees_and_profit() {
    let mut p = position();
    p.realized_borrowing_fee = 20_000_000;
    p.realized_borrowing_fee_in_usd = 20_000_000_000_000_000;
    p.realized_funding_fee = 10_000_000;
    p.realized_funding_fee_in_usd = 10_000_000_000_000_000;
    p.close_fee_in_usd = 10_000_000_000_000_000;
    let pnl: i128 = 500_000_000_000_000_000;
    let v = calculate_decrease_position(
        10 * ONE_USD,
        false,
        false,
        pnl,
        ONE_USD_PRICE,
        &market(),
        &state(),
        &trade_token(),
        &p,
    )
    .unwrap();
    assert_eq!(v.decrease_margin, ONE_TOKEN);
    assert_eq!(v.decrease_margin_in_usd, ONE_USD);
    assert_eq!(v.un_hold_pool_amount, 9 * ONE_TOKEN);
    assert_eq!(v.settle_borrowing_fee, 20_000_000);
    assert_eq!(v.settle_funding_fee, 10_000_000);
    assert_eq!(v.settle_close_fee, 10_000_000);
    assert_eq!(v.settle_fee, 40_000_000);
    // (1 + 0.5 - 0.04) USD back, in tokens at 1 USD.
    assert_eq!(v.settle_margin, 1_460_000_000);
    assert_eq!(v.user_realized_pnl_token, 460_000_000);
    assert_eq!(v.pool_pnl_token, -500_000_000);
    assert_eq!(v.user_realized_pnl, 460_000_000_000_000_000);
    // What the margin becomes: returned, the pool's side and the fees.
    assert_eq!(
        v.settle_margin + v.pool_pnl_token + v.settle_fee,
        v.decrease_margin as i128
    );
    assert_eq!(v.user_realized_pnl_token + v.pool_pnl_token + v.settle_fee, 0);
    assert_eq!(settle_isolate(&v), Ok(1_460_000_000));
}

#[test]
fn half_close_conserves_the_margin() {
    let mut p = position();
    p.close_fee_in_usd = 10_000_000_000_000_000;
    let v = calculate_decrease_position(
        5 * ONE_USD,
        false,
        false,
        -200_000_000_000_000_000,
        ONE_USD_PRICE,
        &market(),
        &state(),
        &trade_token(),
        &p,
    )
    .unwrap();
    assert_eq!(v.decrease_margin, ONE_TOKEN / 2);
    assert_eq!(v.un_hold_pool_amount, 9 * ONE_TOKEN / 2);
    assert_eq!(v.settle_margin + v.pool_pnl_token + v.settle_fee, v.decrease_margin as i128);
}

#[test]
fn isolated_liquidation_returns_nothing() {
    let p = position();
    let v = calculate_decrease_position(
        10 * ONE_USD,
        true,
        false,
        -900_000_000_000_000_000,
        ONE_USD_PRICE,
        &market(),
        &state(),
        &trade_token(),
        &p,
    )
    .unwrap();
    assert_eq!(v.settle_margin, 0);
    assert_eq!(v.pool_pnl_token, ONE_TOKEN as i128);
    assert_eq!(settle_isolate(&v), Ok(0));
}

#[test]
fn closing_at_entry_without_fees_returns_the_margin() {
    let mut u = user_with_position(position());
    let mut m = market();
    let mut base = pool(1, MINT, 9 * ONE_TOKEN);
    let mut stable = pool(2, [9; 32], 0);
    let mut tt = trade_token();
    let params = DecreasePositionParams {
        order_id: 0,
        is_liquidation: false,
        is_portfolio_margin: false,
        margin_token: MINT,
        decrease_size: 10 * ONE_USD,
        execute_price: ONE_USD_PRICE,
    };
    let r = decrease_position(
        params,
        &mut u,
        &mut m,
        &mut base,
        &mut stable,
        &state(),
        &mut tt,
        ONE_USD_PRICE,
        &POSITION_KEY,
        0,
        true,
    );
    assert_eq!(r, Ok(TokenTransfer::PoolToUser(ONE_TOKEN)));
    assert_eq!(u.user_positions[0].status, PositionStatus::INIT);
    assert_eq!(base.balance.hold_amount, 0);
    assert_eq!(base.balance.amount, 100 * ONE_TOKEN);
    assert_eq!(m.long_open_interest.open_interest, 0);
}

#[test]
fn closing_an_unknown_position_is_refused() {
    let mut u = user_with_position(position());
    let mut m = market();
    let mut base = pool(1, MINT, 9 * ONE_TOKEN);
    let mut stable = pool(2, [9; 32], 0);
    let mut tt = trade_token();
    let params = DecreasePositionParams {
        order_id: 0,
        is_liquidation: false,
        is_portfolio_margin: false,
        margin_token: MINT,
        decrease_size: 10 * ONE_USD,
        execute_price: ONE_USD_PRICE,
    };
    let r = decrease_position(
        params,
        &mut u,
        &mut m,
        &mut base,
        &mut stable,
        &state(),
        &mut tt,
        ONE_USD_PRICE,
        &[6; 32],
        0,
        true,
    );
    assert_eq!(r, Err(BumpErrorCode::CouldNotFindUserPosition));
    assert_eq!(u.user_positions[0].status, PositionStatus::USING);
    assert_eq!(base.balance.hold_amount, 9 * ONE_TOKEN);
}

#[test]
fn adding_isolated_margin_lowers_leverage_and_hold() {
    let mut p = position();
    let mut pl = pool(1, MINT, 9 * ONE_TOKEN);
    let mut m = market();
    let params = UpdatePositionMarginParams {
        position_key: POSITION_KEY,
        is_add: true,
        update_margin_amount: ONE_TOKEN,
        add_initial_margin_from_portfolio: 0,
    };
    assert_eq!(execute_add_position_margin(&params, &trade_token(), &mut pl, &mut m, &mut p), Ok(()));
    assert_eq!(p.initial_margin, 2 * ONE_TOKEN);
    assert_eq!(p.initial_margin_usd, 2 * ONE_USD);
    assert_eq!(p.leverage, 500_000);
    assert_eq!(p.hold_pool_amount, 8 * ONE_TOKEN);
    assert_eq!(pl.balance.hold_amount, 8 * ONE_TOKEN);
    // Margin cannot reach the size of the position.
    let too_much = UpdatePositionMarginParams { update_margin_amount: 8 * ONE_TOKEN, ..params };
    assert_eq!(
        execute_add_position_margin(&too_much, &trade_token(), &mut pl, &mut m, &mut p),
        Err(BumpErrorCode::AmountNotEnough)
    );
    assert_eq!(p.initial_margin, 2 * ONE_TOKEN);
}

#[test]
fn decrease_response_compares_by_fields() {
    let v = calculate_decrease_position(
        10 * ONE_USD,
        false,
        false,
        0,
        ONE_USD_PRICE,
        &market(),
        &state(),
        &trade_token(),
        &position(),
    )
    .unwrap();
    let w: UpdateDecreaseResponse = v;
    assert_eq!(v, w);
    assert_eq!(v.settle_margin, ONE_TOKEN as i128);
    assert_eq!(v.pool_pnl_token, 0);
}

#[test]
fn closing_below_the_margin_needs_a_liquidation() {
    let mut u = user_with_position(position());
    let mut m = market();
    let mut base = pool(1, MINT, 9 * ONE_TOKEN);
    let mut stable = pool(2, [9; 32], 0);
    let mut tt = trade_token();
    // At half the entry price the long has lost five times its margin.
    let params = DecreasePositionParams {
        order_id: 0,
        is_liquidation: false,
        is_portfolio_margin: false,
        margin_token: MINT,
        decrease_size: 10 * ONE_USD,
        execute_price: ONE_USD_PRICE / 2,
    };
    let r = decrease_position(
        params,
        &mut u,
        &mut m,
        &mut base,
        &mut stable,
        &state(),
        &mut tt,
        ONE_USD_PRICE,
        &POSITION_KEY,
        0,
        true,
    );
    assert_eq!(r, Err(BumpErrorCode::PositionShouldBeLiquidation));
    assert_eq!(u.user_positions[0].status, PositionStatus::USING);
    assert_eq!(m.long_open_interest.open_interest, 10 * ONE_USD);
}

#[test]
fn isolated_order_margin_must_reach_the_minimum() {
    let mut u = user_with_position(UserPosition::default());
    let mut o = UserOrder::default();
    o.order_margin = ONE_TOKEN;
    let tokens = vec![TokenPrice { trade_token: trade_token(), price: ONE_USD_PRICE }];
    let mut st = state();
    st.minimum_order_margin_usd = 2 * ONE_USD;
    assert_eq!(
        execute_increase_order_margin(&o, &MINT, 9, &mut u, ONE_USD_PRICE, &tokens, &st),
        Err(BumpErrorCode::OrderMarginUSDTooSmall)
    );
    st.minimum_order_margin_usd = ONE_USD;
    assert_eq!(
        execute_increase_order_margin(&o, &MINT, 9, &mut u, ONE_USD_PRICE, &tokens, &st),
        Ok((ONE_TOKEN, ONE_TOKEN))
    );
}

#[test]
fn executing_a_market_order_opens_a_position() {
    let mut u = user_with_position(UserPosition::default());
    let mut o = UserOrder::default();
    o.order_id = 1;
    o.status = OrderStatus::USING;
    o.order_margin = ONE_TOKEN;
    o.leverage = 1_000_000;
    o.order_side = OrderSide::LONG;
    o.position_side = PositionSide::INCREASE;
    o.order_type = OrderType::MARKET;
    o.symbol = [3; 32];
    o.margin_mint_key = MINT;
    u.add_user_order(&o).unwrap();
    let mut m = market();
    m.long_open_interest = MarketPosition { open_interest: 0, entry_price: 0 };
    let mut base = pool(1, MINT, 0);
    base.config.pool_liquidity_limit = 100_000;
    let mut stable = pool(2, [9; 32], 0);
    let mut tt = trade_token();
    let mut stt = trade_token();
    stt.mint_key = [9; 32];
    let tokens = vec![TokenPrice { trade_token: tt, price: ONE_USD_PRICE }];
    let markets = vec![PoolMarketInput {
        market: m,
        index_price: ONE_USD_PRICE,
        stable_token_decimals: 9,
        stable_token_price: ONE_USD_PRICE,
    }];
    let r = handle_execute_order(
        &mut u,
        &mut m,
        &mut base,
        &mut stable,
        &mut tt,
        &mut stt,
        &state(),
        &[42; 32],
        &o,
        ONE_USD_PRICE,
        ONE_USD_PRICE,
        ONE_USD_PRICE,
        &tokens,
        &markets,
        0,
        true,
    );
    assert_eq!(r, Ok(TokenTransfer::NoTransfer));
    assert_eq!(u.user_orders[0].status, OrderStatus::INIT);
    let p = u.user_positions.iter().find(|p| p.status == PositionStatus::USING).unwrap();
    assert!(p.is_long);
    assert_eq!(p.initial_margin, ONE_TOKEN);
    assert_eq!(p.position_size, 10 * ONE_USD);
    assert_eq!(m.long_open_interest.open_interest, 10 * ONE_USD);
    assert!(base.balance.hold_amount > 0);
    assert_eq!(base.balance.hold_amount, p.hold_pool_amount);
}

#[test]
fn long_and_short_profits_are_opposite() {
    let long = position();
    let mut short = position();
    short.is_long = false;
    // A tenth up on 10 USD: one USD.
    assert_eq!(long.get_position_un_pnl_usd(110_000_000), Ok(ONE_USD as i128));
    assert_eq!(short.get_position_un_pnl_usd(110_000_000), Ok(-(ONE_USD as i128)));
    assert_eq!(long.get_position_un_pnl_usd(95_000_000), Ok(-(ONE_USD as i128) / 2));
    assert_eq!(short.get_position_un_pnl_usd(95_000_000), Ok(ONE_USD as i128 / 2));
    let mut empty = position();
    empty.position_size = 0;
    assert_eq!(empty.get_position_un_pnl_usd(1), Ok(0));
}

#[test]
fn reducing_isolated_margin_raises_leverage_and_hold() {
    let mut p = position();
    p.initial_margin = 2 * ONE_TOKEN;
    p.initial_margin_usd = 2 * ONE_USD;
    p.leverage = 500_000;
    p.hold_pool_amount = 8 * ONE_TOKEN;
    let mut base = pool(1, MINT, 8 * ONE_TOKEN);
    base.config.pool_liquidity_limit = 100_000;
    let mut stable = pool(2, [9; 32], 0);
    let m = market();
    let markets = vec![PoolMarketInput {
        market: m,
        index_price: ONE_USD_PRICE,
        stable_token_decimals: 9,
        stable_token_price: ONE_USD_PRICE,
    }];
    let params = UpdatePositionMarginParams {
        position_key: POSITION_KEY,
        is_add: false,
        update_margin_amount: ONE_USD,
        add_initial_margin_from_portfolio: 0,
    };
    let r = execute_reduce_position_margin(
        &params,
        true,
        &trade_token(),
        &trade_token(),
        &mut base,
        &mut stable,
        &m,
        &state(),
        &mut p,
        &markets,
        ONE_USD_PRICE,
    );
    assert_eq!(r, Ok(ONE_TOKEN));
    assert_eq!(p.initial_margin, ONE_TOKEN);
    assert_eq!(p.initial_margin_usd, ONE_USD);
    assert_eq!(p.leverage, 1_000_000);
    assert_eq!(p.hold_pool_amount, 9 * ONE_TOKEN);
    assert_eq!(base.balance.hold_amount, 9 * ONE_TOKEN);
    // The margin must stay above what the maximum leverage needs.
    let too_much = UpdatePositionMarginParams { update_margin_amount: ONE_USD / 2, ..params };
    let r2 = execute_reduce_position_margin(
        &too_much,
        true,
        &trade_token(),
        &trade_token(),
        &mut base,
        &mut stable,
        &m,
        &state(),
        &mut p,
        &markets,
        ONE_USD_PRICE,
    );
    assert_eq!(r2, Err(BumpErrorCode::AmountNotEnough));
    assert_eq!(p.initial_margin, ONE_TOKEN);
}

#[test]
fn open_interest_moves_with_positions() {
    let mut m = market();
    m.config.tick_size = 10;
    let add = UpdateOIParams {
        margin_token: MINT,
        size: 30 * ONE_USD,
        is_long: true,
        entry_price: 120_000_000,
        token_decimal: 9,
    };
    assert_eq!(m.update_oi(true, add), Ok(()));
    // (10 * 1.00 + 30 * 1.20) / 40 = 1.15 USD.
    assert_eq!(m.long_open_interest.open_interest, 40 * ONE_USD);
    assert_eq!(m.long_open_interest.entry_price, 115_000_000);
    let sub = UpdateOIParams { size: 15 * ONE_USD, ..add };
    assert_eq!(m.update_oi(false, sub), Ok(()));
    assert_eq!(m.long_open_interest.open_interest, 25 * ONE_USD);
    assert_eq!(m.long_open_interest.entry_price, 115_000_000);
    let all = UpdateOIParams { size: 100 * ONE_USD, ..add };
    assert_eq!(m.update_oi(false, all), Ok(()));
    assert_eq!(m.long_open_interest.open_interest, 0);
    assert_eq!(m.long_open_interest.entry_price, 0);
}

#[test]
fn market_profit_is_the_pool_side() {
    let m = market();
    // Longs of 10 USD entered at 1 USD gain 1 USD at 1.10: the pool loses it.
    assert_eq!(m.get_market_un_pnl_at(true, 110_000_000), Ok(-(ONE_USD as i128)));
    // No short interest, no profit.
    assert_eq!(m.get_market_un_pnl_at(false, 110_000_000), Ok(0));
    // 100 of long interest entered at 10, marked at 12.
    let mut small = market();
    small.long_open_interest = MarketPosition { open_interest: 100, entry_price: 10 };
    assert_eq!(small.get_market_un_pnl_at(true, 12), Ok(-20));
}

fn index_update(price: i64, publish_time: i64) -> PythPriceUpdate {
    PythPriceUpdate { feed_id: [8; 32], price, conf: 1, exponent: -8, publish_time, fully_verified: true }
}

#[test]
fn market_profit_reads_the_index_oracle() {
    let m = market();
    let mut oracles = OracleMap::load(vec![index_update(110_000_000, 1_000)], 1_100).unwrap();
    assert_eq!(m.get_market_un_pnl(true, &mut oracles), Ok(-(ONE_USD as i128)));
    assert_eq!(m.get_market_un_pnl(false, &mut oracles), Ok(0));
    // No price for the index oracle.
    let mut empty = OracleMap::empty();
    assert_eq!(m.get_market_un_pnl(true, &mut empty), Err(BumpErrorCode::OracleNotFound));
    // Even a side with no interest needs the price.
    assert_eq!(m.get_market_un_pnl(false, &mut empty), Err(BumpErrorCode::OracleNotFound));
    // A stale price is reported the same way.
    let mut stale = OracleMap::load(vec![index_update(110_000_000, 1_000)], 2_000).unwrap();
    assert_eq!(m.get_market_un_pnl(true, &mut stale), Err(BumpErrorCode::OracleNotFound));
}

#[test]
fn a_second_funding_settlement_changes_nothing() {
    let mut p = position();
    let mut m = market();
    // Two tokens of funding per USD of size since the position last settled.
    m.funding_fee.long_funding_fee_amount_per_size = 200_000_000;
    let mut pl = pool(1, MINT, 0);
    let token = trade_token();
    assert_eq!(update_funding_fee(&mut p, &mut m, &mut pl, ONE_USD_PRICE, &token), Ok(()));
    assert_eq!(p.realized_funding_fee, 2 * ONE_TOKEN as i128);
    assert_eq!(p.realized_funding_fee_in_usd, 2 * ONE_USD as i128);
    assert_eq!(p.open_funding_fee_amount_per_size, 200_000_000);
    assert_eq!(m.funding_fee.total_long_funding_fee, 2 * ONE_TOKEN as i128);
    assert_eq!(pl.balance.settle_funding_fee, 2 * ONE_TOKEN as i128);
    let (p1, m1, pl1) = (p, m, pl);
    assert_eq!(update_funding_fee(&mut p, &mut m, &mut pl, ONE_USD_PRICE, &token), Ok(()));
    assert_eq!(format!("{:?}", p), format!("{:?}", p1));
    assert_eq!(format!("{:?}", m), format!("{:?}", m1));
    assert_eq!(format!("{:?}", pl), format!("{:?}", pl1));
}

#[test]
fn closing_cancels_stop_orders_by_id_even_when_ids_repeat() {
    let mut u = user_with_position(position());
    let mut limit = UserOrder::default();
    limit.order_id = 7;
    limit.status = OrderStatus::USING;
    limit.order_type = OrderType::LIMIT;
    limit.symbol = [3; 32];
    limit.margin_mint_key = MINT;
    let mut stop = limit;
    stop.order_type = OrderType::STOP;
    let mut own = stop;
    own.order_id = 0;
    u.user_orders[0] = limit;
    u.user_orders[1] = stop;
    u.user_orders[2] = own;
    let mut m = market();
    let mut base = pool(1, MINT, 9 * ONE_TOKEN);
    let mut stable = pool(2, [9; 32], 0);
    let mut tt = trade_token();
    let params = DecreasePositionParams {
        order_id: 0,
        is_liquidation: false,
        is_portfolio_margin: false,
        margin_token: MINT,
        decrease_size: 10 * ONE_USD,
        execute_price: ONE_USD_PRICE,
    };
    let r = decrease_position(
        params,
        &mut u,
        &mut m,
        &mut base,
        &mut stable,
        &state(),
        &mut tt,
        ONE_USD_PRICE,
        &POSITION_KEY,
        0,
        true,
    );
    assert_eq!(r, Ok(TokenTransfer::PoolToUser(ONE_TOKEN)));
    // The stop order with id 7 frees the first pending order with that id,
    // the limit order; the stop order of the executing order stays.
    assert_eq!(u.user_orders[0].status, OrderStatus::INIT);
    assert_eq!(u.user_orders[1].status, OrderStatus::USING);
    assert_eq!(u.user_orders[1].order_type, OrderType::STOP);
    assert_eq!(u.user_orders[2].status, OrderStatus::USING);
    assert_eq!(u.user_positions[0].status, PositionStatus::INIT);
}
