use bumpin_trade::errors::BumpErrorCode;
use bumpin_trade::processor::user_processor::{update_account_fee_reward, withdraw};
use bumpin_trade::state::infrastructure::fee_reward::FeeReward;
use bumpin_trade::state::infrastructure::pool_borrowing_fee::BorrowingFee;
use bumpin_trade::state::infrastructure::user_order::{OrderStatus, OrderType, UserOrder};
use bumpin_trade::state::infrastructure::user_position::{PositionStatus, UserPosition};
use bumpin_trade::state::infrastructure::user_stake::{UserStake, UserStakeStatus};
use bumpin_trade::state::infrastructure::user_token::{UserToken, UserTokenStatus};
use bumpin_trade::state::lookup::{find_market, find_pool, find_token_price, TokenPrice};
use bumpin_trade::state::market::Market;
use bumpin_trade::state::pool::{Pool, PoolBalance, PoolConfig, PoolStatus};
use bumpin_trade::state::trade_token::TradeToken;
use bumpin_trade::state::user::{User, UserTokenUpdateReason};

const MINT: [u8; 32] = [7; 32];
const ACCOUNT: [u8; 32] = [4; 32];

fn user() -> User {
    User {
        next_order_id: 0,
        next_liquidation_id: 0,
        hold: 0,
        user_tokens: [UserToken::default(); 12],
        user_stakes: [UserStake::default(); 12],
        user_positions: [UserPosition::default(); 8],
        user_orders: [UserOrder::default(); 8],
        user_key: [2; 32],
        authority: [3; 32],
    }
}

fn trade_token() -> TradeToken {
    TradeToken {
        total_liability: 0,
        total_amount: 0,
        mint_key: MINT,
        oracle_key: [8; 32],
        vault_key: [6; 32],
        name: [0; 32],
        discount: 100_000,
        liquidation_factor: 0,
        index: 0,
        decimals: 9,
    }
}

fn order(id: u64) -> UserOrder {
    let mut o = UserOrder::default();
    o.order_id = id;
    o.status = OrderStatus::USING;
    o
}

fn pool_with_rewards(cumulative: u128) -> Pool {
    Pool {
        key: [1; 32],
        name: [0; 32],
        pnl: 0,
        apr: 0,
        insurance_fund_amount: 0,
        total_supply: 0,
        balance: PoolBalance { settle_funding_fee: 0, amount: 0, hold_amount: 0, un_settle_amount: 0, loss_amount: 0 },
        borrowing_fee: BorrowingFee {
            total_borrowing_fee: 0,
            total_realized_borrowing_fee: 0,
            cumulative_borrowing_fee_per_token: 0,
            updated_at: 0,
        },
        fee_reward: FeeReward {
            fee_amount: 0,
            un_settle_fee_amount: 0,
            cumulative_rewards_per_stake_token: cumulative,
            last_rewards_per_stake_token_deltas: [0; 3],
        },
        config: PoolConfig {
            minimum_stake_amount: 0,
            minimum_un_stake_amount: 0,
            pool_liquidity_limit: 0,
            borrowing_interest_rate: 0,
            stake_fee_rate: 0,
            un_stake_fee_rate: 0,
            un_settle_mint_ratio_limit: 0,
        },
        pool_vault_key: [0; 32],
        stable_mint_key: [9; 32],
        mint_key: MINT,
        index: 0,
        status: PoolStatus::NORMAL,
        stable: false,
        market_number: 0,
    }
}

#[test]
fn token_slots_are_found_and_filled() {
    let mut u = user();
    assert_eq!(u.get_user_token_index(&MINT), Err(BumpErrorCode::CouldNotFindUserToken));
    assert_eq!(u.add_user_token(&MINT, &ACCOUNT), Ok(0));
    assert_eq!(u.get_user_token_index(&MINT), Ok(0));
    assert_eq!(u.user_tokens[0].user_token_status, UserTokenStatus::USING);
    assert_eq!(u.user_tokens[0].user_token_account_key, ACCOUNT);
    for k in 1..12u8 {
        assert!(u.add_user_token(&[k; 32], &ACCOUNT).is_ok());
    }
    assert_eq!(u.add_user_token(&[100; 32], &ACCOUNT), Err(BumpErrorCode::NoMoreUserTokenSpace));
    assert_eq!(u.next_usable_user_token_index(), Err(BumpErrorCode::NoMoreUserTokenSpace));
}

#[test]
fn balances_move_in_and_out() {
    let mut u = user();
    let reason = UserTokenUpdateReason::default();
    assert_eq!(u.add_user_token_amount(&MINT, 5, &reason), Err(BumpErrorCode::CouldNotFindUserToken));
    u.add_user_token(&MINT, &ACCOUNT).unwrap();
    assert_eq!(u.add_user_token_amount(&MINT, 100, &reason), Ok(()));
    assert_eq!(u.sub_user_token_amount_ignore_used_amount(&MINT, 30, &reason), Ok(()));
    assert_eq!(u.user_tokens[0].amount, 70);
    assert_eq!(
        u.sub_user_token_amount_ignore_used_amount(&MINT, 71, &reason),
        Err(BumpErrorCode::AmountNotEnough)
    );
    assert_eq!(u.user_tokens[0].amount, 70);
}

#[test]
fn using_a_balance_as_margin() {
    let mut u = user();
    u.add_user_token(&MINT, &ACCOUNT).unwrap();
    u.user_tokens[0].amount = 100;
    // 60 of 100 is covered by the balance.
    assert_eq!(u.use_token(&MINT, 60, &ACCOUNT, true), Ok(60));
    // Of the next 60 only 40 is.
    assert_eq!(u.use_token(&MINT, 60, &ACCOUNT, true), Ok(40));
    assert_eq!(u.user_tokens[0].used_amount, 120);
    // The balance is now overdrawn: a checked use is refused.
    assert_eq!(u.use_token(&MINT, 1, &ACCOUNT, true), Err(BumpErrorCode::AmountNotEnough));
    assert_eq!(u.un_use_token(&MINT, 20), Ok(()));
    assert_eq!(u.user_tokens[0].used_amount, 100);
    assert_eq!(u.un_use_token(&MINT, 100), Err(BumpErrorCode::AmountNotEnough));
    // A token the account has no slot for gets one.
    assert_eq!(u.use_token(&[5; 32], 9, &ACCOUNT, false), Ok(0));
    assert_eq!(u.user_tokens[1].used_amount, 9);
    assert_eq!(u.user_tokens[1].token_mint_key, [5; 32]);
}

#[test]
fn debits_beyond_the_balance_become_liability() {
    let mut u = user();
    u.add_user_token(&MINT, &ACCOUNT).unwrap();
    u.user_tokens[0].amount = 30;
    let mut tt = trade_token();
    let reason = UserTokenUpdateReason::default();
    assert_eq!(u.sub_token_with_liability(&MINT, &mut tt, 20, &reason), Ok(0));
    assert_eq!(u.user_tokens[0].amount, 10);
    assert_eq!(u.sub_token_with_liability(&MINT, &mut tt, 25, &reason), Ok(15));
    assert_eq!(u.user_tokens[0].amount, 0);
    assert_eq!(u.user_tokens[0].liability_amount, 15);
    assert_eq!(u.user_tokens[0].used_amount, 15);
    // The token's totals record the new liability.
    assert_eq!(tt.total_amount, 15);
    // A later deposit repays the liability.
    u.user_tokens[0].amount = 40;
    assert_eq!(u.repay_liability(&MINT, UserTokenUpdateReason::default()), Ok(15));
    assert_eq!(u.user_tokens[0].amount, 25);
    assert_eq!(u.user_tokens[0].liability_amount, 0);
    assert_eq!(u.user_tokens[0].used_amount, 0);
    assert_eq!(u.repay_liability(&MINT, UserTokenUpdateReason::default()), Ok(0));
}

#[test]
fn stake_slots() {
    let mut u = user();
    let key = [1; 32];
    assert_eq!(u.get_user_stake_index(&key), Err(BumpErrorCode::CouldNotFindUserStake));
    {
        let s = u.get_or_add_user_stake_ref_mut(&key).unwrap();
        s.staked_share = 40;
    }
    assert_eq!(u.get_user_stake_index(&key), Ok(0));
    assert_eq!(u.user_stakes[0].user_stake_status, UserStakeStatus::USING);
    assert_eq!(u.get_or_add_user_stake_ref_mut(&key).unwrap().staked_share, 40);
    assert_eq!(u.sub_user_stake(&key, 50), Err(BumpErrorCode::AmountNotEnough));
    assert_eq!(u.sub_user_stake(&key, 30), Ok(()));
    assert_eq!(u.user_stakes[0].staked_share, 10);
}

#[test]
fn deleting_a_stake_frees_the_token_slot_at_its_index() {
    let mut u = user();
    let key = [1; 32];
    u.add_user_token(&MINT, &ACCOUNT).unwrap();
    u.add_user_stake(&key).unwrap();
    assert_eq!(u.delete_user_stake(&key), Ok(()));
    assert_eq!(u.user_tokens[0].user_token_status, UserTokenStatus::INIT);
    assert_eq!(u.get_user_stake_index(&key), Ok(0));
    assert_eq!(u.delete_user_stake(&[5; 32]), Err(BumpErrorCode::CouldNotFindUserStake));
}

#[test]
fn stake_rewards_are_realised() {
    let pool = pool_with_rewards(3_000_000_000_000_000_000);
    let mut u = user();
    let i = u.add_user_stake(&pool.key).unwrap();
    u.user_stakes[i].staked_share = 5;
    u.user_stakes[i].user_rewards.open_rewards_per_stake_token = 1_000_000_000_000_000_000;
    assert_eq!(update_account_fee_reward(&pool, &mut u), Ok(()));
    // Two tokens per share since the last realisation, on five shares.
    assert_eq!(u.user_stakes[i].user_rewards.realised_rewards_token_amount, 10);
    assert_eq!(u.user_stakes[i].user_rewards.open_rewards_per_stake_token, 3_000_000_000_000_000_000);
    let mut nobody = user();
    assert_eq!(update_account_fee_reward(&pool, &mut nobody), Err(BumpErrorCode::CouldNotFindUserStake));
}

#[test]
fn order_slots() {
    let mut u = user();
    assert_eq!(u.add_user_order(&order(11)), Ok(0));
    assert_eq!(u.add_user_order(&order(12)), Ok(1));
    assert_eq!(u.get_user_order_index(12), Ok(1));
    assert_eq!(u.get_user_order_index(13), Err(BumpErrorCode::CouldNotFindUserOrder));
    assert_eq!(u.has_other_order(11), Ok(true));
    assert_eq!(u.delete_order(11), Ok(()));
    assert_eq!(u.get_user_order_index(11), Err(BumpErrorCode::CouldNotFindUserOrder));
    assert_eq!(u.delete_order(11), Err(BumpErrorCode::CouldNotFindUserOrder));
    for k in 0..7u64 {
        assert!(u.add_user_order(&order(20 + k)).is_ok());
    }
    assert_eq!(u.add_user_order(&order(99)), Err(BumpErrorCode::NoMoreOrderSpace));
}

#[test]
fn cancelling_a_cross_order_releases_its_hold() {
    let mut u = user();
    let mut o = order(5);
    o.is_portfolio_margin = true;
    o.order_margin = 70;
    u.add_user_order(&o).unwrap();
    u.hold = 50;
    assert_eq!(u.cancel_user_order(0), Err(BumpErrorCode::AmountNotEnough));
    u.hold = 100;
    assert_eq!(u.cancel_user_order(0), Ok(()));
    assert_eq!(u.hold, 30);
    assert_eq!(u.user_orders[0].status, OrderStatus::INIT);
}

#[test]
fn position_slots() {
    let mut u = user();
    let key = [9; 32];
    assert_eq!(u.get_user_position_index(&key), Err(BumpErrorCode::CouldNotFindUserPosition));
    assert_eq!(u.add_user_position(&key), Ok(0));
    assert_eq!(u.user_positions[0].status, PositionStatus::USING);
    assert_eq!(u.user_positions[0].user_key, u.user_key);
    assert_eq!(u.get_user_position_index(&key), Ok(0));
    assert_eq!(u.delete_position(&key), Ok(()));
    assert_eq!(u.user_positions[0].status, PositionStatus::INIT);
    assert_eq!(u.delete_position(&key), Err(BumpErrorCode::CouldNotFindUserPosition));
}

#[test]
fn withdraw_without_cross_positions() {
    let mut u = user();
    u.add_user_token(&MINT, &ACCOUNT).unwrap();
    u.user_tokens[0].amount = 100;
    u.user_tokens[0].used_amount = 30;
    let tokens = vec![TokenPrice { trade_token: trade_token(), price: 100_000_000 }];
    assert_eq!(withdraw(&mut u, 70, &MINT, &tokens), Ok(()));
    assert_eq!(u.user_tokens[0].amount, 30);
    // What is in use cannot leave.
    assert!(withdraw(&mut u, 1, &MINT, &tokens).is_err());
    assert_eq!(u.user_tokens[0].amount, 30);
    assert_eq!(withdraw(&mut u, 1, &[5; 32], &tokens), Err(BumpErrorCode::CouldNotFindUserToken));
}

#[test]
fn available_value_counts_discounted_balances() {
    let mut u = user();
    u.add_user_token(&MINT, &ACCOUNT).unwrap();
    u.user_tokens[0].amount = 2_000_000_000;
    let mut tt = trade_token();
    tt.discount = 50_000;
    let tokens = vec![TokenPrice { trade_token: tt, price: 100_000_000 }];
    // Two tokens at 1 USD, counted at half.
    assert_eq!(u.get_available_value(&tokens), Ok(1_000_000_000_000_000_000));
    assert_eq!(u.get_available_value(&vec![]), Err(BumpErrorCode::TradeTokenNotFind));
}

#[test]
fn lookups_report_what_is_missing() {
    let markets: Vec<Market> = vec![];
    assert_eq!(find_market(&markets, &[3; 32]).err(), Some(BumpErrorCode::MarketNotFind));
    let pools = vec![pool_with_rewards(0)];
    assert_eq!(find_pool(&pools, &[9; 32]).err(), Some(BumpErrorCode::CouldNotLoadPoolData));
    assert_eq!(find_pool(&pools, &[1; 32]).map(|p| p.key), Ok([1; 32]));
    let tokens = vec![TokenPrice { trade_token: trade_token(), price: 5 }];
    assert_eq!(find_token_price(&tokens, &MINT).map(|t| t.price), Ok(5));
    assert_eq!(find_token_price(&tokens, &[1; 32]).err(), Some(BumpErrorCode::TradeTokenNotFind));
}

#[test]
fn cross_withdrawals_are_bounded_by_the_available_value() {
    let mut u = user();
    u.add_user_token(&MINT, &ACCOUNT).unwrap();
    u.user_tokens[0].amount = 100_000_000_000;
    let mut p = UserPosition::default();
    p.status = PositionStatus::USING;
    p.is_portfolio_margin = true;
    p.is_long = true;
    p.position_size = 10_000_000_000_000_000_000;
    p.entry_price = 100_000_000;
    p.index_mint_oracle = MINT;
    p.margin_mint_key = [5; 32];
    u.user_positions[0] = p;
    let tokens = vec![TokenPrice { trade_token: trade_token(), price: 100_000_000 }];
    // 100 tokens at 1 USD are available; 200 cannot leave.
    assert_eq!(withdraw(&mut u, 200_000_000_000, &MINT, &tokens), Err(BumpErrorCode::UserNotEnoughValue));
    assert_eq!(u.user_tokens[0].amount, 100_000_000_000);
}

#[test]
fn a_second_realisation_adds_nothing() {
    let pool = pool_with_rewards(3_000_000_000_000_000_000);
    let mut u = user();
    let i = u.add_user_stake(&pool.key).unwrap();
    u.user_stakes[i].staked_share = 5;
    u.user_stakes[i].user_rewards.open_rewards_per_stake_token = 1_000_000_000_000_000_000;
    assert_eq!(update_account_fee_reward(&pool, &mut u), Ok(()));
    let after_first = u.user_stakes;
    assert_eq!(update_account_fee_reward(&pool, &mut u), Ok(()));
    assert_eq!(format!("{:?}", u.user_stakes), format!("{:?}", after_first));
    assert_eq!(u.user_stakes[i].user_rewards.realised_rewards_token_amount, 10);
}

fn stop_order(id: u64, symbol: [u8; 32]) -> UserOrder {
    let mut o = order(id);
    o.order_type = OrderType::STOP;
    o.symbol = symbol;
    o.margin_mint_key = MINT;
    o
}

#[test]
fn cancelling_stop_orders_frees_the_matching_ones() {
    let mut u = user();
    u.add_user_order(&stop_order(3, [1; 32])).unwrap();
    let mut limit = order(4);
    limit.order_type = OrderType::LIMIT;
    limit.symbol = [1; 32];
    limit.margin_mint_key = MINT;
    u.add_user_order(&limit).unwrap();
    u.add_user_order(&stop_order(5, [2; 32])).unwrap();
    u.add_user_order(&stop_order(6, [1; 32])).unwrap();
    let tokens_before = u.user_tokens;
    // The stop order with the executed order's own id stays.
    assert_eq!(u.cancel_stop_orders(6, [1; 32], &MINT, false), Ok(()));
    assert_eq!(u.user_orders[0].status, OrderStatus::INIT);
    assert_eq!(u.user_orders[1].status, OrderStatus::USING);
    assert_eq!(u.user_orders[2].status, OrderStatus::USING);
    assert_eq!(u.user_orders[3].status, OrderStatus::USING);
    assert_eq!(format!("{:?}", u.user_tokens), format!("{:?}", tokens_before));
    // Cross-margin stop orders are kept when isolated ones are cancelled.
    let mut v = user();
    let mut cross = stop_order(8, [1; 32]);
    cross.is_portfolio_margin = true;
    v.add_user_order(&cross).unwrap();
    assert_eq!(v.cancel_stop_orders(1, [1; 32], &MINT, false), Ok(()));
    assert_eq!(v.user_orders[0].status, OrderStatus::USING);
}

#[test]
fn cancelling_a_stop_order_frees_the_first_order_with_its_id() {
    // A limit order and a matching stop order share the id 7: the stop
    // order's cancellation frees the first pending order with that id.
    let mut u = user();
    let mut limit = order(7);
    limit.order_type = OrderType::LIMIT;
    u.add_user_order(&limit).unwrap();
    u.add_user_order(&stop_order(7, [1; 32])).unwrap();
    assert_eq!(u.cancel_stop_orders(1, [1; 32], &MINT, false), Ok(()));
    assert_eq!(u.user_orders[0].status, OrderStatus::INIT);
    assert_eq!(u.user_orders[1].status, OrderStatus::USING);
    assert_eq!(u.user_orders[1].order_type, OrderType::STOP);
}

#[test]
fn two_stop_orders_with_one_id_are_both_cancelled() {
    let mut u = user();
    u.add_user_order(&stop_order(8, [1; 32])).unwrap();
    u.add_user_order(&order(2)).unwrap();
    u.add_user_order(&stop_order(8, [1; 32])).unwrap();
    assert_eq!(u.cancel_stop_orders(1, [1; 32], &MINT, false), Ok(()));
    assert_eq!(u.user_orders[0].status, OrderStatus::INIT);
    assert_eq!(u.user_orders[1].status, OrderStatus::USING);
    assert_eq!(u.user_orders[2].status, OrderStatus::INIT);
}

fn cross_position(mint: [u8; 32], portfolio_part: u128) -> UserPosition {
    let mut p = UserPosition::default();
    p.status = PositionStatus::USING;
    p.margin_mint_key = mint;
    p.is_portfolio_margin = true;
    p.initial_margin = 1_000_000_000;
    p.initial_margin_usd = 1_000_000_000_000_000_000;
    p.initial_margin_usd_from_portfolio = portfolio_part;
    p
}

fn account_with_cross_positions() -> User {
    let mut u = user();
    u.user_positions[0] = cross_position(MINT, 500_000_000_000_000_000);
    let mut isolated = cross_position(MINT, 500_000_000_000_000_000);
    isolated.is_portfolio_margin = false;
    u.user_positions[1] = isolated;
    u.user_positions[2] = cross_position([8; 32], 500_000_000_000_000_000);
    u
}

#[test]
fn a_zero_portfolio_change_keeps_every_position() {
    let mut u = account_with_cross_positions();
    let before = u.user_positions;
    assert_eq!(u.update_all_position_from_portfolio_margin(0, &MINT), Ok(()));
    assert_eq!(format!("{:?}", u.user_positions), format!("{:?}", before));
}

#[test]
fn portfolio_changes_touch_only_cross_positions_in_the_token() {
    let mut u = account_with_cross_positions();
    let before = u.user_positions;
    // A quarter token leaves the portfolio: a quarter USD of the portfolio
    // part goes.
    assert_eq!(u.update_all_position_from_portfolio_margin(-250_000_000, &MINT), Ok(()));
    assert_eq!(u.user_positions[0].initial_margin_usd_from_portfolio, 250_000_000_000_000_000);
    assert_eq!(u.user_positions[0].initial_margin_usd, before[0].initial_margin_usd);
    assert_eq!(format!("{:?}", u.user_positions[1]), format!("{:?}", before[1]));
    assert_eq!(format!("{:?}", u.user_positions[2]), format!("{:?}", before[2]));
    // A whole token enters: the position takes back the half token it had
    // borrowed and its portfolio part reaches its USD margin, no further.
    let mut v = account_with_cross_positions();
    assert_eq!(v.update_all_position_from_portfolio_margin(1_000_000_000, &MINT), Ok(()));
    assert_eq!(v.user_positions[0].initial_margin_usd_from_portfolio, 1_000_000_000_000_000_000);
    assert_eq!(format!("{:?}", v.user_positions[1]), format!("{:?}", before[1]));
    assert_eq!(format!("{:?}", v.user_positions[2]), format!("{:?}", before[2]));
}
