use bumpin_trade::errors::BumpErrorCode;
use bumpin_trade::processor::fee_processor::{charge_staking_fee, collect_un_stake_fee};
use bumpin_trade::processor::pool_processor::{portfolio_to_stake, stake as quote_stake, un_stake};
use bumpin_trade::processor::stake_processor::stake;
use bumpin_trade::state::infrastructure::fee_reward::FeeReward;
use bumpin_trade::state::infrastructure::pool_borrowing_fee::BorrowingFee;
use bumpin_trade::state::infrastructure::user_order::UserOrder;
use bumpin_trade::state::infrastructure::user_position::UserPosition;
use bumpin_trade::state::infrastructure::user_stake::{UserStake, UserStakeStatus};
use bumpin_trade::state::infrastructure::user_token::UserToken;
use bumpin_trade::state::lookup::TokenPrice;
use bumpin_trade::state::pool::{Pool, PoolBalance, PoolConfig, PoolMarketInput, PoolStatus};
use bumpin_trade::state::state::State;
use bumpin_trade::state::trade_token::TradeToken;
use bumpin_trade::state::user::User;

const MINT: [u8; 32] = [7; 32];
const POOL_KEY: [u8; 32] = [1; 32];
const ONE_TOKEN: u128 = 1_000_000_000;
const ONE_USD_PRICE: u128 = 100_000_000;

fn pool() -> Pool {
    Pool {
        key: POOL_KEY,
        name: [0; 32],
        pnl: 0,
        apr: 0,
        insurance_fund_amount: 0,
        total_supply: 1_000 * ONE_TOKEN,
        balance: PoolBalance {
            settle_funding_fee: 0,
            amount: 2_000 * ONE_TOKEN,
            hold_amount: 0,
            un_settle_amount: 0,
            loss_amount: 0,
        },
        borrowing_fee: BorrowingFee {
            total_borrowing_fee: 0,
            total_realized_borrowing_fee: 0,
            cumulative_borrowing_fee_per_token: 0,
            updated_at: 0,
        },
        fee_reward: FeeReward::default(),
        config: PoolConfig {
            minimum_stake_amount: 0,
            minimum_un_stake_amount: 0,
            pool_liquidity_limit: 50_000,
            borrowing_interest_rate: 0,
            stake_fee_rate: 1_000,
            un_stake_fee_rate: 2_000,
            un_settle_mint_ratio_limit: 0,
        },
        pool_vault_key: [0; 32],
        stable_mint_key: [9; 32],
        mint_key: MINT,
        index: 0,
        status: PoolStatus::NORMAL,
        stable: false,
        market_number: 0,
    }
}

fn trade_token() -> TradeToken {
    TradeToken {
        total_liability: 0,
        total_amount: 0,
        mint_key: MINT,
        oracle_key: [8; 32],
        vault_key: [6; 32],
        name: [0; 32],
        discount: 100_000,
        liquidation_factor: 0,
        index: 0,
        decimals: 9,
    }
}

fn tokens() -> Vec<TokenPrice> {
    vec![TokenPrice { trade_token: trade_token(), price: ONE_USD_PRICE }]
}

fn user() -> User {
    User {
        next_order_id: 0,
        next_liquidation_id: 0,
        hold: 0,
        user_tokens: [UserToken::default(); 12],
        user_stakes: [UserStake::default(); 12],
        user_positions: [UserPosition::default(); 8],
        user_orders: [UserOrder::default(); 8],
        user_key: [2; 32],
        authority: [3; 32],
    }
}

fn state() -> State {
    State {
        admin: [0; 32],
        bump_signer: [0; 32],
        keeper_signer: [0; 32],
        bump_signer_nonce: 0,
        market_sequence: 0,
        pool_sequence: 0,
        trade_token_sequence: 0,
        minimum_order_margin_usd: 0,
        maximum_maintenance_margin_rate: 1_000,
        funding_fee_base_rate: 0,
        maximum_funding_base_rate: 0,
        minimum_precision_multiple: 0,
        pool_rewards_interval_limit: 0,
        init_fee: 0,
        trading_fee_usd_pool_rewards_ratio: 0,
        staking_fee_reward_ratio: 0,
        pool_fee_reward_ratio: 0,
    }
}

fn staker(shares: u128) -> User {
    let mut u = user();
    let i = u.add_user_stake(&POOL_KEY).unwrap();
    u.user_stakes[i].staked_share = shares;
    u
}

#[test]
fn pool_value_and_net_price() {
    let p = pool();
    let markets: Vec<PoolMarketInput> = vec![];
    // 2 000 tokens at 1 USD, at USD precision.
    assert_eq!(
        p.get_pool_usd_value(9, ONE_USD_PRICE, 6, ONE_USD_PRICE, &markets),
        Ok(2_000_000_000_000_000_000_000)
    );
    // 2 000 USD over 1 000 shares: 2 USD a share.
    assert_eq!(p.get_pool_net_price(9, ONE_USD_PRICE, 6, ONE_USD_PRICE, &markets), Ok(200_000_000));
    let mut wrong = p;
    wrong.market_number = 1;
    assert_eq!(
        wrong.get_pool_net_price(9, ONE_USD_PRICE, 6, ONE_USD_PRICE, &markets),
        Err(BumpErrorCode::MarketNumberNotEqual2Pool)
    );
}

#[test]
fn stake_quote_follows_net_price() {
    let mut p = pool();
    let markets: Vec<PoolMarketInput> = vec![];
    assert_eq!(quote_stake(&mut p, 100 * ONE_TOKEN, &tokens(), 6, ONE_USD_PRICE, &markets), Ok(50 * ONE_TOKEN));
    assert_eq!(p.total_supply, pool().total_supply);
    assert_eq!(p.balance.amount, pool().balance.amount);
    let mut empty = pool();
    empty.total_supply = 0;
    assert_eq!(quote_stake(&mut empty, 100 * ONE_TOKEN, &tokens(), 6, ONE_USD_PRICE, &markets), Ok(100 * ONE_TOKEN));
    assert_eq!(
        quote_stake(&mut p, 100 * ONE_TOKEN, &vec![], 6, ONE_USD_PRICE, &markets),
        Err(BumpErrorCode::TradeTokenNotFind)
    );
}

#[test]
fn un_stake_pays_tokens_and_takes_shares() {
    let p = pool();
    let markets: Vec<PoolMarketInput> = vec![];
    let mut u = staker(80 * ONE_TOKEN);
    assert_eq!(un_stake(&p, &mut u, 50 * ONE_TOKEN, &tokens(), 6, ONE_USD_PRICE, &markets), Ok(100 * ONE_TOKEN));
    assert_eq!(u.user_stakes[0].staked_share, 30 * ONE_TOKEN);
}

#[test]
fn un_stake_refusals() {
    let markets: Vec<PoolMarketInput> = vec![];
    let mut small = pool();
    small.config.minimum_un_stake_amount = 100_000_000_000_000_000_000;
    let mut u = staker(80 * ONE_TOKEN);
    assert_eq!(
        un_stake(&small, &mut u, 50 * ONE_TOKEN, &tokens(), 6, ONE_USD_PRICE, &markets),
        Err(BumpErrorCode::UnStakeTooSmall)
    );
    let mut held = pool();
    held.balance.hold_amount = 950 * ONE_TOKEN;
    assert_eq!(
        un_stake(&held, &mut u, 50 * ONE_TOKEN, &tokens(), 6, ONE_USD_PRICE, &markets),
        Err(BumpErrorCode::UnStakeWithAmountNotEnough)
    );
    assert_eq!(u.user_stakes[0].staked_share, 80 * ONE_TOKEN);
    let mut nobody = user();
    assert_eq!(
        un_stake(&pool(), &mut nobody, 50 * ONE_TOKEN, &tokens(), 6, ONE_USD_PRICE, &markets),
        Err(BumpErrorCode::CouldNotFindUserStake)
    );
    let mut few = staker(10 * ONE_TOKEN);
    assert_eq!(
        un_stake(&pool(), &mut few, 50 * ONE_TOKEN, &tokens(), 6, ONE_USD_PRICE, &markets),
        Err(BumpErrorCode::AmountNotEnough)
    );
    assert_eq!(few.user_stakes[0].staked_share, 10 * ONE_TOKEN);
}

#[test]
fn stake_opens_a_stake_and_charges_the_fee() {
    let mut p = pool();
    let mut u = user();
    assert_eq!(stake(&mut p, &mut u, &tokens(), 100 * ONE_TOKEN), Ok(99 * ONE_TOKEN));
    assert_eq!(p.fee_reward.fee_amount, ONE_TOKEN);
    let s = u.user_stakes[0];
    assert_eq!(s.pool_key, POOL_KEY);
    assert_eq!(s.user_stake_status, UserStakeStatus::USING);
    assert_eq!(s.staked_share, 0);
}

#[test]
fn stake_realises_rewards_of_an_existing_stake() {
    let mut p = pool();
    p.fee_reward.cumulative_rewards_per_stake_token = 2_000_000_000_000_000_000;
    let mut u = staker(10 * ONE_TOKEN);
    u.user_stakes[0].user_rewards.open_rewards_per_stake_token = 1_000_000_000_000_000_000;
    assert_eq!(stake(&mut p, &mut u, &tokens(), 100 * ONE_TOKEN), Ok(99 * ONE_TOKEN));
    assert_eq!(u.user_stakes[0].user_rewards.realised_rewards_token_amount, 10 * ONE_TOKEN);
    assert_eq!(u.user_stakes[0].user_rewards.open_rewards_per_stake_token, 2_000_000_000_000_000_000);
}

#[test]
fn stake_below_minimum_is_refused() {
    let mut p = pool();
    p.config.minimum_stake_amount = 1_000_000_000_000_000_000_000;
    let mut u = user();
    assert_eq!(stake(&mut p, &mut u, &tokens(), 100 * ONE_TOKEN), Err(BumpErrorCode::StakeToSmall));
    assert_eq!(u.user_stakes[0].user_stake_status, UserStakeStatus::INIT);
    assert_eq!(p.fee_reward.fee_amount, 0);
}

#[test]
fn portfolio_to_stake_moves_balance_into_shares() {
    let mut p = pool();
    let mut u = staker(0);
    let t = u.add_user_token(&MINT, &[4; 32]).unwrap();
    u.user_tokens[t].amount = 200 * ONE_TOKEN;
    let markets: Vec<PoolMarketInput> = vec![];
    let (shares, s) =
        portfolio_to_stake(&mut u, &mut p, 100 * ONE_TOKEN, &tokens(), 6, ONE_USD_PRICE, &markets, &state())
            .unwrap();
    assert_eq!(shares, 50 * ONE_TOKEN);
    assert_eq!(s.staked_share, 50 * ONE_TOKEN);
    assert_eq!(u.user_stakes[0].staked_share, 50 * ONE_TOKEN);
    assert_eq!(u.user_tokens[t].amount, 100 * ONE_TOKEN);
    assert_eq!(p.total_supply, pool().total_supply);
    assert_eq!(p.balance.amount, pool().balance.amount);
}

#[test]
fn portfolio_to_stake_needs_more_than_the_amount() {
    let mut p = pool();
    let mut u = staker(0);
    let t = u.add_user_token(&MINT, &[4; 32]).unwrap();
    u.user_tokens[t].amount = 100 * ONE_TOKEN;
    let before = u;
    let markets: Vec<PoolMarketInput> = vec![];
    assert_eq!(
        portfolio_to_stake(&mut u, &mut p, 100 * ONE_TOKEN, &tokens(), 6, ONE_USD_PRICE, &markets, &state())
            .err(),
        Some(BumpErrorCode::AmountNotEnough)
    );
    assert_eq!(u.user_tokens[t].amount, before.user_tokens[t].amount);
}

#[test]
fn staking_fees() {
    let mut p = pool();
    assert_eq!(charge_staking_fee(&mut p, 1_000), Ok(10));
    assert_eq!(collect_un_stake_fee(&mut p, 1_000), Ok(20));
    assert_eq!(p.fee_reward.fee_amount, 30);
}

#[test]
fn hold_then_release_restores_the_pool() {
    let mut p = pool();
    let markets: Vec<PoolMarketInput> = vec![];
    assert_eq!(p.hold_pool_amount(10 * ONE_TOKEN, &markets, 9, ONE_USD_PRICE, 100_000), Ok(()));
    assert_eq!(p.balance.hold_amount, 10 * ONE_TOKEN);
    assert_eq!(p.un_hold_pool(10 * ONE_TOKEN), Ok(()));
    assert_eq!(p.balance.hold_amount, 0);
    assert_eq!(p.balance.amount, pool().balance.amount);
    assert_eq!(
        p.hold_pool_amount(1_000 * ONE_TOKEN, &markets, 9, ONE_USD_PRICE, 100_000),
        Err(BumpErrorCode::PoolAvailableLiquidityNotEnough)
    );
    assert_eq!(p.un_hold_pool(1), Err(BumpErrorCode::SubHoldPoolBiggerThanHold));
}

#[test]
fn unsettled_amounts_settle_into_the_balance() {
    let mut p = pool();
    p.balance.un_settle_amount = 5 * ONE_TOKEN;
    assert_eq!(p.sub_unsettle(3 * ONE_TOKEN), Ok(()));
    assert_eq!(p.balance.un_settle_amount, 2 * ONE_TOKEN);
    assert_eq!(p.balance.amount, 2_003 * ONE_TOKEN);
    assert_eq!(p.sub_unsettle(3 * ONE_TOKEN), Err(BumpErrorCode::PoolSubUnsettleNotEnough));
}

#[test]
fn redeeming_fresh_shares_never_pays_more() {
    let markets: Vec<PoolMarketInput> = vec![];
    let mut p = pool();
    p.balance.amount = 3_000 * ONE_TOKEN + 7;
    p.total_supply = 1_000 * ONE_TOKEN + 3;
    let amount = 123 * ONE_TOKEN + 456;
    let shares = quote_stake(&mut p, amount, &tokens(), 6, ONE_USD_PRICE, &markets).unwrap();
    let mut u = staker(shares);
    let back = un_stake(&p, &mut u, shares, &tokens(), 6, ONE_USD_PRICE, &markets).unwrap();
    assert!(back <= amount);
    assert_eq!(u.user_stakes[0].staked_share, 0);
}

#[test]
fn reward_window_slides_with_each_collection() {
    let mut f = FeeReward::default();
    f.last_rewards_per_stake_token_deltas = [1, 2, 4];
    assert_eq!(f.get_rewards_delta_limit(), Ok(7));
    assert_eq!(f.push_last_rewards_per_stake_token_deltas(8), Ok(()));
    assert_eq!(f.last_rewards_per_stake_token_deltas, [8, 1, 2]);
    assert_eq!(f.get_rewards_delta_limit(), Ok(11));
    f.last_rewards_per_stake_token_deltas = [u128::MAX, 1, 0];
    assert_eq!(f.get_rewards_delta_limit(), Err(BumpErrorCode::MathError));
}

#[test]
fn fees_added_then_removed_come_back() {
    let mut f = FeeReward::default();
    f.fee_amount = 40;
    assert_eq!(f.add_fee_amount(15), Ok(()));
    assert_eq!(f.sub_fee_amount(15), Ok(()));
    assert_eq!(f.fee_amount, 40);
    // Removing more than there is leaves nothing.
    assert_eq!(f.sub_fee_amount(100), Ok(()));
    assert_eq!(f.fee_amount, 0);
}
