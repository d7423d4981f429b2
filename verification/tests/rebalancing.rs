use bumpin_trade::errors::BumpErrorCode;
use bumpin_trade::processor::position_processor::TokenTransfer;
use bumpin_trade::processor::re_balance_processor::{
    rebalance_pool_unsettle as rebalance_all_pools, rebalance_rewards, rebalance_stable_pool,
    stable_transfer_amount, VaultTransfer,
};
use bumpin_trade::processor::rebalance_processor::{
    rebalance_market_stable_loss, rebalance_pool_unsettle, StableLossSwap,
};
use bumpin_trade::state::infrastructure::fee_reward::FeeReward;
use bumpin_trade::state::infrastructure::market_funding_fee::MarketFundingFee;
use bumpin_trade::state::infrastructure::pool_borrowing_fee::BorrowingFee;
use bumpin_trade::state::lookup::TokenPrice;
use bumpin_trade::state::market::{Market, MarketConfig, MarketPosition, MarketStatus};
use bumpin_trade::state::pool::{Pool, PoolBalance, PoolConfig, PoolStatus};
use bumpin_trade::state::trade_token::TradeToken;

fn pool(key: u8, mint: u8, stable: bool) -> Pool {
    Pool {
        key: [key; 32],
        name: [0; 32],
        pnl: 0,
        apr: 0,
        insurance_fund_amount: 0,
        total_supply: 0,
        balance: PoolBalance { settle_funding_fee: 0, amount: 1_000, hold_amount: 0, un_settle_amount: 0, loss_amount: 0 },
        borrowing_fee: BorrowingFee {
            total_borrowing_fee: 0,
            total_realized_borrowing_fee: 0,
            cumulative_borrowing_fee_per_token: 0,
            updated_at: 0,
        },
        fee_reward: FeeReward::default(),
        config: PoolConfig {
            minimum_stake_amount: 0,
            minimum_un_stake_amount: 0,
            pool_liquidity_limit: 0,
            borrowing_interest_rate: 0,
            stake_fee_rate: 0,
            un_stake_fee_rate: 0,
            un_settle_mint_ratio_limit: 0,
        },
        pool_vault_key: [0; 32],
        stable_mint_key: [9; 32],
        mint_key: [mint; 32],
        index: 0,
        status: PoolStatus::NORMAL,
        stable,
        market_number: 0,
    }
}

fn trade_token(mint: u8, liability: u128, decimals: u16) -> TradeToken {
    TradeToken {
        total_liability: liability,
        total_amount: 0,
        mint_key: [mint; 32],
        oracle_key: [0; 32],
        vault_key: [0; 32],
        name: [0; 32],
        discount: 0,
        liquidation_factor: 0,
        index: 0,
        decimals,
    }
}

fn market(pool_key: u8, stable_pool_key: u8) -> Market {
    Market {
        symbol: [3; 32],
        long_open_interest: MarketPosition { open_interest: 0, entry_price: 0 },
        short_open_interest: MarketPosition { open_interest: 0, entry_price: 0 },
        funding_fee: MarketFundingFee {
            long_funding_fee_amount_per_size: 0,
            short_funding_fee_amount_per_size: 0,
            total_long_funding_fee: 0,
            total_short_funding_fee: 0,
            long_funding_fee_rate: 0,
            short_funding_fee_rate: 0,
            updated_at: 0,
        },
        config: MarketConfig {
            tick_size: 0,
            open_fee_rate: 0,
            close_fee_rate: 0,
            maximum_long_open_interest_cap: 0,
            maximum_short_open_interest_cap: 0,
            long_short_ratio_limit: 0,
            long_short_oi_bottom_limit: 0,
            maximum_leverage: 0,
            minimum_leverage: 0,
            max_pool_liquidity_share_rate: 0,
        },
        stable_loss: 0,
        pool_key: [pool_key; 32],
        pool_mint_key: [7; 32],
        index_mint_oracle: [0; 32],
        stable_pool_key: [stable_pool_key; 32],
        stable_pool_mint_key: [9; 32],
        stable_unsettle_loss: 0,
        index: 0,
        market_status: MarketStatus::NORMAL,
        share_short: true,
    }
}

#[test]
fn pool_unsettle_is_settled_from_the_token_vault() {
    let mut p = pool(1, 7, false);
    p.fee_reward.un_settle_fee_amount = 5;
    p.balance.un_settle_amount = 100;
    let mut markets: Vec<Market> = vec![];
    let r = rebalance_pool_unsettle(&mut p, &trade_token(7, 30, 9), &mut markets);
    assert_eq!(r, Ok((TokenTransfer::TokenVaultToPool(5), TokenTransfer::TokenVaultToPool(70))));
    assert_eq!(p.fee_reward.un_settle_fee_amount, 0);
    assert_eq!(p.fee_reward.fee_amount, 5);
    assert_eq!(p.balance.un_settle_amount, 30);
    // The settled amount enters the balance as it leaves the unsettled
    // amount, and once more.
    assert_eq!(p.balance.amount, 1_140);
}

#[test]
fn pool_unsettle_below_liability_is_refused() {
    let mut p = pool(1, 7, false);
    p.balance.un_settle_amount = 10;
    let mut markets: Vec<Market> = vec![];
    let r = rebalance_pool_unsettle(&mut p, &trade_token(7, 30, 9), &mut markets);
    assert_eq!(r, Err(BumpErrorCode::PoolUnsettleSmallThanTokenLiability));
    assert_eq!(p.balance.un_settle_amount, 10);
    assert_eq!(p.balance.amount, 1_000);
}

#[test]
fn stable_pool_settlement_clears_a_market_stable_loss() {
    let mut p = pool(2, 9, true);
    p.balance.un_settle_amount = 100;
    p.market_number = 2;
    let mut other = market(1, 2);
    other.stable_unsettle_loss = 0;
    let mut owing = market(1, 2);
    owing.stable_unsettle_loss = 70;
    let mut markets = vec![other, owing, market(4, 5)];
    let r = rebalance_pool_unsettle(&mut p, &trade_token(9, 30, 6), &mut markets);
    assert_eq!(r, Ok((TokenTransfer::NoTransfer, TokenTransfer::TokenVaultToPool(70))));
    assert_eq!(markets[1].stable_unsettle_loss, 0);
    let mut wrong = pool(2, 9, true);
    wrong.balance.un_settle_amount = 100;
    wrong.market_number = 2;
    let mut owing_less = market(1, 2);
    owing_less.stable_unsettle_loss = 50;
    let mut markets2 = vec![market(1, 2), owing_less];
    assert_eq!(
        rebalance_pool_unsettle(&mut wrong, &trade_token(9, 30, 6), &mut markets2),
        Err(BumpErrorCode::MathError)
    );
    assert_eq!(markets2[1].stable_unsettle_loss, 50);
    assert_eq!(wrong.balance.un_settle_amount, 100);
    let mut miscounted = pool(2, 9, true);
    miscounted.balance.un_settle_amount = 100;
    miscounted.market_number = 1;
    let mut markets3 = vec![market(1, 2), market(2, 3)];
    assert_eq!(
        rebalance_pool_unsettle(&mut miscounted, &trade_token(9, 30, 6), &mut markets3),
        Err(BumpErrorCode::MarketNumberNotEqual2Pool)
    );
}

#[test]
fn market_stable_loss_is_swapped_with_the_keeper() {
    let token = TokenPrice { trade_token: trade_token(7, 0, 9), price: 200_000_000 };
    let stable = TokenPrice { trade_token: trade_token(9, 0, 6), price: 100_000_000 };
    let mut m = market(1, 2);
    m.stable_loss = 100;
    let mut p = pool(1, 7, false);
    p.balance.amount = 100_000;
    // 100 units of a 6-decimal token at 1 USD are worth 50 000 units of a
    // 9-decimal token at 2 USD.
    assert_eq!(
        rebalance_market_stable_loss(&mut m, &mut p, &token, &stable),
        Ok(StableLossSwap::KeeperBuysStable { pool_tokens: 50_000, stable_tokens: 100 })
    );
    assert_eq!(m.stable_loss, 200);
    assert_eq!(p.balance.amount, 150_000);
    m.stable_loss = -100;
    assert_eq!(
        rebalance_market_stable_loss(&mut m, &mut p, &token, &stable),
        Ok(StableLossSwap::KeeperSellsStable { pool_tokens: 50_000, stable_tokens: 100 })
    );
    assert_eq!(m.stable_loss, 0);
    assert_eq!(p.balance.amount, 100_000);
    assert_eq!(
        rebalance_market_stable_loss(&mut m, &mut p, &token, &stable),
        Err(BumpErrorCode::RebalanceMarketStableLossIgnore)
    );
    m.stable_loss = -10_000;
    p.balance.amount = 1;
    assert_eq!(
        rebalance_market_stable_loss(&mut m, &mut p, &token, &stable),
        Err(BumpErrorCode::SubPoolAmountBiggerThanAmount)
    );
    assert_eq!(m.stable_loss, -10_000);
}

#[test]
fn rewards_of_every_pool_are_settled() {
    let mut a = pool(1, 7, false);
    a.fee_reward.un_settle_fee_amount = 5;
    let b = pool(2, 7, false);
    let mut c = pool(3, 8, false);
    c.fee_reward.un_settle_fee_amount = 9;
    let mut pools = vec![a, b, c];
    let tokens = vec![trade_token(7, 0, 9), trade_token(8, 0, 9)];
    let paid = rebalance_rewards(&mut pools, &tokens).unwrap();
    assert_eq!(
        paid,
        vec![VaultTransfer { pool_index: 0, amount: 5 }, VaultTransfer { pool_index: 2, amount: 9 }]
    );
    let total: u128 = paid.iter().map(|t| t.amount).sum();
    assert_eq!(total, 14);
    assert!(pools.iter().all(|p| p.fee_reward.un_settle_fee_amount == 0));
}

#[test]
fn unsettled_totals_are_paid_pool_by_pool() {
    let mut a = pool(1, 7, false);
    a.balance.un_settle_amount = 40;
    let mut b = pool(2, 7, false);
    b.balance.un_settle_amount = 60;
    let mut s = pool(3, 9, true);
    s.balance.un_settle_amount = 50;
    s.fee_reward.un_settle_fee_amount = 4;
    let mut pools = vec![a, b, s];
    let tokens = vec![trade_token(7, 30, 9), trade_token(9, 20, 6)];
    let paid = rebalance_all_pools(&mut pools, &tokens);
    assert_eq!(
        paid,
        Ok(vec![
            VaultTransfer { pool_index: 2, amount: 4 },
            VaultTransfer { pool_index: 0, amount: 40 },
            VaultTransfer { pool_index: 1, amount: 30 },
            VaultTransfer { pool_index: 2, amount: 30 },
        ])
    );
    assert_eq!(pools[0].balance.un_settle_amount, 0);
    assert_eq!(pools[0].balance.amount, 1_040);
    assert_eq!(pools[1].balance.un_settle_amount, 30);
    assert_eq!(pools[1].balance.amount, 1_030);
    assert_eq!(pools[2].balance.un_settle_amount, 20);
    assert_eq!(pools[2].balance.amount, 1_030);
    assert_eq!(pools[2].fee_reward.un_settle_fee_amount, 0);
}

#[test]
fn stable_pool_without_its_token_is_refused() {
    let mut s = pool(3, 9, true);
    s.balance.un_settle_amount = 50;
    let mut pools = vec![s];
    assert_eq!(rebalance_all_pools(&mut pools, &vec![]), Err(BumpErrorCode::TradeTokenNotFind));
    assert_eq!(pools[0].balance.un_settle_amount, 50);
}

fn stable_balance(amount: u128, loss_amount: u128) -> PoolBalance {
    PoolBalance { settle_funding_fee: 0, amount, hold_amount: 0, un_settle_amount: 0, loss_amount }
}

#[test]
fn a_covered_stable_loss_is_settled_and_the_swap_counts_as_profit() {
    let mut p = pool(1, 7, false);
    p.balance.loss_amount = 100;
    let stable = stable_balance(500, 100);
    assert_eq!(stable_transfer_amount(&stable), 400);
    assert_eq!(rebalance_stable_pool(&mut p, &stable, 50), Ok(()));
    assert_eq!(p.balance.amount, 950);
    assert_eq!(p.balance.loss_amount, 0);
    assert_eq!(p.pnl, 50);
}

#[test]
fn an_uncovered_stable_loss_takes_the_swap_as_a_loss() {
    let mut p = pool(1, 7, false);
    p.balance.loss_amount = 300;
    let stable = stable_balance(200, 300);
    assert_eq!(stable_transfer_amount(&stable), 100);
    assert_eq!(rebalance_stable_pool(&mut p, &stable, 30), Ok(()));
    assert_eq!(p.balance.amount, 770);
    assert_eq!(p.balance.loss_amount, 100);
    assert_eq!(p.pnl, -30);
}

#[test]
fn a_stable_settlement_beyond_the_pool_is_refused() {
    let mut p = pool(1, 7, false);
    let stable = stable_balance(500, 100);
    // The pool records no loss to take the stable loss from.
    assert_eq!(rebalance_stable_pool(&mut p, &stable, 50), Err(BumpErrorCode::MathError));
    assert_eq!(p.balance.amount, 1_000);
    assert_eq!(p.pnl, 0);
    // More stable balance than the pool holds.
    let mut q = pool(1, 7, false);
    q.balance.loss_amount = 5_000;
    let big = stable_balance(2_000, 5_000);
    assert_eq!(rebalance_stable_pool(&mut q, &big, 0), Err(BumpErrorCode::SubPoolAmountBiggerThanAmount));
    assert_eq!(q.balance.loss_amount, 5_000);
}

#[test]
fn unsettled_fees_need_the_pool_token() {
    let mut a = pool(1, 7, false);
    a.fee_reward.un_settle_fee_amount = 5;
    let mut c = pool(3, 8, false);
    c.fee_reward.un_settle_fee_amount = 9;
    let mut pools = vec![a, c];
    // No trade token of mint 8.
    let tokens = vec![trade_token(7, 0, 9)];
    assert_eq!(rebalance_rewards(&mut pools, &tokens), Err(BumpErrorCode::TradeTokenNotFind));
    assert_eq!(pools[0].fee_reward.un_settle_fee_amount, 5);
    assert_eq!(rebalance_all_pools(&mut pools, &tokens), Err(BumpErrorCode::TradeTokenNotFind));
    assert_eq!(pools[0].fee_reward.un_settle_fee_amount, 5);
    assert_eq!(pools[1].fee_reward.un_settle_fee_amount, 9);
    // A pool with no unsettled fee needs no token for them.
    let mut b = pool(2, 8, false);
    b.fee_reward.un_settle_fee_amount = 0;
    let mut only = vec![b];
    assert_eq!(rebalance_rewards(&mut only, &vec![]), Ok(vec![]));
}

#[test]
fn the_first_failing_pool_decides_the_error() {
    // The running total of mint 7 overflows at the second pool, before the
    // third pool's missing token is reached.
    let mut a = pool(1, 7, false);
    a.balance.un_settle_amount = u128::MAX;
    let mut b = pool(2, 7, false);
    b.balance.un_settle_amount = 1;
    let mut c = pool(3, 8, false);
    c.fee_reward.un_settle_fee_amount = 9;
    let mut pools = vec![a, b, c];
    assert_eq!(rebalance_all_pools(&mut pools, &vec![trade_token(7, 0, 9)]), Err(BumpErrorCode::MathError));
    // With the pool of the missing token first, that error comes first.
    let mut pools = vec![c, a, b];
    assert_eq!(
        rebalance_all_pools(&mut pools, &vec![trade_token(7, 0, 9)]),
        Err(BumpErrorCode::TradeTokenNotFind)
    );
    assert_eq!(pools[0].fee_reward.un_settle_fee_amount, 9);
}
