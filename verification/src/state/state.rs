//! Global configuration of the exchange.
use vstd::prelude::*;

use crate::pubkey::Pubkey;

verus! {

/// Global configuration: authorities, sequences and the exchange-wide
/// trading parameters.
#[derive(Clone, Copy, Debug)]
pub struct State {
    pub admin: Pubkey,
    pub bump_signer: Pubkey,
    pub keeper_signer: Pubkey,
    pub bump_signer_nonce: u8,
    pub market_sequence: u16,
    pub pool_sequence: u16,
    pub trade_token_sequence: u16,
    /// Smallest accepted order margin (USD).
    pub minimum_order_margin_usd: u128,
    /// Cap of the maintenance margin rate (rate precision).
    pub maximum_maintenance_margin_rate: u32,
    /// Funding rate per second at full long/short imbalance.
    pub funding_fee_base_rate: u128,
    /// Cap of the funding rate per second received by the paid side.
    pub maximum_funding_base_rate: u128,
    pub minimum_precision_multiple: u128,
    pub pool_rewards_interval_limit: u128,
    pub init_fee: u64,
    pub trading_fee_usd_pool_rewards_ratio: u32,
    pub staking_fee_reward_ratio: u32,
    pub pool_fee_reward_ratio: u32,
}

} // verus!
