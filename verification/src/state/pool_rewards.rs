//! Rewards set aside for a pool's stakers.
use vstd::prelude::*;

use crate::pubkey::Pubkey;

verus! {

/// Rewards set aside for a pool's stakers.
#[derive(Clone, Copy, Debug)]
pub struct PoolRewards {
    pub un_claim_amount: u128,
    pub total_rewards_amount: u128,
    pub pool_rewards_vault: Pubkey,
    pub pool_index: u16,
}

} // verus!
