//! Rewards set aside for the DAO.
use vstd::prelude::*;

use crate::pubkey::Pubkey;

verus! {

/// Rewards set aside for the DAO from a pool.
#[derive(Clone, Copy, Debug)]
pub struct DaoRewards {
    pub pool_index: u16,
    pub dao_rewards_vault: Pubkey,
    pub un_claim_amount: u128,
    pub total_rewards_amount: u128,
}

} // verus!
