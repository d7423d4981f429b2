//! A user's stake in a pool.
use vstd::prelude::*;

use crate::errors::{BumpErrorCode, BumpResult};
use crate::math::{fits_u, safe_add_u, safe_sub_u};
use crate::pubkey::{zero_key, zero_pubkey, Pubkey};

verus! {

/// A user's stake in a pool.
#[derive(Clone, Copy, Debug)]
pub struct UserStake {
    /// Pool shares held.
    pub staked_share: u128,
    /// Rewards earned from staking.
    pub user_rewards: UserRewards,
    /// The pool staked in.
    pub pool_key: Pubkey,
    pub user_stake_status: UserStakeStatus,
}

/// Whether a stake slot is free or in use.
#[derive(Clone, Copy, Debug, PartialEq, Eq, Structural)]
pub enum UserStakeStatus {
    INIT,
    USING,
}

/// Rewards earned by a stake.
#[derive(Clone, Copy, Debug)]
pub struct UserRewards {
    pub total_claim_rewards_amount: u128,
    pub realised_rewards_token_amount: u128,
    /// The pool's rewards cursor when the rewards were last realised.
    pub open_rewards_per_stake_token: u128,
    pub token_key: Pubkey,
}

impl Default for UserStakeStatus {
    fn default() -> (r: Self)
        ensures
            r == UserStakeStatus::INIT,
    {
        UserStakeStatus::INIT
    }
}

impl Default for UserRewards {
    fn default() -> (r: Self)
        ensures
            r.total_claim_rewards_amount == 0,
            r.realised_rewards_token_amount == 0,
            r.open_rewards_per_stake_token == 0,
            r.token_key@ == zero_key(),
    {
        UserRewards {
            total_claim_rewards_amount: 0,
            realised_rewards_token_amount: 0,
            open_rewards_per_stake_token: 0,
            token_key: zero_pubkey(),
        }
    }
}

/// The empty stake: no shares, no rewards, slot free.
pub open spec fn is_empty_stake(s: UserStake) -> bool {
    &&& s.staked_share == 0
    &&& s.user_rewards.total_claim_rewards_amount == 0
    &&& s.user_rewards.realised_rewards_token_amount == 0
    &&& s.user_rewards.open_rewards_per_stake_token == 0
    &&& s.user_rewards.token_key@ == zero_key()
    &&& s.pool_key@ == zero_key()
    &&& s.user_stake_status == UserStakeStatus::INIT
}

impl Default for UserStake {
    fn default() -> (r: Self)
        ensures
            is_empty_stake(r),
    {
        UserStake {
            staked_share: 0,
            user_rewards: UserRewards::default(),
            pool_key: zero_pubkey(),
            user_stake_status: UserStakeStatus::INIT,
        }
    }
}

impl UserStake {
    /// Adds pool shares.
    pub fn add_staked_share(&mut self, stake_amount: u128) -> (r: BumpResult)
        ensures
            fits_u(old(self).staked_share + stake_amount) ==> r == Ok::<(), BumpErrorCode>(())
                && *final(self) == (UserStake {
                staked_share: (old(self).staked_share + stake_amount) as u128,
                ..*old(self)
            }),
            !fits_u(old(self).staked_share + stake_amount) ==> r == Err::<(), BumpErrorCode>(
                BumpErrorCode::MathError,
            ) && *final(self) == *old(self),
    {
        self.staked_share = safe_add_u(self.staked_share, stake_amount)?;
        Ok(())
    }

    /// Removes pool shares; refuses more than are held.
    pub fn sub_staked_share(&mut self, stake_amount: u128) -> (r: BumpResult)
        ensures
            old(self).staked_share >= stake_amount ==> r == Ok::<(), BumpErrorCode>(()) && *final(self) == (UserStake {
                staked_share: (old(self).staked_share - stake_amount) as u128,
                ..*old(self)
            }),
            old(self).staked_share < stake_amount ==> r == Err::<(), BumpErrorCode>(
                BumpErrorCode::AmountNotEnough,
            ) && *final(self) == *old(self),
    {
        if self.staked_share < stake_amount {
            return Err(BumpErrorCode::AmountNotEnough);
        }
        self.staked_share = safe_sub_u(self.staked_share, stake_amount)?;
        Ok(())
    }

    /// Adds realised rewards.
    pub fn add_user_rewards(&mut self, rewards: u128) -> (r: BumpResult)
        ensures
            fits_u(old(self).user_rewards.realised_rewards_token_amount + rewards) ==> r == Ok::<
                (),
                BumpErrorCode,
            >(()) && *final(self) == (UserStake {
                user_rewards: UserRewards {
                    realised_rewards_token_amount: (old(self).user_rewards.realised_rewards_token_amount + rewards) as u128,
                    ..old(self).user_rewards
                },
                ..*old(self)
            }),
            !fits_u(old(self).user_rewards.realised_rewards_token_amount + rewards) ==> r == Err::<
                (),
                BumpErrorCode,
            >(BumpErrorCode::MathError) && *final(self) == *old(self),
    {
        self.user_rewards.realised_rewards_token_amount = safe_add_u(
            self.user_rewards.realised_rewards_token_amount,
            rewards,
        )?;
        Ok(())
    }
}

} // verus!
