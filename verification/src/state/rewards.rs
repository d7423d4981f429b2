//! Rewards accumulated for a pool's stakers and for the DAO.
use vstd::prelude::*;

use crate::errors::{BumpErrorCode, BumpResult};
use crate::math::{fits_u, safe_add_u, safe_sub_u};
use crate::pubkey::Pubkey;

verus! {

/// Rewards of a pool: unclaimed and total for stakers, total for the DAO.
#[derive(Clone, Copy, Debug)]
pub struct Rewards {
    pub pool_un_claim_amount: u128,
    pub pool_total_rewards_amount: u128,
    pub pool_rewards_vault: Pubkey,
    pub dao_rewards_vault: Pubkey,
    pub dao_total_rewards_amount: u128,
    pub pool_index: u16,
}

impl Rewards {
    /// Adds rewards that stakers have not claimed yet.
    pub fn add_pool_un_claim_rewards(&mut self, amount: u128) -> (r: BumpResult)
        ensures
            fits_u(old(self).pool_un_claim_amount + amount) ==> r == Ok::<(), BumpErrorCode>(())
                && *final(self) == (Rewards {
                pool_un_claim_amount: (old(self).pool_un_claim_amount + amount) as u128,
                ..*old(self)
            }),
            !fits_u(old(self).pool_un_claim_amount + amount) ==> r == Err::<(), BumpErrorCode>(
                BumpErrorCode::MathError,
            ) && *final(self) == *old(self),
    {
        self.pool_un_claim_amount = safe_add_u(self.pool_un_claim_amount, amount)?;
        Ok(())
    }

    /// Removes claimed rewards, bottoming out at zero.
    pub fn sub_pool_un_claim_rewards(&mut self, amount: u128) -> (r: BumpResult)
        ensures
            r == Ok::<(), BumpErrorCode>(()),
            *final(self) == (Rewards {
                pool_un_claim_amount: (if amount >= old(self).pool_un_claim_amount {
                    0
                } else {
                    old(self).pool_un_claim_amount - amount
                }) as u128,
                ..*old(self)
            }),
    {
        if amount >= self.pool_un_claim_amount {
            self.pool_un_claim_amount = 0u128;
        } else {
            self.pool_un_claim_amount = safe_sub_u(self.pool_un_claim_amount, amount)?;
        }
        Ok(())
    }

    /// Adds to the stakers' total rewards.
    pub fn add_pool_total_rewards_amount(&mut self, amount: u128) -> (r: BumpResult)
        ensures
            fits_u(old(self).pool_total_rewards_amount + amount) ==> r == Ok::<(), BumpErrorCode>(
                (),
            ) && *final(self) == (Rewards {
                pool_total_rewards_amount: (old(self).pool_total_rewards_amount + amount) as u128,
                ..*old(self)
            }),
            !fits_u(old(self).pool_total_rewards_amount + amount) ==> r == Err::<
                (),
                BumpErrorCode,
            >(BumpErrorCode::MathError) && *final(self) == *old(self),
    {
        self.pool_total_rewards_amount = safe_add_u(self.pool_total_rewards_amount, amount)?;
        Ok(())
    }

    /// Adds to the DAO's total rewards.
    pub fn add_dao_total_rewards_amount(&mut self, amount: u128) -> (r: BumpResult)
        ensures
            fits_u(old(self).dao_total_rewards_amount + amount) ==> r == Ok::<(), BumpErrorCode>(())
                && *final(self) == (Rewards {
                dao_total_rewards_amount: (old(self).dao_total_rewards_amount + amount) as u128,
                ..*old(self)
            }),
            !fits_u(old(self).dao_total_rewards_amount + amount) ==> r == Err::<(), BumpErrorCode>(
                BumpErrorCode::MathError,
            ) && *final(self) == *old(self),
    {
        self.dao_total_rewards_amount = safe_add_u(self.dao_total_rewards_amount, amount)?;
        Ok(())
    }
}

} // verus!
