//! Fee accounting of a pool and the staking-reward cursor.
use vstd::prelude::*;

use crate::errors::{BumpErrorCode, BumpResult};
use crate::math::{ck_u, res_u, safe_add_u, safe_sub_u};

verus! {

/// Fees collected by a pool and the cursor of rewards per stake share.
#[derive(Clone, Copy, Debug)]
pub struct FeeReward {
    /// Fees generated from staking, redeeming and isolated-margin position
    /// operations (transferred each time they are generated).
    pub fee_amount: u128,
    /// Fees generated from cross-margin position operations, not yet settled.
    pub un_settle_fee_amount: u128,
    /// How many tokens each stake share can receive; grows with every keeper
    /// collection.
    pub cumulative_rewards_per_stake_token: u128,
    /// Deltas of the last three keeper collections, newest first.
    pub last_rewards_per_stake_token_deltas: [u128; 3],
}

impl Default for FeeReward {
    fn default() -> (r: Self)
        ensures
            r.fee_amount == 0,
            r.un_settle_fee_amount == 0,
            r.cumulative_rewards_per_stake_token == 0,
            r.last_rewards_per_stake_token_deltas@ == seq![0u128, 0u128, 0u128],
    {
        let r = FeeReward {
            fee_amount: 0,
            un_settle_fee_amount: 0,
            cumulative_rewards_per_stake_token: 0,
            last_rewards_per_stake_token_deltas: [0, 0, 0],
        };
        assert(r.last_rewards_per_stake_token_deltas@ =~= seq![0u128, 0u128, 0u128]);
        r
    }
}

/// Sum of the recorded deltas of the last three collections.
pub open spec fn delta_window_sum(f: FeeReward) -> int {
    f.last_rewards_per_stake_token_deltas@[0] + f.last_rewards_per_stake_token_deltas@[1]
        + f.last_rewards_per_stake_token_deltas@[2]
}

impl FeeReward {
    /// Sum of the last three recorded deltas.
    pub fn get_rewards_delta_limit(&self) -> (r: BumpResult<u128>)
        ensures
            r == res_u(ck_u(delta_window_sum(*self))),
    {
        let mut delta_limit: u128 = 0;
        let mut i: usize = 0;
        while i < 3
            invariant
                i <= 3,
                self.last_rewards_per_stake_token_deltas@.len() == 3,
                delta_limit as int == (if i == 0 {
                    0
                } else if i == 1 {
                    self.last_rewards_per_stake_token_deltas@[0] as int
                } else if i == 2 {
                    self.last_rewards_per_stake_token_deltas@[0]
                        + self.last_rewards_per_stake_token_deltas@[1]
                } else {
                    delta_window_sum(*self)
                }),
            decreases 3 - i,
        {
            delta_limit = safe_add_u(delta_limit, self.last_rewards_per_stake_token_deltas[i])?;
            i = i + 1;
        }
        Ok(delta_limit)
    }

    /// Records collected fees.
    pub fn add_fee_amount(&mut self, amount: u128) -> (r: BumpResult)
        ensures
            old(self).fee_amount + amount <= u128::MAX ==> r == Ok::<(), BumpErrorCode>(())
                && *final(self) == (FeeReward {
                fee_amount: (old(self).fee_amount + amount) as u128,
                ..*old(self)
            }),
            old(self).fee_amount + amount > u128::MAX ==> r == Err::<(), BumpErrorCode>(
                BumpErrorCode::MathError,
            ) && *final(self) == *old(self),
    {
        self.fee_amount = safe_add_u(self.fee_amount, amount)?;
        Ok(())
    }

    /// Removes fees, bottoming out at zero.
    pub fn sub_fee_amount(&mut self, amount: u128) -> (r: BumpResult)
        ensures
            r == Ok::<(), BumpErrorCode>(()),
            *final(self) == (FeeReward {
                fee_amount: (if amount >= old(self).fee_amount {
                    0
                } else {
                    old(self).fee_amount - amount
                }) as u128,
                ..*old(self)
            }),
    {
        if amount >= self.fee_amount {
            self.fee_amount = 0;
        } else {
            self.fee_amount = safe_sub_u(self.fee_amount, amount)?;
        }
        Ok(())
    }

    /// Records fees of cross-margin operations that are still to be settled.
    pub fn add_un_settle_amount(&mut self, amount: u128) -> (r: BumpResult)
        ensures
            old(self).un_settle_fee_amount + amount <= u128::MAX ==> r == Ok::<(), BumpErrorCode>(
                (),
            ) && *final(self) == (FeeReward {
                un_settle_fee_amount: (old(self).un_settle_fee_amount + amount) as u128,
                ..*old(self)
            }),
            old(self).un_settle_fee_amount + amount > u128::MAX ==> r == Err::<(), BumpErrorCode>(
                BumpErrorCode::MathError,
            ) && *final(self) == *old(self),
    {
        self.un_settle_fee_amount = safe_add_u(self.un_settle_fee_amount, amount)?;
        Ok(())
    }

    /// Settles part of the unsettled fees; refuses more than is unsettled.
    pub fn sub_un_settle_amount(&mut self, amount: u128) -> (r: BumpResult)
        ensures
            old(self).un_settle_fee_amount >= amount ==> r == Ok::<(), BumpErrorCode>(())
                && *final(self) == (FeeReward {
                un_settle_fee_amount: (old(self).un_settle_fee_amount - amount) as u128,
                ..*old(self)
            }),
            old(self).un_settle_fee_amount < amount ==> r == Err::<(), BumpErrorCode>(
                BumpErrorCode::AmountNotEnough,
            ) && *final(self) == *old(self),
    {
        if self.un_settle_fee_amount < amount {
            return Err(BumpErrorCode::AmountNotEnough);
        }
        self.un_settle_fee_amount = safe_sub_u(self.un_settle_fee_amount, amount)?;
        Ok(())
    }

    /// Advances the rewards cursor.
    pub fn add_cumulative_rewards_per_stake_token(&mut self, amount: u128) -> (r: BumpResult)
        ensures
            old(self).cumulative_rewards_per_stake_token + amount <= u128::MAX ==> r == Ok::<
                (),
                BumpErrorCode,
            >(()) && *final(self) == (FeeReward {
                cumulative_rewards_per_stake_token: (old(self).cumulative_rewards_per_stake_token
                    + amount) as u128,
                ..*old(self)
            }),
            old(self).cumulative_rewards_per_stake_token + amount > u128::MAX ==> r == Err::<
                (),
                BumpErrorCode,
            >(BumpErrorCode::MathError) && *final(self) == *old(self),
    {
        self.cumulative_rewards_per_stake_token = safe_add_u(
            self.cumulative_rewards_per_stake_token,
            amount,
        )?;
        Ok(())
    }

    /// Records the delta of a new collection: the older deltas move one
    /// place back and the oldest leaves the window.
    pub fn push_last_rewards_per_stake_token_deltas(&mut self, delta: u128) -> (r: BumpResult)
        ensures
            r == Ok::<(), BumpErrorCode>(()),
            final(self).last_rewards_per_stake_token_deltas@ == seq![
                delta,
                old(self).last_rewards_per_stake_token_deltas@[0],
                old(self).last_rewards_per_stake_token_deltas@[1],
            ],
            final(self).fee_amount == old(self).fee_amount,
            final(self).un_settle_fee_amount == old(self).un_settle_fee_amount,
            final(self).cumulative_rewards_per_stake_token == old(self).cumulative_rewards_per_stake_token,
    {
        let ghost before = self.last_rewards_per_stake_token_deltas@;
        let mut i: usize = 2;
        while i > 0
            invariant
                i <= 2,
                self.last_rewards_per_stake_token_deltas@.len() == 3,
                forall|j: int|
                    0 <= j <= i ==> self.last_rewards_per_stake_token_deltas@[j] == before[j],
                forall|j: int|
                    i < j < 3 ==> self.last_rewards_per_stake_token_deltas@[j] == before[j - 1],
                self.fee_amount == old(self).fee_amount,
                self.un_settle_fee_amount == old(self).un_settle_fee_amount,
                self.cumulative_rewards_per_stake_token == old(self).cumulative_rewards_per_stake_token,
                before == old(self).last_rewards_per_stake_token_deltas@,
            decreases i,
        {
            self.last_rewards_per_stake_token_deltas[i] =
            self.last_rewards_per_stake_token_deltas[i - 1];
            i = i - 1;
        }
        self.last_rewards_per_stake_token_deltas[0] = delta;
        assert(self.last_rewards_per_stake_token_deltas@ =~= seq![delta, before[0], before[1]]);
        Ok(())
    }
}

/// Recording a collection slides the window: the limit gains the new delta
/// and loses the oldest one.
pub proof fn lemma_push_slides_window(before: FeeReward, after: FeeReward, delta: u128)
    requires
        after.last_rewards_per_stake_token_deltas@ == seq![
            delta,
            before.last_rewards_per_stake_token_deltas@[0],
            before.last_rewards_per_stake_token_deltas@[1],
        ],
    ensures
        delta_window_sum(after) == delta_window_sum(before) + delta
            - before.last_rewards_per_stake_token_deltas@[2],
{
}

/// Adding fees and then removing the same amount gives back the fee amount
/// that was there before.
pub proof fn lemma_fee_add_then_sub_restores(fee_amount: u128, amount: u128)
    requires
        fee_amount + amount <= u128::MAX,
    ensures
        ({
            let added = (fee_amount + amount) as u128;
            (if amount >= added {
                0
            } else {
                added - amount
            }) == fee_amount
        }),
{
}

} // verus!
