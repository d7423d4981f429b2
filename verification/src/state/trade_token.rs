//! Tokens accepted as margin and pool collateral.
use vstd::prelude::*;

use crate::errors::{BumpErrorCode, BumpResult};
use crate::math::{safe_add_u, safe_sub_u};
use crate::pubkey::Pubkey;

verus! {

/// A token that can be deposited, used as margin or held by pools.
#[derive(Clone, Copy, Debug)]
pub struct TradeToken {
    pub total_liability: u128,
    pub total_amount: u128,
    pub mint_key: Pubkey,
    pub oracle_key: Pubkey,
    pub vault_key: Pubkey,
    pub name: [u8; 32],
    /// Share of the value counted as collateral (rate precision).
    pub discount: u32,
    /// Extra weight of borrowed value (rate precision).
    pub liquidation_factor: u32,
    pub index: u16,
    pub decimals: u16,
}

impl TradeToken {
    /// Adds to the total deposited amount.
    pub fn add_amount(&mut self, amount: u128) -> (r: BumpResult)
        ensures
            old(self).total_amount + amount <= u128::MAX ==> r == Ok::<(), BumpErrorCode>(())
                && *final(self) == (TradeToken {
                total_amount: (old(self).total_amount + amount) as u128,
                ..*old(self)
            }),
            old(self).total_amount + amount > u128::MAX ==> r == Err::<(), BumpErrorCode>(
                BumpErrorCode::MathError,
            ) && *final(self) == *old(self),
    {
        self.total_amount = safe_add_u(self.total_amount, amount)?;
        Ok(())
    }

    /// Removes from the total deposited amount.
    pub fn sub_amount(&mut self, amount: u128) -> (r: BumpResult)
        ensures
            old(self).total_amount >= amount ==> r == Ok::<(), BumpErrorCode>(()) && *final(self)
                == (TradeToken { total_amount: (old(self).total_amount - amount) as u128, ..*old(self) }),
            old(self).total_amount < amount ==> r == Err::<(), BumpErrorCode>(
                BumpErrorCode::MathError,
            ) && *final(self) == *old(self),
    {
        self.total_amount = safe_sub_u(self.total_amount, amount)?;
        Ok(())
    }

    /// Records a new liability. The result is written to `total_amount`
    /// (as `total_liability + amount`); `total_liability` is left as it is.
    pub fn add_liability(&mut self, amount: u128) -> (r: BumpResult)
        ensures
            old(self).total_liability + amount <= u128::MAX ==> r == Ok::<(), BumpErrorCode>(())
                && *final(self) == (TradeToken {
                total_amount: (old(self).total_liability + amount) as u128,
                ..*old(self)
            }),
            old(self).total_liability + amount > u128::MAX ==> r == Err::<(), BumpErrorCode>(
                BumpErrorCode::MathError,
            ) && *final(self) == *old(self),
    {
        self.total_amount = safe_add_u(self.total_liability, amount)?;
        Ok(())
    }

    /// Repays a liability. The result is written to `total_amount`
    /// (as `total_liability - amount`); `total_liability` is left as it is.
    pub fn sub_liability(&mut self, amount: u128) -> (r: BumpResult)
        ensures
            old(self).total_liability >= amount ==> r == Ok::<(), BumpErrorCode>(()) && *final(self)
                == (TradeToken {
                total_amount: (old(self).total_liability - amount) as u128,
                ..*old(self)
            }),
            old(self).total_liability < amount ==> r == Err::<(), BumpErrorCode>(
                BumpErrorCode::MathError,
            ) && *final(self) == *old(self),
    {
        self.total_amount = safe_sub_u(self.total_liability, amount)?;
        Ok(())
    }
}

} // verus!
