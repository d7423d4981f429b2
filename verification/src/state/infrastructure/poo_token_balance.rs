//! Balance of one token held by a pool, with what may be lent from it.
use vstd::prelude::*;

use crate::errors::{BumpErrorCode, BumpResult};
use crate::math::{ck_u, fits_u, safe_add_u, safe_mul_u, safe_sub_u};
use crate::pubkey::Pubkey;
use crate::state::pool::PoolConfig;

verus! {

/// Balance of one token held by a pool.
#[derive(Clone, Copy, Debug)]
pub struct PoolTokenBalance {
    pub mint_key: Pubkey,
    pub amount: u128,
    pub liability: u128,
    pub hold_amount: u128,
    pub un_settle_amount: u128,
    pub loss_amount: u128,
}

/// `amount` more can be held: within what is not held yet when there is no
/// liquidity limit, within `(amount + unsettled) * limit` otherwise.
pub open spec fn token_hold_allowed_spec(b: PoolTokenBalance, limit: int, amount: int) -> Option<bool> {
    match ck_u(b.amount + b.un_settle_amount) {
        Some(total) => if limit == 0 {
            match ck_u(total - b.hold_amount) {
                Some(free) => Some(free >= amount),
                None => None,
            }
        } else {
            match ck_u(total * limit) {
                Some(cap) => Some(cap >= amount),
                None => None,
            }
        },
        None => None,
    }
}

impl PoolTokenBalance {
    /// Holds `amount` when allowed (see `token_hold_allowed_spec`).
    pub fn hold_pool(&mut self, pool_config: PoolConfig, amount: u128) -> (r: BumpResult)
        ensures
            token_hold_allowed_spec(*old(self), pool_config.pool_liquidity_limit as int, amount as int)
                is None ==> r == Err::<(), BumpErrorCode>(BumpErrorCode::MathError) && *final(self)
                == *old(self),
            token_hold_allowed_spec(*old(self), pool_config.pool_liquidity_limit as int, amount as int)
                == Some(false) ==> r == Err::<(), BumpErrorCode>(BumpErrorCode::AmountNotEnough)
                && *final(self) == *old(self),
            token_hold_allowed_spec(*old(self), pool_config.pool_liquidity_limit as int, amount as int)
                == Some(true) ==> if fits_u(old(self).hold_amount + amount) {
                r == Ok::<(), BumpErrorCode>(()) && *final(self) == (PoolTokenBalance {
                    hold_amount: (old(self).hold_amount + amount) as u128,
                    ..*old(self)
                })
            } else {
                r == Err::<(), BumpErrorCode>(BumpErrorCode::MathError) && *final(self) == *old(self)
            },
    {
        let allowed = self.check_hold_is_allowed(amount, pool_config)?;
        if !allowed {
            return Err(BumpErrorCode::AmountNotEnough);
        }
        self.hold_amount = safe_add_u(self.hold_amount, amount)?;
        Ok(())
    }

    fn check_hold_is_allowed(&self, amount: u128, pool_config: PoolConfig) -> (r: BumpResult<bool>)
        ensures
            token_hold_allowed_spec(*self, pool_config.pool_liquidity_limit as int, amount as int)
                matches Some(b) ==> r == Ok::<bool, BumpErrorCode>(b),
            token_hold_allowed_spec(*self, pool_config.pool_liquidity_limit as int, amount as int)
                is None ==> r == Err::<bool, BumpErrorCode>(BumpErrorCode::MathError),
    {
        let total = safe_add_u(self.amount, self.un_settle_amount)?;
        if pool_config.pool_liquidity_limit == 0 {
            let free = safe_sub_u(total, self.hold_amount)?;
            return Ok(free >= amount);
        }
        let cap = safe_mul_u(total, pool_config.pool_liquidity_limit)?;
        Ok(cap >= amount)
    }
}

} // verus!
