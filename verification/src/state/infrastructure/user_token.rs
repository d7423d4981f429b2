//! A user's balance of one token.
use vstd::prelude::*;

use crate::calculator::{mul_rate_u, token_to_usd_u};
use crate::errors::{BumpErrorCode, BumpResult};
use crate::math::{
    ck_u, fits_u, mul_div_spec, res_u, safe_add_u, safe_sub_u, token_to_usd_spec, RATE_PRECISION,
};
use crate::pubkey::{zero_key, zero_pubkey, Pubkey};
use crate::state::oracle::OraclePriceData;
use crate::state::trade_token::TradeToken;

verus! {

/// A user's balance of one token: what was deposited, what is used as
/// margin (possibly more than deposited) and what is owed.
#[derive(Clone, Copy, Debug)]
pub struct UserToken {
    pub amount: u128,
    pub used_amount: u128,
    pub liability_amount: u128,
    pub token_mint_key: Pubkey,
    pub user_token_account_key: Pubkey,
    pub user_token_status: UserTokenStatus,
}

/// Whether a token slot is free or in use.
#[derive(Clone, Copy, Debug, PartialEq, Eq, Structural)]
pub enum UserTokenStatus {
    INIT,
    USING,
}

impl Default for UserTokenStatus {
    fn default() -> (r: Self)
        ensures
            r == UserTokenStatus::INIT,
    {
        UserTokenStatus::INIT
    }
}

/// The empty balance: nothing deposited, used or owed, slot free.
pub open spec fn is_empty_token(t: UserToken) -> bool {
    &&& t.amount == 0 && t.used_amount == 0 && t.liability_amount == 0
    &&& t.token_mint_key@ == zero_key() && t.user_token_account_key@ == zero_key()
    &&& t.user_token_status == UserTokenStatus::INIT
}

impl Default for UserToken {
    fn default() -> (r: Self)
        ensures
            is_empty_token(r),
    {
        UserToken {
            amount: 0,
            used_amount: 0,
            liability_amount: 0,
            token_mint_key: zero_pubkey(),
            user_token_account_key: zero_pubkey(),
            user_token_status: UserTokenStatus::INIT,
        }
    }
}

/// USD value of the free balance, discounted as collateral.
pub open spec fn token_net_value_spec(t: UserToken, trade_token: TradeToken, price: int) -> Option<int> {
    if t.amount > t.used_amount {
        match token_to_usd_spec(t.amount - t.used_amount, trade_token.decimals as int, price) {
            Some(v) => mul_div_spec(v, trade_token.discount as int, RATE_PRECISION as int),
            None => None,
        }
    } else {
        Some(0)
    }
}

/// USD value of what is used beyond the balance, weighted by
/// `1 + liquidation_factor` (that sum taken in rate units).
pub open spec fn token_used_value_spec(t: UserToken, trade_token: TradeToken, price: int) -> Option<int> {
    if t.amount < t.used_amount {
        if 1 + trade_token.liquidation_factor > u32::MAX {
            None
        } else {
            match token_to_usd_spec(t.used_amount - t.amount, trade_token.decimals as int, price) {
                Some(v) => mul_div_spec(
                    v,
                    1 + trade_token.liquidation_factor,
                    RATE_PRECISION as int,
                ),
                None => None,
            }
        }
    } else {
        Some(0)
    }
}

/// USD value of what is used beyond the balance and not yet recorded as a
/// liability.
pub open spec fn token_borrowing_value_spec(t: UserToken, trade_token: TradeToken, price: int) -> Option<int> {
    if t.used_amount < t.amount {
        Some(0)
    } else {
        match ck_u(t.used_amount - t.amount - t.liability_amount) {
            Some(b) => if b > 0 {
                token_to_usd_spec(b, trade_token.decimals as int, price)
            } else {
                Some(0)
            },
            None => None,
        }
    }
}

impl UserToken {
    /// A balance in use for `token_mint_key`, with nothing in it.
    pub fn new_using(token_mint_key: Pubkey, user_token_account_key: Pubkey) -> (r: Self)
        ensures
            r.amount == 0 && r.used_amount == 0 && r.liability_amount == 0,
            r.token_mint_key == token_mint_key,
            r.user_token_account_key == user_token_account_key,
            r.user_token_status == UserTokenStatus::USING,
    {
        UserToken {
            amount: 0,
            used_amount: 0,
            liability_amount: 0,
            user_token_status: UserTokenStatus::USING,
            token_mint_key,
            user_token_account_key,
        }
    }

    /// Adds to the balance; returns the balance as it was before.
    pub fn add_amount(&mut self, amount: u128) -> (r: BumpResult<Self>)
        ensures
            fits_u(old(self).amount + amount) ==> r == Ok::<UserToken, BumpErrorCode>(*old(self))
                && *final(self) == (UserToken { amount: (old(self).amount + amount) as u128, ..*old(self) }),
            !fits_u(old(self).amount + amount) ==> r == Err::<UserToken, BumpErrorCode>(
                BumpErrorCode::MathError,
            ) && *final(self) == *old(self),
    {
        let before = *self;
        self.amount = safe_add_u(self.amount, amount)?;
        Ok(before)
    }

    /// Takes from the balance.
    pub fn sub_amount(&mut self, amount: u128) -> (r: BumpResult)
        ensures
            old(self).amount >= amount ==> r == Ok::<(), BumpErrorCode>(()) && *final(self) == (
            UserToken { amount: (old(self).amount - amount) as u128, ..*old(self) }),
            old(self).amount < amount ==> r == Err::<(), BumpErrorCode>(BumpErrorCode::MathError)
                && *final(self) == *old(self),
    {
        self.amount = safe_sub_u(self.amount, amount)?;
        Ok(())
    }

    /// Releases used balance.
    pub fn sub_used_amount(&mut self, amount: u128) -> (r: BumpResult)
        ensures
            old(self).used_amount >= amount ==> r == Ok::<(), BumpErrorCode>(()) && *final(self)
                == (UserToken { used_amount: (old(self).used_amount - amount) as u128, ..*old(self) }),
            old(self).used_amount < amount ==> r == Err::<(), BumpErrorCode>(
                BumpErrorCode::MathError,
            ) && *final(self) == *old(self),
    {
        self.used_amount = safe_sub_u(self.used_amount, amount)?;
        Ok(())
    }

    /// Uses balance (as margin).
    pub fn add_used_amount(&mut self, amount: u128) -> (r: BumpResult)
        ensures
            fits_u(old(self).used_amount + amount) ==> r == Ok::<(), BumpErrorCode>(()) && *final(self) == (UserToken { used_amount: (old(self).used_amount + amount) as u128, ..*old(self) }),
            !fits_u(old(self).used_amount + amount) ==> r == Err::<(), BumpErrorCode>(
                BumpErrorCode::MathError,
            ) && *final(self) == *old(self),
    {
        self.used_amount = safe_add_u(self.used_amount, amount)?;
        Ok(())
    }

    /// Collateral value of the free balance (see `token_net_value_spec`).
    pub fn get_token_net_value(
        &self,
        trade_token: &TradeToken,
        oracle_price_data: &OraclePriceData,
    ) -> (r: BumpResult<u128>)
        ensures
            r == res_u(token_net_value_spec(*self, *trade_token, oracle_price_data.price as int)),
    {
        if self.amount > self.used_amount {
            let free = safe_sub_u(self.amount, self.used_amount)?;
            let v = token_to_usd_u(free, trade_token.decimals, oracle_price_data.price)?;
            return mul_rate_u(v, trade_token.discount as u128);
        }
        Ok(0u128)
    }

    /// Weighted value of the overdrawn part (see `token_used_value_spec`).
    pub fn get_token_used_value(
        &self,
        trade_token: &TradeToken,
        oracle_price_data: &OraclePriceData,
    ) -> (r: BumpResult<u128>)
        ensures
            r == res_u(token_used_value_spec(*self, *trade_token, oracle_price_data.price as int)),
    {
        if self.amount < self.used_amount {
            let over = safe_sub_u(self.used_amount, self.amount)?;
            let v = token_to_usd_u(over, trade_token.decimals, oracle_price_data.price)?;
            let factor = match 1u32.checked_add(trade_token.liquidation_factor) {
                Some(f) => f,
                None => {
                    return Err(BumpErrorCode::MathError);
                },
            };
            return mul_rate_u(v, factor as u128);
        }
        Ok(0u128)
    }

    /// Free balance, or zero when all of it is used.
    pub fn get_token_available_amount(&self) -> (r: BumpResult<u128>)
        ensures
            r == Ok::<u128, BumpErrorCode>(
                (if self.amount > self.used_amount {
                    self.amount - self.used_amount
                } else {
                    0
                }) as u128,
            ),
    {
        if self.amount > self.used_amount {
            return safe_sub_u(self.amount, self.used_amount);
        }
        Ok(0u128)
    }

    /// Value of the borrowed part (see `token_borrowing_value_spec`).
    pub fn get_token_borrowing_value(
        &self,
        oracle_price_data: &OraclePriceData,
        trade_token: &TradeToken,
    ) -> (r: BumpResult<u128>)
        ensures
            r == res_u(
                token_borrowing_value_spec(*self, *trade_token, oracle_price_data.price as int),
            ),
    {
        if self.used_amount < self.amount {
            return Ok(0u128);
        }
        let over = safe_sub_u(self.used_amount, self.amount)?;
        let borrowing_amount = safe_sub_u(over, self.liability_amount)?;
        if borrowing_amount > 0 {
            return token_to_usd_u(borrowing_amount, trade_token.decimals, oracle_price_data.price);
        }
        Ok(0u128)
    }
}

} // verus!
