//! Withdrawals, portfolio balance of cross positions and stake rewards of
//! a user account.
use vstd::prelude::*;

use crate::calculator::{mul_per_token_rate_u, token_to_usd_u};
use crate::errors::{BumpErrorCode, BumpResult};
use crate::math::{ck_u, fits_u, mul_div_spec, safe_sub_u, token_to_usd_spec, PER_TOKEN_PRECISION};
use crate::pubkey::Pubkey;
use crate::state::infrastructure::user_position::PositionStatus;
use crate::state::infrastructure::user_stake::{UserRewards, UserStake};
use crate::state::infrastructure::user_token::UserToken;
use crate::state::lookup::{find_token_price, token_price_from, TokenPrice};
use crate::state::pool::Pool;
use crate::state::user::{
    has_stake, has_token, is_first_stake, lemma_has_stake_slot, lemma_stake_slot,
    same_but_positions, stake_for, stake_slot, token_slot, User, UserTokenUpdateReason,
};
use crate::state::user_margin::{apply_portfolio_balance, portfolio_balance_walk};
use crate::state::user_value::available_value_spec;

verus! {

/// The account has a cross-margin position in use.
pub open spec fn cross_used_spec(u: User) -> bool {
    exists|i: int|
        0 <= i < 8 && (#[trigger] u.user_positions@[i]).status != PositionStatus::INIT
            && u.user_positions@[i].is_portfolio_margin
}

/// Moves `amount` of `mint` into (`add_amount`) or out of the portfolio
/// part of the margin of the account's cross positions in `mint`, each in
/// turn taking what remains (see `portfolio_balance_walk`); on failure
/// nothing changes.
pub fn update_cross_position_balance(user: &mut User, mint: &Pubkey, amount: u128, add_amount: bool) -> (r:
    BumpResult)
    ensures
        portfolio_balance_walk(old(user).user_positions@, 0, amount as int, mint@, add_amount)
            matches Some((ps, _)) ==> r == Ok::<(), BumpErrorCode>(()) && final(user).user_positions@
            == ps && same_but_positions(*old(user), *final(user)),
        portfolio_balance_walk(old(user).user_positions@, 0, amount as int, mint@, add_amount)
            is None ==> r == Err::<(), BumpErrorCode>(BumpErrorCode::MathError) && *final(user)
            == *old(user),
{
    let mut positions = user.user_positions;
    apply_portfolio_balance(&mut positions, mint, amount, add_amount)?;
    user.user_positions = positions;
    Ok(())
}

/// Outcome of the value check of a withdrawal by an account with cross
/// positions: the withdrawn value must stay below the size of the
/// account's available value.
pub open spec fn withdraw_check_spec(u: User, tokens: Seq<TokenPrice>, mint: Seq<u8>, amount: int) -> Result<
    (),
    BumpErrorCode,
> {
    if !cross_used_spec(u) {
        Ok(())
    } else {
        match token_price_from(tokens, mint, 0) {
            None => Err(BumpErrorCode::TradeTokenNotFind),
            Some(tp) => match token_to_usd_spec(amount, tp.trade_token.decimals as int, tp.price as int) {
                None => Err(BumpErrorCode::MathError),
                Some(usd) => match available_value_spec(u, tokens) {
                    Err(e) => Err(e),
                    Ok(available) => if available == i128::MIN {
                        Err(BumpErrorCode::MathError)
                    } else if (if available < 0 {
                        -available
                    } else {
                        available
                    }) > usd {
                        Ok(())
                    } else {
                        Err(BumpErrorCode::UserNotEnoughValue)
                    },
                },
            },
        }
    }
}

/// Withdraws `amount` of `token_mint` from the account: with cross
/// positions in use the amount is checked against the available value
/// (see `withdraw_check_spec`); the balance must cover the amount and what
/// it has in use; then the cross positions in the token give up the
/// portfolio part of their margin for it (see
/// `update_cross_position_balance`). On failure nothing changes.
pub fn withdraw(user: &mut User, amount: u128, token_mint: &Pubkey, tokens: &Vec<TokenPrice>) -> (r:
    BumpResult)
    ensures
        withdraw_check_spec(*old(user), tokens@, token_mint@, amount as int) matches Err(e) ==> r
            == Err::<(), BumpErrorCode>(e) && *final(user) == *old(user),
        withdraw_check_spec(*old(user), tokens@, token_mint@, amount as int) is Ok ==> ({
            let i = token_slot(*old(user), token_mint@);
            let t = old(user).user_tokens@[i];
            if !has_token(*old(user), token_mint@) {
                r == Err::<(), BumpErrorCode>(BumpErrorCode::CouldNotFindUserToken) && *final(user)
                    == *old(user)
            } else if t.amount >= amount && !fits_u(t.used_amount + amount) {
                r == Err::<(), BumpErrorCode>(BumpErrorCode::MathError) && *final(user) == *old(user)
            } else if t.amount < amount || t.amount < t.used_amount + amount {
                r == Err::<(), BumpErrorCode>(BumpErrorCode::AmountNotEnough) && *final(user)
                    == *old(user)
            } else {
                match portfolio_balance_walk(
                    old(user).user_positions@,
                    0,
                    amount as int,
                    token_mint@,
                    false,
                ) {
                    None => r == Err::<(), BumpErrorCode>(BumpErrorCode::MathError) && *final(user)
                        == *old(user),
                    Some((ps, _)) => r == Ok::<(), BumpErrorCode>(()) && final(user).user_tokens@
                        == old(user).user_tokens@.update(
                        i,
                        UserToken { amount: (t.amount - amount) as u128, ..t },
                    ) && final(user).user_positions@ == ps && final(user).hold == old(user).hold
                        && final(user).user_stakes == old(user).user_stakes && final(user).user_orders
                        == old(user).user_orders && final(user).user_key == old(user).user_key
                        && final(user).authority == old(user).authority && final(user).next_order_id
                        == old(user).next_order_id && final(user).next_liquidation_id == old(user).next_liquidation_id,
                }
            }
        }),
{
    let mut u = *user;
    if u.cross_used()? {
        let tp = find_token_price(tokens, token_mint)?;
        let withdraw_usd = token_to_usd_u(amount, tp.trade_token.decimals, tp.price)?;
        let available_value = u.get_available_value(tokens)?;
        if available_value == i128::MIN {
            return Err(BumpErrorCode::MathError);
        }
        let magnitude = if available_value < 0 {
            (-available_value) as u128
        } else {
            available_value as u128
        };
        if !(magnitude > withdraw_usd) {
            return Err(BumpErrorCode::UserNotEnoughValue);
        }
    }
    u.sub_user_token_amount_ignore_used_amount(token_mint, amount, &UserTokenUpdateReason::WITHDRAW)?;
    update_cross_position_balance(&mut u, token_mint, amount, false)?;
    *user = u;
    Ok(())
}

/// The stake after realising the rewards its shares earned since they were
/// last realised: the growth of the pool's cumulative rewards per share
/// times the shares; its cursor catches up with the pool's.
pub open spec fn realised_stake_spec(s: UserStake, pool: Pool) -> Option<UserStake> {
    match ck_u(
        pool.fee_reward.cumulative_rewards_per_stake_token
            - s.user_rewards.open_rewards_per_stake_token,
    ) {
        None => None,
        Some(growth) => match mul_div_spec(growth, s.staked_share as int, PER_TOKEN_PRECISION as int) {
            None => None,
            Some(rewards) => if fits_u(s.user_rewards.realised_rewards_token_amount + rewards) {
                Some(
                    UserStake {
                        user_rewards: UserRewards {
                            realised_rewards_token_amount: (s.user_rewards.realised_rewards_token_amount
                                + rewards) as u128,
                            open_rewards_per_stake_token:
                                pool.fee_reward.cumulative_rewards_per_stake_token,
                            ..s.user_rewards
                        },
                        ..s
                    },
                )
            } else {
                None
            },
        },
    }
}

/// Realises the rewards of the account's stake in `stake_pool` (see
/// `realised_stake_spec`); on failure nothing changes.
pub fn update_account_fee_reward(stake_pool: &Pool, user: &mut User) -> (r: BumpResult)
    ensures
        !has_stake(*old(user), stake_pool.key@) ==> r == Err::<(), BumpErrorCode>(
            BumpErrorCode::CouldNotFindUserStake,
        ) && *final(user) == *old(user),
        has_stake(*old(user), stake_pool.key@) ==> ({
            let i = stake_slot(*old(user), stake_pool.key@);
            match realised_stake_spec(old(user).user_stakes@[i], *stake_pool) {
                None => r == Err::<(), BumpErrorCode>(BumpErrorCode::MathError) && *final(user)
                    == *old(user),
                Some(s) => r == Ok::<(), BumpErrorCode>(()) && final(user).user_stakes@ == old(user).user_stakes@.update(i, s) && final(user).user_tokens == old(user).user_tokens
                    && final(user).user_positions == old(user).user_positions && final(user).user_orders
                    == old(user).user_orders && final(user).hold == old(user).hold && final(user).user_key == old(user).user_key && final(user).authority == old(user).authority
                    && final(user).next_order_id == old(user).next_order_id
                    && final(user).next_liquidation_id == old(user).next_liquidation_id,
            }
        }),
{
    let i = user.get_user_stake_index(&stake_pool.key)?;
    proof {
        lemma_stake_slot(*user, stake_pool.key@, i as int);
    }
    let mut s = user.user_stakes[i];
    let growth = safe_sub_u(
        stake_pool.fee_reward.cumulative_rewards_per_stake_token,
        s.user_rewards.open_rewards_per_stake_token,
    )?;
    let realised_rewards_token_amount = mul_per_token_rate_u(growth, s.staked_share)?;
    s.add_user_rewards(realised_rewards_token_amount)?;
    s.user_rewards.open_rewards_per_stake_token = stake_pool.fee_reward.cumulative_rewards_per_stake_token;
    user.user_stakes[i] = s;
    Ok(())
}

/// Realising a stake's rewards twice in a row against the same pool: `u2`
/// is the account after the first realisation (the stake replaced by the
/// realised one, as `update_account_fee_reward` leaves it). The account
/// still holds the stake in the same slot, and realising again adds
/// nothing: it gives back the stake unchanged.
pub proof fn lemma_realise_twice_adds_nothing(u: User, u2: User, pool: Pool)
    requires
        has_stake(u, pool.key@),
        realised_stake_spec(u.user_stakes@[stake_slot(u, pool.key@)], pool) is Some,
        u2.user_stakes@ == u.user_stakes@.update(
            stake_slot(u, pool.key@),
            realised_stake_spec(u.user_stakes@[stake_slot(u, pool.key@)], pool)->0,
        ),
    ensures
        has_stake(u2, pool.key@),
        stake_slot(u2, pool.key@) == stake_slot(u, pool.key@),
        realised_stake_spec(u2.user_stakes@[stake_slot(u2, pool.key@)], pool) == Some(
            u2.user_stakes@[stake_slot(u2, pool.key@)],
        ),
{
    let key = pool.key@;
    let i = stake_slot(u, key);
    let k = choose|k: int| 0 <= k < 12 && stake_for(#[trigger] u.user_stakes@[k], key);
    lemma_has_stake_slot(u, key, k);
    let s2 = u2.user_stakes@[i];
    assert(is_first_stake(u2, key, i)) by {
        assert forall|j: int| 0 <= j < i implies !stake_for(#[trigger] u2.user_stakes@[j], key) by {
            assert(u2.user_stakes@[j] == u.user_stakes@[j]);
        }
    }
    lemma_stake_slot(u2, key, i);
    let share = s2.staked_share as int;
    assert(0int * share == 0) by (nonlinear_arith);
    assert(mul_div_spec(0, share, PER_TOKEN_PRECISION as int) == Some(0int));
}

} // verus!
