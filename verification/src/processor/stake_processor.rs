//! Staking tokens into a pool: the checks, the user's stake and the fee.
use vstd::prelude::*;

use crate::calculator::token_to_usd_u;
use crate::errors::{BumpErrorCode, BumpResult};
use crate::math::{res_u, safe_sub_u, token_to_usd_spec};
use crate::processor::fee_processor::{charge_staking_fee, rate_fee_spec};
use crate::processor::user_processor::{realised_stake_spec, update_account_fee_reward};
use crate::state::infrastructure::user_stake::{UserStake, UserStakeStatus};
use crate::state::lookup::{find_token_price, token_price_from, TokenPrice};
use crate::state::pool::Pool;
use crate::state::user::{
    has_free_stake_slot, has_stake, is_fresh_stake, lemma_stake_slot, open_stake_slot,
    same_but_stakes, stake_for, User,
};

verus! {

/// Outcome of charging the staking fee on `amount` tokens: what is left
/// after the fee is what shares are minted for.
pub open spec fn stake_fee_outcome(pool: Pool, amount: int) -> (BumpResult<u128>, Pool) {
    let (fr, p1) = rate_fee_spec(pool, amount, pool.config.stake_fee_rate as int);
    match fr {
        Err(e) => (Err(e), pool),
        Ok(fee) => if fee > amount {
            (Err(BumpErrorCode::MathError), pool)
        } else {
            (Ok((amount - fee) as u128), p1)
        },
    }
}

/// After the stake in slot `i` became `s`, the fee was charged: on success
/// the user holds `s` there, else the user is unchanged.
pub open spec fn staked(
    u: User,
    pool: Pool,
    amount: int,
    i: int,
    s: UserStake,
    r: BumpResult<u128>,
    v: User,
    p: Pool,
) -> bool {
    &&& (r, p) == stake_fee_outcome(pool, amount)
    &&& r is Ok ==> v.user_stakes@ == u.user_stakes@.update(i, s) && same_but_stakes(u, v)
    &&& r is Err ==> v == u
}

/// Stakes `requested_token_amount` tokens of the pool for the user: their
/// value must reach the pool's minimum; the user's stake in the pool is
/// opened if there is none; its rewards so far are realised (see
/// `realised_stake_spec`); the staking fee is charged to the pool. Returns
/// the amount shares are to be minted for. On failure nothing changes.
pub fn stake(
    pool: &mut Pool,
    user: &mut User,
    tokens: &Vec<TokenPrice>,
    requested_token_amount: u128,
) -> (r: BumpResult<u128>)
    requires
        token_price_from(tokens@, old(pool).mint_key@, 0) is Some,
    ensures
        ({
            let tp = token_price_from(tokens@, old(pool).mint_key@, 0)->0;
            let u = *old(user);
            let key = old(pool).key@;
            let i = open_stake_slot(u, key);
            match res_u(
                token_to_usd_spec(
                    requested_token_amount as int,
                    tp.trade_token.decimals as int,
                    tp.price as int,
                ),
            ) {
                Err(e) => r == Err::<u128, BumpErrorCode>(e) && *final(user) == u && *final(pool)
                    == *old(pool),
                Ok(usd) => if old(pool).config.minimum_stake_amount > usd {
                    r == Err::<u128, BumpErrorCode>(BumpErrorCode::StakeToSmall) && *final(user) == u
                        && *final(pool) == *old(pool)
                } else if !has_stake(u, key) && !has_free_stake_slot(u) {
                    r == Err::<u128, BumpErrorCode>(BumpErrorCode::AmountNotEnough) && *final(user)
                        == u && *final(pool) == *old(pool)
                } else if has_stake(u, key) {
                    match realised_stake_spec(u.user_stakes@[i], *old(pool)) {
                        None => r == Err::<u128, BumpErrorCode>(BumpErrorCode::MathError)
                            && *final(user) == u && *final(pool) == *old(pool),
                        Some(s) => staked(
                            u,
                            *old(pool),
                            requested_token_amount as int,
                            i,
                            s,
                            r,
                            *final(user),
                            *final(pool),
                        ),
                    }
                } else {
                    staked(
                        u,
                        *old(pool),
                        requested_token_amount as int,
                        i,
                        final(user).user_stakes@[i],
                        r,
                        *final(user),
                        *final(pool),
                    ) && (r is Ok ==> is_fresh_stake(
                        final(user).user_stakes@[i],
                        key,
                        old(pool).fee_reward.cumulative_rewards_per_stake_token as int,
                    ))
                },
            }
        }),
{
    let trade_token = find_token_price(tokens, &pool.mint_key).unwrap();
    let token_usd = token_to_usd_u(
        requested_token_amount,
        trade_token.trade_token.decimals,
        trade_token.price,
    )?;
    if !(pool.config.minimum_stake_amount <= token_usd) {
        return Err(BumpErrorCode::StakeToSmall);
    }
    let mut u = *user;
    let ghost u0 = *user;
    let i = u.get_or_add_user_stake_index(&pool.key)?;
    if u.user_stakes[i].user_stake_status != UserStakeStatus::USING {
        return Err(BumpErrorCode::CouldNotFindUserStake);
    }
    proof {
        if !has_stake(u0, pool.key@) {
            assert forall|j: int| 0 <= j < i implies !stake_for(#[trigger] u.user_stakes@[j], pool.key@) by {
                assert(u.user_stakes@[j] == u0.user_stakes@[j]);
            }
            assert(stake_for(u.user_stakes@[i as int], pool.key@));
            lemma_stake_slot(u, pool.key@, i as int);
        } else {
            lemma_stake_slot(u, pool.key@, i as int);
        }
        assert(has_stake(u, pool.key@));
    }
    update_account_fee_reward(pool, &mut u)?;
    let mut p = *pool;
    let fee = charge_staking_fee(&mut p, requested_token_amount)?;
    let base_mint_amount = safe_sub_u(requested_token_amount, fee)?;
    assert(u.user_stakes@ =~= u0.user_stakes@.update(i as int, u.user_stakes@[i as int]));
    *user = u;
    *pool = p;
    Ok(base_mint_amount)
}

} // verus!
