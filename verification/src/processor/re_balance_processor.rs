//! Keeper rebalancing across all pools: the unsettled fees and unsettled
//! amounts of the pools are paid from the trade tokens' vaults into the
//! pools' vaults, and a pool is settled against its stable balance once the
//! difference has been swapped.
use vstd::prelude::*;

use crate::errors::{BumpErrorCode, BumpResult};
use crate::math::{cast_to_i, fits_i, fits_u};
use crate::pubkey::key_eq;
use crate::state::infrastructure::fee_reward::FeeReward;
use crate::state::pool::{with_amount, with_unsettle, Pool, PoolBalance};
use crate::state::trade_token::TradeToken;

verus! {

/// A payment from a trade token's vault into the vault of the pool at
/// `pool_index`, of the pool's own token.
#[derive(Clone, Copy, Debug, PartialEq, Eq, Structural)]
pub struct VaultTransfer {
    pub pool_index: usize,
    pub amount: u128,
}

/// The pool with its unsettled fees settled.
pub open spec fn fee_cleared(p: Pool) -> Pool {
    Pool { fee_reward: FeeReward { un_settle_fee_amount: 0, ..p.fee_reward }, ..p }
}

/// The pools, from `i` on, with their unsettled fees settled, and the
/// payments of those fees.
pub open spec fn fee_walk(ps: Seq<Pool>, i: int) -> (Seq<Pool>, Seq<VaultTransfer>)
    decreases ps.len() - i,
{
    if i < 0 || i >= ps.len() {
        (ps, Seq::empty())
    } else {
        let fee = ps[i].fee_reward.un_settle_fee_amount;
        let (qs, tr) = fee_walk(ps.update(i, fee_cleared(ps[i])), i + 1);
        if fee > 0 {
            (qs, seq![VaultTransfer { pool_index: i as usize, amount: fee }] + tr)
        } else {
            (qs, tr)
        }
    }
}

/// Unsettled amount of the pools of `mint` that are not stable pools.
pub open spec fn unsettle_total(ps: Seq<Pool>, mint: Seq<u8>) -> int
    decreases ps.len(),
{
    if ps.len() == 0 {
        0
    } else {
        unsettle_total(ps.drop_last(), mint) + (if !ps.last().stable && ps.last().mint_key@
            == mint {
            ps.last().balance.un_settle_amount as int
        } else {
            0
        })
    }
}

/// The pool after `amount` of its unsettled amount was paid in: the
/// unsettled amount shrinks and the balance grows by it.
pub open spec fn unsettle_paid(p: Pool, amount: int) -> Pool {
    with_amount(
        with_unsettle(p, p.balance.un_settle_amount - amount),
        p.balance.amount + amount,
    )
}

/// Pays `remaining` to the pools of `mint` from `i` on, each in turn taking
/// up to its unsettled amount; `None` when a balance would overflow.
pub open spec fn distribute_walk(ps: Seq<Pool>, mint: Seq<u8>, i: int, remaining: int) -> Option<
    (Seq<Pool>, Seq<VaultTransfer>),
>
    decreases ps.len() - i,
{
    if i < 0 || i >= ps.len() {
        Some((ps, Seq::empty()))
    } else if ps[i].mint_key@ == mint && remaining > 0 {
        let p = ps[i];
        let amt = if p.balance.un_settle_amount > remaining {
            remaining
        } else {
            p.balance.un_settle_amount as int
        };
        if !fits_u(p.balance.amount + amt) {
            None
        } else {
            match distribute_walk(ps.update(i, unsettle_paid(p, amt)), mint, i + 1, remaining - amt) {
                None => None,
                Some((qs, tr)) => Some(
                    (qs, seq![VaultTransfer { pool_index: i as usize, amount: amt as u128 }] + tr),
                ),
            }
        }
    } else {
        distribute_walk(ps, mint, i + 1, remaining)
    }
}

/// For each trade token from `k` on whose liability is below the unsettled
/// total of its token's non-stable pools (in `totals`), pays the difference
/// to the pools of its token.
pub open spec fn token_walk(ps: Seq<Pool>, totals: Seq<Pool>, ts: Seq<TradeToken>, k: int) -> Option<
    (Seq<Pool>, Seq<VaultTransfer>),
>
    decreases ts.len() - k,
{
    if k < 0 || k >= ts.len() {
        Some((ps, Seq::empty()))
    } else {
        let t = ts[k];
        let total = unsettle_total(totals, t.mint_key@);
        if t.total_liability < total {
            match distribute_walk(ps, t.mint_key@, 0, total - t.total_liability) {
                None => None,
                Some((qs, tr)) => match token_walk(qs, totals, ts, k + 1) {
                    None => None,
                    Some((rs, tr2)) => Some((rs, tr + tr2)),
                },
            }
        } else {
            token_walk(ps, totals, ts, k + 1)
        }
    }
}

/// The first trade token of `mint` from `k` on.
pub open spec fn trade_token_from(ts: Seq<TradeToken>, mint: Seq<u8>, k: int) -> Option<TradeToken>
    decreases ts.len() - k,
{
    if k < 0 || k >= ts.len() {
        None
    } else if ts[k].mint_key@ == mint {
        Some(ts[k])
    } else {
        trade_token_from(ts, mint, k + 1)
    }
}

/// Pays each stable pool from `i` on what its unsettled amount exceeds its
/// trade token's liability.
pub open spec fn stable_walk(ps: Seq<Pool>, ts: Seq<TradeToken>, i: int) -> Result<
    (Seq<Pool>, Seq<VaultTransfer>),
    BumpErrorCode,
>
    decreases ps.len() - i,
{
    if i < 0 || i >= ps.len() {
        Ok((ps, Seq::empty()))
    } else if !ps[i].stable {
        stable_walk(ps, ts, i + 1)
    } else {
        let p = ps[i];
        match trade_token_from(ts, p.mint_key@, 0) {
            None => Err(BumpErrorCode::TradeTokenNotFind),
            Some(t) => if t.total_liability < p.balance.un_settle_amount {
                let amt = p.balance.un_settle_amount - t.total_liability;
                if !fits_u(p.balance.amount + amt) {
                    Err(BumpErrorCode::MathError)
                } else {
                    match stable_walk(ps.update(i, unsettle_paid(p, amt)), ts, i + 1) {
                        Err(e) => Err(e),
                        Ok((qs, tr)) => Ok(
                            (
                                qs,
                                seq![VaultTransfer { pool_index: i as usize, amount: amt as u128 }]
                                    + tr,
                            ),
                        ),
                    }
                }
            } else {
                stable_walk(ps, ts, i + 1)
            },
        }
    }
}

/// Some pool with unsettled fees has no trade token of its mint.
pub open spec fn fee_token_missing(ps: Seq<Pool>, ts: Seq<TradeToken>) -> bool {
    exists|i: int|
        0 <= i < ps.len() && (#[trigger] ps[i]).fee_reward.un_settle_fee_amount > 0
            && trade_token_from(ts, ps[i].mint_key@, 0) is None
}

/// The first failure of the first pass over the pools from `i` on, pool by
/// pool: the running unsettled total of a non-stable pool's token leaving
/// the `u128` range, or a pool with unsettled fees whose trade token is
/// missing.
pub open spec fn first_pass_error(ps: Seq<Pool>, ts: Seq<TradeToken>, i: int) -> Option<
    BumpErrorCode,
>
    decreases ps.len() - i,
{
    if i < 0 || i >= ps.len() {
        None
    } else if !ps[i].stable && unsettle_total(ps.subrange(0, i + 1), ps[i].mint_key@)
        > u128::MAX {
        Some(BumpErrorCode::MathError)
    } else if ps[i].fee_reward.un_settle_fee_amount > 0 && trade_token_from(
        ts,
        ps[i].mint_key@,
        0,
    ) is None {
        Some(BumpErrorCode::TradeTokenNotFind)
    } else {
        first_pass_error(ps, ts, i + 1)
    }
}

/// Outcome of `rebalance_pool_unsettle`: refused with the first failure of
/// the first pass (see `first_pass_error`); else the fees are settled, then
/// the non-stable totals beyond the tokens' liabilities and the stable
/// pools' excess are paid in, in that order.
pub open spec fn pool_unsettle_spec(ps: Seq<Pool>, ts: Seq<TradeToken>) -> Result<
    (Seq<Pool>, Seq<VaultTransfer>),
    BumpErrorCode,
> {
    match first_pass_error(ps, ts, 0) {
        Some(e) => Err(e),
        None => {
            let (ps1, tr1) = fee_walk(ps, 0);
            match token_walk(ps1, ps, ts, 0) {
                None => Err(BumpErrorCode::MathError),
                Some((ps2, tr2)) => match stable_walk(ps2, ts, 0) {
                    Err(e) => Err(e),
                    Ok((ps3, tr3)) => Ok((ps3, tr1 + tr2 + tr3)),
                },
            }
        },
    }
}

/// With no failure in the first pass from `i` on, every pool from `i` on
/// passes it.
proof fn lemma_first_pass_none(ps: Seq<Pool>, ts: Seq<TradeToken>, i: int)
    requires
        0 <= i,
        first_pass_error(ps, ts, i) is None,
    ensures
        forall|k: int|
            i <= k < ps.len() ==> (!(#[trigger] ps[k]).stable ==> unsettle_total(
                ps.subrange(0, k + 1),
                ps[k].mint_key@,
            ) <= u128::MAX) && (ps[k].fee_reward.un_settle_fee_amount > 0 ==> trade_token_from(
                ts,
                ps[k].mint_key@,
                0,
            ) is Some),
    decreases ps.len() - i,
{
    if i < ps.len() {
        lemma_first_pass_none(ps, ts, i + 1);
    }
}

/// Where every running total of `mint` stays in the `u128` range, so does
/// the total of the first `n` pools.
proof fn lemma_running_totals_fit(ps: Seq<Pool>, mint: Seq<u8>, n: int)
    requires
        0 <= n <= ps.len(),
        forall|k: int|
            0 <= k < ps.len() && !(#[trigger] ps[k]).stable && ps[k].mint_key@ == mint
                ==> unsettle_total(ps.subrange(0, k + 1), mint) <= u128::MAX,
    ensures
        unsettle_total(ps.subrange(0, n), mint) <= u128::MAX,
    decreases n,
{
    if n > 0 {
        lemma_running_totals_fit(ps, mint, n - 1);
        assert(ps.subrange(0, n).drop_last() =~= ps.subrange(0, n - 1));
        assert(ps.subrange(0, n).last() == ps[n - 1]);
    }
}

/// Passing the first pass leaves no token whose total overflows and no
/// pool with unsettled fees without its trade token.
proof fn lemma_first_pass_ok(ps: Seq<Pool>, ts: Seq<TradeToken>)
    requires
        first_pass_error(ps, ts, 0) is None,
    ensures
        !(exists|i: int|
            0 <= i < ps.len() && !ps[i].stable && unsettle_total(ps, #[trigger] ps[i].mint_key@)
                > u128::MAX),
        !fee_token_missing(ps, ts),
{
    lemma_first_pass_none(ps, ts, 0);
    assert forall|i: int|
        0 <= i < ps.len() && !ps[i].stable implies unsettle_total(
        ps,
        #[trigger] ps[i].mint_key@,
    ) <= u128::MAX by {
        let mint = ps[i].mint_key@;
        assert forall|k: int|
            0 <= k < ps.len() && !(#[trigger] ps[k]).stable && ps[k].mint_key@ == mint implies unsettle_total(
            ps.subrange(0, k + 1),
            mint,
        ) <= u128::MAX by {}
        lemma_running_totals_fit(ps, mint, ps.len() as int);
        assert(ps.subrange(0, ps.len() as int) =~= ps);
    }
    assert forall|i: int|
        0 <= i < ps.len() && (#[trigger] ps[i]).fee_reward.un_settle_fee_amount > 0 implies trade_token_from(
        ts,
        ps[i].mint_key@,
        0,
    ) is Some by {}
}

/// A partial total never exceeds the whole.
proof fn lemma_total_prefix(ps: Seq<Pool>, mint: Seq<u8>, j: int)
    requires
        0 <= j <= ps.len(),
    ensures
        unsettle_total(ps.subrange(0, j), mint) <= unsettle_total(ps, mint),
    decreases ps.len() - j,
{
    if j == ps.len() {
        assert(ps.subrange(0, j) =~= ps);
    } else {
        lemma_total_prefix(ps, mint, j + 1);
        assert(ps.subrange(0, j + 1).drop_last() =~= ps.subrange(0, j));
    }
}

/// A positive total comes from some non-stable pool of the token.
proof fn lemma_total_has_pool(ps: Seq<Pool>, mint: Seq<u8>)
    requires
        unsettle_total(ps, mint) > 0,
    ensures
        exists|i: int| 0 <= i < ps.len() && !ps[i].stable && ps[i].mint_key@ == mint,
    decreases ps.len(),
{
    if ps.len() > 0 {
        let l = ps.len() - 1;
        if !ps[l].stable && ps[l].mint_key@ == mint {
        } else {
            lemma_total_has_pool(ps.drop_last(), mint);
            let i = choose|i: int|
                0 <= i < ps.drop_last().len() && !ps.drop_last()[i].stable
                    && ps.drop_last()[i].mint_key@ == mint;
            assert(ps[i] == ps.drop_last()[i]);
        }
    }
}

/// Unsettled total of the first `n` pools' non-stable pools of `mint`, if
/// it is a `u128`.
fn unsettle_total_upto(pools: &Vec<Pool>, mint: &[u8; 32], n: usize) -> (r: Option<u128>)
    requires
        n <= pools.len(),
    ensures
        r matches Some(v) ==> v == unsettle_total(pools@.subrange(0, n as int), mint@),
        r is None ==> unsettle_total(pools@.subrange(0, n as int), mint@) > u128::MAX,
{
    let ghost ps = pools@.subrange(0, n as int);
    let mut acc: u128 = 0;
    let mut j: usize = 0;
    while j < n
        invariant
            j <= n <= pools.len(),
            ps == pools@.subrange(0, n as int),
            acc == unsettle_total(pools@.subrange(0, j as int), mint@),
        decreases n - j,
    {
        proof {
            assert(pools@.subrange(0, j + 1).drop_last() =~= pools@.subrange(0, j as int));
        }
        let p = &pools[j];
        if !p.stable && key_eq(&p.mint_key, mint) {
            match acc.checked_add(p.balance.un_settle_amount) {
                Some(v) => {
                    acc = v;
                },
                None => {
                    proof {
                        assert(ps.subrange(0, j + 1) =~= pools@.subrange(0, j + 1));
                        lemma_total_prefix(ps, mint@, j + 1);
                    }
                    return None;
                },
            }
        }
        j = j + 1;
    }
    Some(acc)
}

/// Unsettled total of the non-stable pools of `mint`, if it is a `u128`.
fn unsettle_total_of(pools: &Vec<Pool>, mint: &[u8; 32]) -> (r: Option<u128>)
    ensures
        r matches Some(v) ==> v == unsettle_total(pools@, mint@),
        r is None ==> unsettle_total(pools@, mint@) > u128::MAX,
{
    assert(pools@.subrange(0, pools.len() as int) =~= pools@);
    unsettle_total_upto(pools, mint, pools.len())
}

/// The first pass over the pools (see `first_pass_error`).
fn first_pass_check(pools: &Vec<Pool>, tokens: &Vec<TradeToken>) -> (r: BumpResult)
    ensures
        r == match first_pass_error(pools@, tokens@, 0) {
            Some(e) => Err::<(), BumpErrorCode>(e),
            None => Ok(()),
        },
{
    let mut i: usize = 0;
    while i < pools.len()
        invariant
            i <= pools.len(),
            first_pass_error(pools@, tokens@, 0) == first_pass_error(pools@, tokens@, i as int),
        decreases pools.len() - i,
    {
        let p = &pools[i];
        if !p.stable {
            if unsettle_total_upto(pools, &p.mint_key, i + 1).is_none() {
                return Err(BumpErrorCode::MathError);
            }
        }
        if p.fee_reward.un_settle_fee_amount > 0u128 {
            if find_trade_token(tokens, &p.mint_key).is_none() {
                return Err(BumpErrorCode::TradeTokenNotFind);
            }
        }
        i = i + 1;
    }
    Ok(())
}

/// A copy of the pools.
fn copy_pools(pools: &Vec<Pool>) -> (r: Vec<Pool>)
    ensures
        r@ == pools@,
{
    let mut r: Vec<Pool> = Vec::new();
    let mut i: usize = 0;
    while i < pools.len()
        invariant
            i <= pools.len(),
            r@ == pools@.subrange(0, i as int),
        decreases pools.len() - i,
    {
        r.push(pools[i]);
        i = i + 1;
        assert(r@ =~= pools@.subrange(0, i as int));
    }
    assert(pools@.subrange(0, pools.len() as int) =~= pools@);
    r
}

/// Settles the unsettled fees of every pool (see `fee_walk`); returns the
/// payments of the fees. Refused, with nothing changed, when a pool with
/// unsettled fees has no trade token of its mint.
pub fn rebalance_rewards(pools: &mut Vec<Pool>, trade_tokens: &Vec<TradeToken>) -> (r: BumpResult<
    Vec<VaultTransfer>,
>)
    ensures
        fee_token_missing(old(pools)@, trade_tokens@) ==> r == Err::<
            Vec<VaultTransfer>,
            BumpErrorCode,
        >(BumpErrorCode::TradeTokenNotFind) && final(pools)@ == old(pools)@,
        !fee_token_missing(old(pools)@, trade_tokens@) ==> (r matches Ok(v) && (final(pools)@, v@)
            == fee_walk(old(pools)@, 0)),
{
    let mut k: usize = 0;
    while k < pools.len()
        invariant
            k <= pools.len(),
            forall|j: int|
                0 <= j < k ==> !((#[trigger] pools@[j]).fee_reward.un_settle_fee_amount > 0
                    && trade_token_from(trade_tokens@, pools@[j].mint_key@, 0) is None),
        decreases pools.len() - k,
    {
        if pools[k].fee_reward.un_settle_fee_amount > 0u128 {
            if find_trade_token(trade_tokens, &pools[k].mint_key).is_none() {
                return Err(BumpErrorCode::TradeTokenNotFind);
            }
        }
        k = k + 1;
    }
    let mut tr: Vec<VaultTransfer> = Vec::new();
    let mut i: usize = 0;
    while i < pools.len()
        invariant
            i <= pools.len(),
            pools@.len() == old(pools)@.len(),
            fee_walk(old(pools)@, 0) == (fee_walk(pools@, i as int).0, tr@ + fee_walk(
                pools@,
                i as int,
            ).1),
        decreases pools.len() - i,
    {
        let p = pools[i];
        let fee = p.fee_reward.un_settle_fee_amount;
        let ghost before = pools@;
        let mut q = p;
        q.fee_reward.un_settle_fee_amount = 0;
        pools.set(i, q);
        proof {
            assert(pools@ == before.update(i as int, fee_cleared(before[i as int])));
        }
        if fee > 0u128 {
            let ghost tr0 = tr@;
            tr.push(VaultTransfer { pool_index: i, amount: fee });
            proof {
                let rest = fee_walk(pools@, i + 1).1;
                assert(tr0 + (seq![VaultTransfer { pool_index: i, amount: fee }] + rest) =~= tr@ + rest);
            }
        }
        i = i + 1;
    }
    assert(tr@ + Seq::<VaultTransfer>::empty() =~= tr@);
    Ok(tr)
}

/// Pays `amount` to the pools of `mint` (see `distribute_walk`); `None`
/// when a balance would overflow.
fn distribute(pools: &mut Vec<Pool>, mint: &[u8; 32], amount: u128) -> (r: Option<
    Vec<VaultTransfer>,
>)
    ensures
        match distribute_walk(old(pools)@, mint@, 0, amount as int) {
            None => r is None,
            Some((qs, tr)) => r matches Some(v) && v@ == tr && final(pools)@ == qs,
        },
{
    let mut tr: Vec<VaultTransfer> = Vec::new();
    let mut remaining = amount;
    let mut i: usize = 0;
    while i < pools.len()
        invariant
            i <= pools.len(),
            pools@.len() == old(pools)@.len(),
            remaining <= amount,
            distribute_walk(old(pools)@, mint@, 0, amount as int) == match distribute_walk(
                pools@,
                mint@,
                i as int,
                remaining as int,
            ) {
                None => None,
                Some((qs, rest)) => Some((qs, tr@ + rest)),
            },
        decreases pools.len() - i,
    {
        let p = pools[i];
        if key_eq(&p.mint_key, mint) && remaining > 0u128 {
            let amt = if p.balance.un_settle_amount > remaining {
                remaining
            } else {
                p.balance.un_settle_amount
            };
            let grown = match p.balance.amount.checked_add(amt) {
                Some(v) => v,
                None => {
                    return None;
                },
            };
            let mut q = p;
            q.balance.un_settle_amount = p.balance.un_settle_amount - amt;
            q.balance.amount = grown;
            let ghost before = pools@;
            pools.set(i, q);
            proof {
                assert(q == unsettle_paid(p, amt as int));
                assert(pools@ == before.update(i as int, q));
            }
            let ghost tr0 = tr@;
            tr.push(VaultTransfer { pool_index: i, amount: amt });
            remaining = remaining - amt;
            proof {
                match distribute_walk(pools@, mint@, i + 1, remaining as int) {
                    None => {},
                    Some((qs, rest)) => {
                        assert(tr0 + (seq![VaultTransfer { pool_index: i, amount: amt }] + rest)
                            =~= tr@ + rest);
                    },
                }
            }
        }
        i = i + 1;
    }
    assert(tr@ + Seq::<VaultTransfer>::empty() =~= tr@);
    Some(tr)
}

/// Pays each trade token's excess of unsettled total (in `totals`) over
/// its liability to the pools of its token (see `token_walk`).
fn settle_tokens(pools: &mut Vec<Pool>, totals: &Vec<Pool>, tokens: &Vec<TradeToken>) -> (r: Option<
    Vec<VaultTransfer>,
>)
    requires
        forall|i: int|
            0 <= i < totals@.len() && !totals@[i].stable ==> unsettle_total(
                totals@,
                #[trigger] totals@[i].mint_key@,
            ) <= u128::MAX,
    ensures
        match token_walk(old(pools)@, totals@, tokens@, 0) {
            None => r is None,
            Some((qs, tr)) => r matches Some(v) && v@ == tr && final(pools)@ == qs,
        },
{
    let mut tr: Vec<VaultTransfer> = Vec::new();
    let mut k: usize = 0;
    while k < tokens.len()
        invariant
            k <= tokens.len(),
            forall|i: int|
                0 <= i < totals@.len() && !totals@[i].stable ==> unsettle_total(
                    totals@,
                    #[trigger] totals@[i].mint_key@,
                ) <= u128::MAX,
            token_walk(old(pools)@, totals@, tokens@, 0) == match token_walk(
                pools@,
                totals@,
                tokens@,
                k as int,
            ) {
                None => None,
                Some((qs, rest)) => Some((qs, tr@ + rest)),
            },
        decreases tokens.len() - k,
    {
        let t = &tokens[k];
        proof {
            if unsettle_total(totals@, t.mint_key@) > 0 {
                lemma_total_has_pool(totals@, t.mint_key@);
            }
        }
        let total = match unsettle_total_of(totals, &t.mint_key) {
            Some(v) => v,
            None => {
                return None;
            },
        };
        if t.total_liability < total {
            let mut paid = match distribute(pools, &t.mint_key, total - t.total_liability) {
                Some(v) => v,
                None => {
                    return None;
                },
            };
            let ghost tr0 = tr@;
            let ghost paid0 = paid@;
            tr.append(&mut paid);
            proof {
                match token_walk(pools@, totals@, tokens@, k + 1) {
                    None => {},
                    Some((qs, rest)) => {
                        assert(tr0 + (paid0 + rest) =~= tr@ + rest);
                    },
                }
            }
        }
        k = k + 1;
    }
    assert(tr@ + Seq::<VaultTransfer>::empty() =~= tr@);
    Some(tr)
}

/// The first trade token of `mint`.
fn find_trade_token(tokens: &Vec<TradeToken>, mint: &[u8; 32]) -> (r: Option<TradeToken>)
    ensures
        r == trade_token_from(tokens@, mint@, 0),
{
    let mut k: usize = 0;
    while k < tokens.len()
        invariant
            k <= tokens.len(),
            trade_token_from(tokens@, mint@, 0) == trade_token_from(tokens@, mint@, k as int),
        decreases tokens.len() - k,
    {
        if key_eq(&tokens[k].mint_key, mint) {
            return Some(tokens[k]);
        }
        k = k + 1;
    }
    None
}

/// Pays each stable pool its unsettled excess over its token's liability
/// (see `stable_walk`).
fn settle_stable_pools(pools: &mut Vec<Pool>, tokens: &Vec<TradeToken>) -> (r: BumpResult<
    Vec<VaultTransfer>,
>)
    ensures
        match stable_walk(old(pools)@, tokens@, 0) {
            Err(e) => r == Err::<Vec<VaultTransfer>, BumpErrorCode>(e),
            Ok((qs, tr)) => r matches Ok(v) && v@ == tr && final(pools)@ == qs,
        },
{
    let mut tr: Vec<VaultTransfer> = Vec::new();
    let mut i: usize = 0;
    while i < pools.len()
        invariant
            i <= pools.len(),
            pools@.len() == old(pools)@.len(),
            stable_walk(old(pools)@, tokens@, 0) == match stable_walk(pools@, tokens@, i as int) {
                Err(e) => Err(e),
                Ok((qs, rest)) => Ok((qs, tr@ + rest)),
            },
        decreases pools.len() - i,
    {
        let p = pools[i];
        if p.stable {
            let t = match find_trade_token(tokens, &p.mint_key) {
                Some(t) => t,
                None => {
                    return Err(BumpErrorCode::TradeTokenNotFind);
                },
            };
            if t.total_liability < p.balance.un_settle_amount {
                let amt = p.balance.un_settle_amount - t.total_liability;
                let grown = match p.balance.amount.checked_add(amt) {
                    Some(v) => v,
                    None => {
                        return Err(BumpErrorCode::MathError);
                    },
                };
                let mut q = p;
                q.balance.un_settle_amount = t.total_liability;
                q.balance.amount = grown;
                let ghost before = pools@;
                pools.set(i, q);
                proof {
                    assert(q == unsettle_paid(p, amt as int));
                    assert(pools@ == before.update(i as int, q));
                }
                let ghost tr0 = tr@;
                tr.push(VaultTransfer { pool_index: i, amount: amt });
                proof {
                    match stable_walk(pools@, tokens@, i + 1) {
                        Err(_) => {},
                        Ok((qs, rest)) => {
                            assert(tr0 + (seq![VaultTransfer { pool_index: i, amount: amt }] + rest)
                                =~= tr@ + rest);
                        },
                    }
                }
            }
        }
        i = i + 1;
    }
    assert(tr@ + Seq::<VaultTransfer>::empty() =~= tr@);
    Ok(tr)
}

/// Pays the pools' unsettled fees and unsettled amounts from the trade
/// tokens' vaults (see `pool_unsettle_spec`); returns the payments in
/// order. On failure nothing changes.
pub fn rebalance_pool_unsettle(pools: &mut Vec<Pool>, trade_tokens: &Vec<TradeToken>) -> (r:
    BumpResult<Vec<VaultTransfer>>)
    ensures
        match pool_unsettle_spec(old(pools)@, trade_tokens@) {
            Err(e) => r == Err::<Vec<VaultTransfer>, BumpErrorCode>(e) && final(pools)@ == old(
                pools,
            )@,
            Ok((ps, tr)) => r matches Ok(v) && v@ == tr && final(pools)@ == ps,
        },
{
    first_pass_check(pools, trade_tokens)?;
    proof {
        lemma_first_pass_ok(pools@, trade_tokens@);
    }
    let mut work = copy_pools(pools);
    let mut transfers = rebalance_rewards(&mut work, trade_tokens)?;
    let mut paid = match settle_tokens(&mut work, pools, trade_tokens) {
        Some(v) => v,
        None => {
            return Err(BumpErrorCode::MathError);
        },
    };
    let mut stable_paid = settle_stable_pools(&mut work, trade_tokens)?;
    transfers.append(&mut paid);
    transfers.append(&mut stable_paid);
    *pools = work;
    Ok(transfers)
}

/// The amount a pool's stable balance sends to be swapped: what the stable
/// balance holds beyond its loss, or what the loss exceeds it by.
pub fn stable_transfer_amount(stable: &PoolBalance) -> (r: u128)
    ensures
        r == (if stable.amount >= stable.loss_amount {
            stable.amount - stable.loss_amount
        } else {
            stable.loss_amount - stable.amount
        }),
{
    if stable.amount >= stable.loss_amount {
        stable.amount - stable.loss_amount
    } else {
        stable.loss_amount - stable.amount
    }
}

/// The pool after `x` leaves its balance and its loss, or the error the
/// pool's checks give.
pub open spec fn loss_settled(p: Pool, x: int) -> Result<Pool, BumpErrorCode> {
    if p.balance.amount < x {
        Err(BumpErrorCode::SubPoolAmountBiggerThanAmount)
    } else if p.balance.amount - x < x {
        Err(BumpErrorCode::AmountNotEnough)
    } else if p.balance.loss_amount < x {
        Err(BumpErrorCode::MathError)
    } else {
        let q = with_amount(p, p.balance.amount - x);
        Ok(Pool { balance: PoolBalance { loss_amount: (p.balance.loss_amount - x) as u128, ..q.balance }, ..q })
    }
}

/// Outcome of settling a pool against its stable balance `stable`, given
/// what the swap of the difference returned (`swap`): where the stable
/// balance covers its loss, that loss leaves the pool's balance and loss
/// and the swap's output comes in as balance and profit; otherwise the
/// stable balance leaves the pool's balance and loss, and the swap's output
/// leaves the balance as a loss.
pub open spec fn stable_settle_spec(p: Pool, stable: PoolBalance, swap: int) -> Result<Pool, BumpErrorCode> {
    let covered = stable.amount >= stable.loss_amount;
    let x = if covered {
        stable.loss_amount as int
    } else {
        stable.amount as int
    };
    match loss_settled(p, x) {
        Err(e) => Err(e),
        Ok(q) => if covered && !fits_u(q.balance.amount + swap) {
            Err(BumpErrorCode::MathError)
        } else if !covered && q.balance.amount < swap {
            Err(BumpErrorCode::SubPoolAmountBiggerThanAmount)
        } else if !fits_i(swap) {
            Err(BumpErrorCode::MathError)
        } else {
            let pnl = if covered {
                q.pnl + swap
            } else {
                q.pnl - swap
            };
            if !fits_i(pnl) {
                Err(BumpErrorCode::MathError)
            } else {
                let amount = if covered {
                    q.balance.amount + swap
                } else {
                    q.balance.amount - swap
                };
                Ok(Pool { pnl: pnl as i128, ..with_amount(q, amount) })
            }
        },
    }
}

/// Settles a pool against its stable balance `stable`, given the output
/// `swap_amount` of the swap of `stable_transfer_amount(stable)` (see
/// `stable_settle_spec`). On failure nothing changes.
pub fn rebalance_stable_pool(pool: &mut Pool, stable: &PoolBalance, swap_amount: u128) -> (r:
    BumpResult)
    ensures
        match stable_settle_spec(*old(pool), *stable, swap_amount as int) {
            Err(e) => r == Err::<(), BumpErrorCode>(e) && *final(pool) == *old(pool),
            Ok(q) => r == Ok::<(), BumpErrorCode>(()) && *final(pool) == q,
        },
{
    let mut p = *pool;
    if stable.amount >= stable.loss_amount {
        p.sub_amount(stable.loss_amount)?;
        p.sub_loss_amount(stable.loss_amount)?;
        p.add_amount(swap_amount)?;
        let pnl = cast_to_i(swap_amount)?;
        p.add_pnl(pnl)?;
    } else {
        p.sub_amount(stable.amount)?;
        p.sub_loss_amount(stable.amount)?;
        p.sub_amount(swap_amount)?;
        let pnl = cast_to_i(swap_amount)?;
        p.add_pnl(-pnl)?;
    }
    *pool = p;
    Ok(())
}

/// Unsettled fees of the pools from `i` on.
pub open spec fn unsettled_fees_from(ps: Seq<Pool>, i: int) -> int
    decreases ps.len() - i,
{
    if i < 0 || i >= ps.len() {
        0
    } else {
        ps[i].fee_reward.un_settle_fee_amount + unsettled_fees_from(ps, i + 1)
    }
}

/// Total of the payments.
pub open spec fn paid_total(tr: Seq<VaultTransfer>) -> int
    decreases tr.len(),
{
    if tr.len() == 0 {
        0
    } else {
        tr[0].amount + paid_total(tr.subrange(1, tr.len() as int))
    }
}

/// The fees from `i + 1` on do not depend on the pools before.
proof fn lemma_fees_from_update(ps: Seq<Pool>, k: int, p: Pool, i: int)
    requires
        0 <= k < i,
        k < ps.len(),
    ensures
        unsettled_fees_from(ps.update(k, p), i) == unsettled_fees_from(ps, i),
    decreases ps.len() - i,
{
    if 0 <= i < ps.len() {
        lemma_fees_from_update(ps, k, p, i + 1);
        assert(ps.update(k, p)[i] == ps[i]);
    }
}

/// The settlement from `i` on clears the fees of those pools, keeps the
/// others, and pays exactly their fees.
proof fn lemma_fee_walk(ps: Seq<Pool>, i: int)
    requires
        0 <= i <= ps.len(),
    ensures
        fee_walk(ps, i).0.len() == ps.len(),
        forall|j: int| 0 <= j < i ==> fee_walk(ps, i).0[j] == ps[j],
        forall|j: int| i <= j < ps.len() ==> fee_walk(ps, i).0[j] == fee_cleared(ps[j]),
        paid_total(fee_walk(ps, i).1) == unsettled_fees_from(ps, i),
    decreases ps.len() - i,
{
    if i < ps.len() {
        let ps1 = ps.update(i, fee_cleared(ps[i]));
        lemma_fee_walk(ps1, i + 1);
        lemma_fees_from_update(ps, i, fee_cleared(ps[i]), i + 1);
        let fee = ps[i].fee_reward.un_settle_fee_amount;
        let rest = fee_walk(ps1, i + 1).1;
        if fee > 0 {
            let tr = seq![VaultTransfer { pool_index: i as usize, amount: fee }] + rest;
            assert(tr.subrange(1, tr.len() as int) =~= rest);
        }
    }
}

/// Settling the rewards clears the unsettled fees of every pool, changes
/// nothing else of them, and pays out exactly the fees that were unsettled.
pub proof fn lemma_rewards_pay_unsettled_fees(ps: Seq<Pool>)
    ensures
        fee_walk(ps, 0).0.len() == ps.len(),
        forall|j: int| 0 <= j < ps.len() ==> fee_walk(ps, 0).0[j] == fee_cleared(ps[j]),
        paid_total(fee_walk(ps, 0).1) == unsettled_fees_from(ps, 0),
{
    lemma_fee_walk(ps, 0);
}

} // verus!
