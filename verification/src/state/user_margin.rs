//! Portfolio (cross) margin of a user account: how balance changes move
//! the portfolio part of the margin of cross-margin positions.
use vstd::prelude::*;

use crate::errors::{BumpErrorCode, BumpResult};
use crate::math::{
    abs_to_u, cast_to_i, ck_u, fits_i, fits_u, mul_div_spec, safe_add_i, safe_div_u,
    safe_mul_u, safe_sub_i, safe_sub_u,
};
use crate::pubkey::{key_eq, Pubkey};
use crate::state::infrastructure::user_position::{
    portfolio_add_spec, portfolio_reduce_spec, PositionStatus, UserPosition,
};
use crate::state::infrastructure::user_token::UserToken;
use crate::state::user::{has_token, lemma_token_slot, same_but_positions, token_slot, User};

verus! {

/// The slot holds a cross-margin position in use margined in `mint`.
pub open spec fn cross_position_in(p: UserPosition, mint: Seq<u8>) -> bool {
    p.status != PositionStatus::INIT && p.margin_mint_key@ == mint && p.is_portfolio_margin
}

/// Effect of a portfolio change of `change` margin tokens on one
/// cross-margin position: `(position, amount absorbed)`. A positive change
/// repays margin the position borrowed, as far as it goes; a negative one
/// moves its USD worth out of the portfolio part of the margin, which stops
/// at zero (absorbing nothing).
pub open spec fn portfolio_change_step_spec(p: UserPosition, change: int) -> Option<(UserPosition, int)> {
    let im = p.initial_margin as int;
    let imu = p.initial_margin_usd as int;
    let fp = p.initial_margin_usd_from_portfolio as int;
    if change > 0 {
        match ck_u(imu - fp) {
            Some(d) => match mul_div_spec(d, im, imu) {
                Some(borrowed) => {
                    let absorbed = if change <= borrowed {
                        change
                    } else {
                        borrowed
                    };
                    match mul_div_spec(absorbed, imu, im) {
                        Some(add) => if fits_u(fp + add) {
                            Some(
                                (
                                    UserPosition {
                                        initial_margin_usd_from_portfolio: (fp + add) as u128,
                                        ..p
                                    },
                                    absorbed,
                                ),
                            )
                        } else {
                            None
                        },
                        None => None,
                    }
                },
                None => None,
            },
            None => None,
        }
    } else if change == i128::MIN {
        None
    } else {
        match mul_div_spec(-change, imu, im) {
            Some(sub) => if fp <= sub {
                Some((UserPosition { initial_margin_usd_from_portfolio: 0, ..p }, 0))
            } else {
                Some((UserPosition { initial_margin_usd_from_portfolio: (fp - sub) as u128, ..p }, -change))
            },
            None => None,
        }
    }
}

/// The position slots from `i` on after a portfolio change of `change`
/// margin tokens in `mint`, of which `remaining` is still to absorb: each
/// cross-margin position in `mint` takes the whole change in turn, and the
/// walk stops once the remainder reaches zero.
pub open spec fn portfolio_change_walk(
    ps: Seq<UserPosition>,
    i: int,
    remaining: int,
    change: int,
    mint: Seq<u8>,
) -> Option<Seq<UserPosition>>
    decreases ps.len() - i,
{
    if i < 0 || i >= ps.len() {
        Some(ps)
    } else if !cross_position_in(ps[i], mint) {
        portfolio_change_walk(ps, i + 1, remaining, change, mint)
    } else {
        match portfolio_change_step_spec(ps[i], change) {
            None => None,
            Some((np, absorbed)) => {
                let rest = if change > 0 {
                    remaining - absorbed
                } else {
                    remaining + absorbed
                };
                if fits_i(absorbed) && fits_i(rest) {
                    if rest == 0 {
                        Some(ps.update(i, np))
                    } else {
                        portfolio_change_walk(ps.update(i, np), i + 1, rest, change, mint)
                    }
                } else {
                    None
                }
            }
        }
    }
}

/// The position slots from `i` on after `amount` margin tokens of `mint`
/// enter (`add`) or leave the portfolio: each cross-margin position in
/// `mint` takes back borrowed margin from what remains (`add`) or gives up
/// the portfolio part of its margin for it; returns the slots and what is
/// left.
pub open spec fn portfolio_balance_walk(
    ps: Seq<UserPosition>,
    i: int,
    amount: int,
    mint: Seq<u8>,
    add: bool,
) -> Option<(Seq<UserPosition>, int)>
    decreases ps.len() - i,
{
    if i < 0 || i >= ps.len() {
        Some((ps, amount))
    } else if cross_position_in(ps[i], mint) && amount > 0 {
        let step = if add {
            match portfolio_add_spec(ps[i], amount) {
                Some((taken, nfp)) => Some(
                    (UserPosition { initial_margin_usd_from_portfolio: nfp as u128, ..ps[i] }, taken),
                ),
                None => None,
            }
        } else {
            let (er, np) = portfolio_reduce_spec(ps[i], amount);
            match er {
                Ok(taken) => Some((np, taken as int)),
                Err(_) => None,
            }
        };
        match step {
            Some((np, taken)) => if fits_u(amount - taken) {
                portfolio_balance_walk(ps.update(i, np), i + 1, amount - taken, mint, add)
            } else {
                None
            },
            None => None,
        }
    } else {
        portfolio_balance_walk(ps, i + 1, amount, mint, add)
    }
}

/// What is left of the amount after the balance walk lies between zero and
/// the amount.
pub(crate) proof fn lemma_balance_walk_bounds(
    ps: Seq<UserPosition>,
    i: int,
    amount: int,
    mint: Seq<u8>,
    add: bool,
)
    requires
        0 <= amount,
    ensures
        portfolio_balance_walk(ps, i, amount, mint, add) matches Some((_, left)) ==> 0 <= left
            <= amount,
    decreases ps.len() - i,
{
    if i < 0 || i >= ps.len() {
    } else if cross_position_in(ps[i], mint) && amount > 0 {
        let step = if add {
            match portfolio_add_spec(ps[i], amount) {
                Some((taken, nfp)) => Some(
                    (UserPosition { initial_margin_usd_from_portfolio: nfp as u128, ..ps[i] }, taken),
                ),
                None => None,
            }
        } else {
            let (er, np) = portfolio_reduce_spec(ps[i], amount);
            match er {
                Ok(taken) => Some((np, taken as int)),
                Err(_) => None,
            }
        };
        match step {
            Some((np, taken)) => if fits_u(amount - taken) {
                lemma_balance_walk_bounds(ps.update(i, np), i + 1, amount - taken, mint, add);
            },
            None => {},
        }
    } else {
        lemma_balance_walk_bounds(ps, i + 1, amount, mint, add);
    }
}

/// The position's margin figures are consistent: both margins are positive
/// and the portfolio part of the USD margin does not exceed it.
pub open spec fn margin_consistent(p: UserPosition) -> bool {
    p.initial_margin > 0 && p.initial_margin_usd > 0 && p.initial_margin_usd_from_portfolio
        <= p.initial_margin_usd
}

/// `q` differs from `p` at most in the portfolio part of its USD margin.
pub open spec fn same_but_portfolio_part(p: UserPosition, q: UserPosition) -> bool {
    q == (UserPosition { initial_margin_usd_from_portfolio: q.initial_margin_usd_from_portfolio, ..p })
}

/// One step of a portfolio change touches only the portfolio part of the
/// margin and keeps a consistent position consistent; a positive change
/// absorbs at most itself, a non-positive one all of itself or nothing.
proof fn lemma_change_step(p: UserPosition, change: int)
    requires
        portfolio_change_step_spec(p, change) is Some,
    ensures
        ({
            let (np, absorbed) = portfolio_change_step_spec(p, change)->0;
            &&& same_but_portfolio_part(p, np)
            &&& margin_consistent(p) ==> np.initial_margin_usd_from_portfolio
                <= np.initial_margin_usd
            &&& change > 0 ==> 0 <= absorbed <= change
            &&& change > 0 ==> p.initial_margin_usd_from_portfolio
                <= np.initial_margin_usd_from_portfolio
            &&& change <= 0 ==> (absorbed == 0 || absorbed == -change)
        }),
{
    let im = p.initial_margin as int;
    let imu = p.initial_margin_usd as int;
    let fp = p.initial_margin_usd_from_portfolio as int;
    if change > 0 && margin_consistent(p) {
        let d = imu - fp;
        let borrowed = (d * im) / imu;
        let absorbed = if change <= borrowed {
            change
        } else {
            borrowed
        };
        assert(d * im >= 0) by (nonlinear_arith)
            requires
                d >= 0,
                im > 0,
        ;
        assert(borrowed >= 0 && borrowed * imu <= d * im) by (nonlinear_arith)
            requires
                d * im >= 0,
                imu > 0,
                borrowed == (d * im) / imu,
        ;
        assert((absorbed * imu) / im <= d) by (nonlinear_arith)
            requires
                0 <= absorbed <= borrowed,
                borrowed * imu <= d * im,
                imu > 0,
                im > 0,
        {
            assert(absorbed * imu <= borrowed * imu);
            assert((absorbed * imu) / im <= (d * im) / im);
        }
    }
}

/// Walking a portfolio change over the slots from `i` on: the slots before
/// `i` and those that are not cross-margin positions in `mint` are kept; the
/// others change only in the portfolio part of their margin and stay
/// consistent where they were.
proof fn lemma_change_walk_frame(
    ps: Seq<UserPosition>,
    i: int,
    remaining: int,
    change: int,
    mint: Seq<u8>,
)
    requires
        0 <= i,
        portfolio_change_walk(ps, i, remaining, change, mint) is Some,
    ensures
        ({
            let qs = portfolio_change_walk(ps, i, remaining, change, mint)->0;
            &&& qs.len() == ps.len()
            &&& forall|j: int|
                0 <= j < ps.len() && (j < i || !cross_position_in(ps[j], mint)) ==> qs[j]
                    == ps[j]
            &&& forall|j: int|
                0 <= j < ps.len() ==> same_but_portfolio_part(ps[j], #[trigger] qs[j])
            &&& forall|j: int|
                0 <= j < ps.len() && margin_consistent(ps[j]) ==> (#[trigger] qs[j]).initial_margin_usd_from_portfolio
                    <= qs[j].initial_margin_usd
        }),
    decreases ps.len() - i,
{
    if i >= ps.len() {
    } else if !cross_position_in(ps[i], mint) {
        lemma_change_walk_frame(ps, i + 1, remaining, change, mint);
    } else {
        lemma_change_step(ps[i], change);
        let (np, absorbed) = portfolio_change_step_spec(ps[i], change)->0;
        let rest = if change > 0 {
            remaining - absorbed
        } else {
            remaining + absorbed
        };
        let ps1 = ps.update(i, np);
        if rest != 0 {
            lemma_change_walk_frame(ps1, i + 1, rest, change, mint);
            let qs = portfolio_change_walk(ps, i, remaining, change, mint)->0;
            assert forall|j: int| 0 <= j < ps.len() implies same_but_portfolio_part(
                ps[j],
                #[trigger] qs[j],
            ) by {
                assert(same_but_portfolio_part(ps1[j], qs[j]));
            }
            assert forall|j: int|
                0 <= j < ps.len() && margin_consistent(ps[j]) implies (
                #[trigger] qs[j]).initial_margin_usd_from_portfolio
                <= qs[j].initial_margin_usd by {
                if j == i {
                    assert(same_but_portfolio_part(ps1[j], qs[j]));
                    if margin_consistent(ps1[j]) {
                    } else {
                        assert(qs[j] == ps1[j]) by {
                            assert(cross_position_in(ps1[j], mint));
                        }
                    }
                } else {
                    assert(ps1[j] == ps[j]);
                }
            }
        }
    }
}

/// Spreading a portfolio change over an account's position slots (the walk
/// that `update_all_position_from_portfolio_margin` applies): slots that are
/// not cross-margin positions in use in `mint` are left as they were; the
/// cross-margin positions in `mint` change only in the portfolio part of
/// their USD margin, and where that part was within the USD margin, with
/// both margins positive, it stays within it.
pub proof fn lemma_portfolio_change_frame(ps: Seq<UserPosition>, change: int, mint: Seq<u8>)
    requires
        portfolio_change_walk(ps, 0, change, change, mint) is Some,
    ensures
        ({
            let qs = portfolio_change_walk(ps, 0, change, change, mint)->0;
            &&& qs.len() == ps.len()
            &&& forall|j: int|
                0 <= j < ps.len() && !cross_position_in(ps[j], mint) ==> #[trigger] qs[j]
                    == ps[j]
            &&& forall|j: int|
                0 <= j < ps.len() ==> same_but_portfolio_part(ps[j], #[trigger] qs[j])
            &&& forall|j: int|
                0 <= j < ps.len() && cross_position_in(ps[j], mint) && margin_consistent(ps[j])
                    ==> (#[trigger] qs[j]).initial_margin_usd_from_portfolio
                    <= qs[j].initial_margin_usd
        }),
{
    lemma_change_walk_frame(ps, 0, change, change, mint);
}

/// A portfolio change of nothing walked over the slots from `i` on keeps
/// them all.
proof fn lemma_change_walk_zero(ps: Seq<UserPosition>, i: int, mint: Seq<u8>)
    requires
        0 <= i,
        forall|j: int|
            0 <= j < ps.len() && cross_position_in(ps[j], mint) ==> (#[trigger] ps[j]).initial_margin
                > 0,
    ensures
        portfolio_change_walk(ps, i, 0, 0, mint) == Some(ps),
    decreases ps.len() - i,
{
    if i >= ps.len() {
    } else if !cross_position_in(ps[i], mint) {
        lemma_change_walk_zero(ps, i + 1, mint);
    } else {
        let p = ps[i];
        assert(p.initial_margin > 0);
        let im = p.initial_margin as int;
        let imu = p.initial_margin_usd as int;
        assert(0int * imu == 0 && 0int / im == 0) by (nonlinear_arith)
            requires
                im > 0,
        ;
        assert(mul_div_spec(0, imu, im) == Some(0int));
        let (np, absorbed) = portfolio_change_step_spec(p, 0)->0;
        assert(np == p && absorbed == 0);
        assert(ps.update(i, np) =~= ps);
    }
}

/// A portfolio change of nothing leaves every position slot as it was,
/// provided the cross-margin positions in `mint` have a positive token
/// margin.
pub proof fn lemma_portfolio_change_zero(ps: Seq<UserPosition>, mint: Seq<u8>)
    requires
        forall|j: int|
            0 <= j < ps.len() && cross_position_in(ps[j], mint) ==> (#[trigger] ps[j]).initial_margin
                > 0,
    ensures
        portfolio_change_walk(ps, 0, 0, 0, mint) == Some(ps),
{
    lemma_change_walk_zero(ps, 0, mint);
}

/// The position's figures leave room for a portfolio change of `change`:
/// consistent margins, and the products the change computes fit in a `u128`.
pub open spec fn change_fits(p: UserPosition, change: int) -> bool {
    &&& margin_consistent(p)
    &&& change > 0 ==> (p.initial_margin_usd - p.initial_margin_usd_from_portfolio)
        * p.initial_margin <= u128::MAX
    &&& change <= 0 ==> (-change) * p.initial_margin_usd <= u128::MAX
}

/// One step of a portfolio change succeeds on a position with room for it.
proof fn lemma_change_step_some(p: UserPosition, change: int)
    requires
        change_fits(p, change),
        i128::MIN < change,
    ensures
        portfolio_change_step_spec(p, change) is Some,
{
    let im = p.initial_margin as int;
    let imu = p.initial_margin_usd as int;
    let fp = p.initial_margin_usd_from_portfolio as int;
    if change > 0 {
        let d = imu - fp;
        assert(0 <= d * im) by (nonlinear_arith)
            requires
                d >= 0,
                im > 0,
        ;
        let borrowed = (d * im) / imu;
        assert(0 <= borrowed <= d * im && borrowed * imu <= d * im) by (nonlinear_arith)
            requires
                d * im >= 0,
                imu > 0,
                borrowed == (d * im) / imu,
        ;
        let absorbed = if change <= borrowed {
            change
        } else {
            borrowed
        };
        assert(0 <= absorbed * imu <= d * im && 0 <= (absorbed * imu) / im <= absorbed * imu
            && (absorbed * imu) / im <= d) by (nonlinear_arith)
            requires
                0 <= absorbed <= borrowed,
                borrowed * imu <= d * im,
                imu > 0,
                im > 0,
                d >= 0,
        {
            assert(absorbed * imu <= borrowed * imu);
            assert((absorbed * imu) / im <= (d * im) / im);
        }
    } else {
        let x = (-change) * imu;
        assert(0 <= x && 0 <= x / im <= x) by (nonlinear_arith)
            requires
                -change >= 0,
                imu > 0,
                im > 0,
                x == (-change) * imu,
        ;
    }
}

/// Walking a non-positive portfolio change over the slots from `i` on
/// succeeds when every cross-margin position in `mint` has room for it.
proof fn lemma_change_walk_some_nonpositive(
    ps: Seq<UserPosition>,
    i: int,
    change: int,
    mint: Seq<u8>,
)
    requires
        0 <= i,
        i128::MIN < change <= 0,
        forall|j: int|
            0 <= j < ps.len() && cross_position_in(ps[j], mint) ==> change_fits(
                #[trigger] ps[j],
                change,
            ),
    ensures
        portfolio_change_walk(ps, i, change, change, mint) is Some,
    decreases ps.len() - i,
{
    if i >= ps.len() {
    } else if !cross_position_in(ps[i], mint) {
        lemma_change_walk_some_nonpositive(ps, i + 1, change, mint);
    } else {
        lemma_change_step_some(ps[i], change);
        lemma_change_step(ps[i], change);
        let (np, absorbed) = portfolio_change_step_spec(ps[i], change)->0;
        let ps1 = ps.update(i, np);
        if change + absorbed != 0 {
            assert(absorbed == 0);
            assert forall|j: int|
                0 <= j < ps1.len() && cross_position_in(ps1[j], mint) implies change_fits(
                #[trigger] ps1[j],
                change,
            ) by {
                if j != i {
                    assert(ps1[j] == ps[j]);
                }
            }
            lemma_change_walk_some_nonpositive(ps1, i + 1, change, mint);
        }
    }
}

/// Walking a positive portfolio change over the slots from `i` on, with
/// `remaining` still to absorb, succeeds when every cross-margin position
/// in `mint` has room for it and what is left cannot leave the `i128`
/// range after the remaining slots (each absorbs at most the change).
proof fn lemma_change_walk_some_positive(
    ps: Seq<UserPosition>,
    i: int,
    remaining: int,
    change: int,
    mint: Seq<u8>,
)
    requires
        0 <= i <= ps.len(),
        0 < change,
        change * ps.len() <= i128::MAX,
        change - i * change <= remaining <= change,
        forall|j: int|
            0 <= j < ps.len() && cross_position_in(ps[j], mint) ==> change_fits(
                #[trigger] ps[j],
                change,
            ),
    ensures
        portfolio_change_walk(ps, i, remaining, change, mint) is Some,
    decreases ps.len() - i,
{
    if i >= ps.len() {
    } else if !cross_position_in(ps[i], mint) {
        assert(change - (i + 1) * change == change - i * change - change) by (nonlinear_arith);
        lemma_change_walk_some_positive(ps, i + 1, remaining, change, mint);
    } else {
        lemma_change_step_some(ps[i], change);
        lemma_change_step(ps[i], change);
        let (np, absorbed) = portfolio_change_step_spec(ps[i], change)->0;
        let ps1 = ps.update(i, np);
        let rest = remaining - absorbed;
        let len = ps.len() as int;
        assert(change - (i + 1) * change == change - i * change - change) by (nonlinear_arith);
        assert((i + 1) * change <= change * len) by (nonlinear_arith)
            requires
                i + 1 <= len,
                change > 0,
                i >= 0,
        ;
        if rest != 0 {
            assert forall|j: int|
                0 <= j < ps1.len() && cross_position_in(ps1[j], mint) implies change_fits(
                #[trigger] ps1[j],
                change,
            ) by {
                if j != i {
                    assert(ps1[j] == ps[j]);
                } else {
                    let p = ps[j];
                    assert(cross_position_in(p, mint));
                    assert(change_fits(p, change));
                    let a = p.initial_margin_usd - ps1[j].initial_margin_usd_from_portfolio;
                    let b = p.initial_margin_usd - p.initial_margin_usd_from_portfolio;
                    let im = p.initial_margin as int;
                    assert(a * im <= b * im) by (nonlinear_arith)
                        requires
                            0 <= a <= b,
                            im > 0,
                    ;
                }
            }
            lemma_change_walk_some_positive(ps1, i + 1, rest, change, mint);
        }
    }
}

/// A portfolio change spread over an account's position slots succeeds when
/// every cross-margin position in `mint` has room for it and, for a
/// positive change, the change times the number of slots fits in an `i128`
/// (each position takes the whole change in turn, so what is left may run
/// below zero by the change once per slot).
pub proof fn lemma_portfolio_change_succeeds(ps: Seq<UserPosition>, change: int, mint: Seq<u8>)
    requires
        i128::MIN < change,
        change > 0 ==> change * ps.len() <= i128::MAX,
        forall|j: int|
            0 <= j < ps.len() && cross_position_in(ps[j], mint) ==> change_fits(
                #[trigger] ps[j],
                change,
            ),
    ensures
        portfolio_change_walk(ps, 0, change, change, mint) is Some,
{
    if change > 0 {
        lemma_change_walk_some_positive(ps, 0, change, change, mint);
    } else {
        lemma_change_walk_some_nonpositive(ps, 0, change, mint);
    }
}

/// Applies a portfolio change to one position (see
/// `portfolio_change_step_spec`); returns the amount absorbed.
fn portfolio_change_step(p: &mut UserPosition, change: i128) -> (r: BumpResult<u128>)
    ensures
        portfolio_change_step_spec(*old(p), change as int) matches Some((np, a)) ==> r == Ok::<
            u128,
            BumpErrorCode,
        >(a as u128) && *final(p) == np,
        portfolio_change_step_spec(*old(p), change as int) is None ==> r == Err::<
            u128,
            BumpErrorCode,
        >(BumpErrorCode::MathError),
{
    if change > 0i128 {
        let d = safe_sub_u(p.initial_margin_usd, p.initial_margin_usd_from_portfolio)?;
        let x = safe_mul_u(d, p.initial_margin)?;
        let borrowing_margin = safe_div_u(x, p.initial_margin_usd)?;
        let c = abs_to_u(change)?;
        let change_amount = if c <= borrowing_margin {
            c
        } else {
            borrowing_margin
        };
        let y = safe_mul_u(change_amount, p.initial_margin_usd)?;
        let add = safe_div_u(y, p.initial_margin)?;
        p.add_initial_margin_usd_from_portfolio(add)?;
        Ok(change_amount)
    } else {
        let c = abs_to_u(change)?;
        let y = safe_mul_u(c, p.initial_margin_usd)?;
        let add_borrow_margin_in_usd = safe_div_u(y, p.initial_margin)?;
        if p.initial_margin_usd_from_portfolio <= add_borrow_margin_in_usd {
            p.set_initial_margin_usd_from_portfolio(0u128)?;
            Ok(0u128)
        } else {
            p.sub_initial_margin_usd_from_portfolio(add_borrow_margin_in_usd)?;
            Ok(c)
        }
    }
}

/// Moves `amount` margin tokens of `mint` into (`add`) or out of the
/// portfolio part of one position (see `portfolio_balance_walk`); returns
/// the amount taken.
fn portfolio_balance_step(p: &mut UserPosition, amount: u128, add: bool) -> (r: BumpResult<u128>)
    ensures
        add ==> (portfolio_add_spec(*old(p), amount as int) matches Some((taken, nfp)) ==> r == Ok::<
            u128,
            BumpErrorCode,
        >(taken as u128) && *final(p) == (UserPosition {
            initial_margin_usd_from_portfolio: nfp as u128,
            ..*old(p)
        })),
        add ==> (portfolio_add_spec(*old(p), amount as int) is None ==> r == Err::<
            u128,
            BumpErrorCode,
        >(BumpErrorCode::MathError)),
        !add ==> ({
            let (er, np) = portfolio_reduce_spec(*old(p), amount as int);
            &&& er matches Ok(taken) ==> r == Ok::<u128, BumpErrorCode>(taken) && *final(p) == np
            &&& er matches Err(e) ==> r == Err::<u128, BumpErrorCode>(e)
        }),
        r is Err ==> r == Err::<u128, BumpErrorCode>(BumpErrorCode::MathError),
        r matches Ok(taken) ==> taken <= amount,
{
    if add {
        p.add_position_portfolio_balance(amount)
    } else {
        p.reduce_position_portfolio_balance(amount)
    }
}

/// Applies `portfolio_balance_walk` to a copy of the position slots.
pub(crate) fn apply_portfolio_balance(
    positions: &mut [UserPosition; 8],
    mint: &Pubkey,
    amount: u128,
    add: bool,
) -> (r: BumpResult<u128>)
    ensures
        portfolio_balance_walk(old(positions)@, 0, amount as int, mint@, add) matches Some((ps, left))
            ==> r == Ok::<u128, BumpErrorCode>(left as u128) && final(positions)@ == ps,
        portfolio_balance_walk(old(positions)@, 0, amount as int, mint@, add) is None ==> r
            == Err::<u128, BumpErrorCode>(BumpErrorCode::MathError),
{
    let mut rest = amount;
    let mut i: usize = 0;
    while i < 8
        invariant
            i <= 8,
            positions@.len() == 8,
            rest <= amount,
            portfolio_balance_walk(old(positions)@, 0, amount as int, mint@, add)
                == portfolio_balance_walk(positions@, i as int, rest as int, mint@, add),
        decreases 8 - i,
    {
        let mut p = positions[i];
        if p.status != PositionStatus::INIT && p.is_portfolio_margin && key_eq(
            &p.margin_mint_key,
            mint,
        ) && rest > 0 {
            let taken = portfolio_balance_step(&mut p, rest, add)?;
            rest = rest - taken;
            positions[i] = p;
        }
        i = i + 1;
    }
    Ok(rest)
}

impl User {
    /// Spreads a change of `change_token_amount` margin tokens of
    /// `token_mint` in the portfolio over the cross-margin positions in that
    /// token (see `portfolio_change_walk`); on failure nothing changes.
    pub fn update_all_position_from_portfolio_margin(
        &mut self,
        change_token_amount: i128,
        token_mint: &Pubkey,
    ) -> (r: BumpResult)
        ensures
            portfolio_change_walk(
                old(self).user_positions@,
                0,
                change_token_amount as int,
                change_token_amount as int,
                token_mint@,
            ) matches Some(ps) ==> r == Ok::<(), BumpErrorCode>(()) && final(self).user_positions@
                == ps && same_but_positions(*old(self), *final(self)),
            portfolio_change_walk(
                old(self).user_positions@,
                0,
                change_token_amount as int,
                change_token_amount as int,
                token_mint@,
            ) is None ==> r == Err::<(), BumpErrorCode>(BumpErrorCode::MathError) && *final(self)
                == *old(self),
    {
        let mut positions = self.user_positions;
        let mut reduce_amount = change_token_amount;
        let mut done = false;
        let mut i: usize = 0;
        while i < 8 && !done
            invariant
                i <= 8,
                positions@.len() == 8,
                !done ==> portfolio_change_walk(
                    old(self).user_positions@,
                    0,
                    change_token_amount as int,
                    change_token_amount as int,
                    token_mint@,
                ) == portfolio_change_walk(
                    positions@,
                    i as int,
                    reduce_amount as int,
                    change_token_amount as int,
                    token_mint@,
                ),
                done ==> portfolio_change_walk(
                    old(self).user_positions@,
                    0,
                    change_token_amount as int,
                    change_token_amount as int,
                    token_mint@,
                ) == Some(positions@),
            decreases 8 - i,
        {
            let mut p = positions[i];
            if p.status != PositionStatus::INIT && key_eq(&p.margin_mint_key, token_mint)
                && p.is_portfolio_margin {
                let change_amount = portfolio_change_step(&mut p, change_token_amount)?;
                let c = cast_to_i(change_amount)?;
                reduce_amount = if change_token_amount > 0i128 {
                    safe_sub_i(reduce_amount, c)?
                } else {
                    safe_add_i(reduce_amount, c)?
                };
                positions[i] = p;
                if reduce_amount == 0i128 {
                    done = true;
                }
            }
            i = i + 1;
        }
        self.user_positions = positions;
        Ok(())
    }

    /// Withdraws `amount` of `mint` from the portfolio: cross-margin
    /// positions in `mint` first give up the portfolio part of their margin
    /// for it (see `portfolio_balance_walk`), then what is left leaves the
    /// balance. On failure nothing changes.
    pub fn sub_user_token_amount(&mut self, mint: &Pubkey, amount: u128) -> (r: BumpResult)
        ensures
            ({
                let walk = portfolio_balance_walk(
                    old(self).user_positions@,
                    0,
                    amount as int,
                    mint@,
                    false,
                );
                match walk {
                    None => r == Err::<(), BumpErrorCode>(BumpErrorCode::MathError) && *final(self)
                        == *old(self),
                    Some((ps, left)) => if !has_token(*old(self), mint@) {
                        r == Err::<(), BumpErrorCode>(BumpErrorCode::CouldNotFindUserToken)
                            && *final(self) == *old(self)
                    } else {
                        let i = token_slot(*old(self), mint@);
                        let t = old(self).user_tokens@[i];
                        if t.amount >= left {
                            r == Ok::<(), BumpErrorCode>(()) && final(self).user_positions@ == ps
                                && final(self).user_tokens@ == old(self).user_tokens@.update(
                                i,
                                UserToken { amount: (t.amount - left) as u128, ..t },
                            ) && final(self).hold == old(self).hold && final(self).user_stakes
                                == old(self).user_stakes && final(self).user_orders
                                == old(self).user_orders && final(self).user_key
                                == old(self).user_key && final(self).authority
                                == old(self).authority && final(self).next_order_id
                                == old(self).next_order_id && final(self).next_liquidation_id
                                == old(self).next_liquidation_id
                        } else {
                            r == Err::<(), BumpErrorCode>(BumpErrorCode::MathError) && *final(self) == *old(self)
                        }
                    },
                }
            }),
    {
        let mut positions = self.user_positions;
        proof {
            lemma_balance_walk_bounds(positions@, 0, amount as int, mint@, false);
        }
        let left = apply_portfolio_balance(&mut positions, mint, amount, false)?;
        let idx = self.get_user_token_index(mint)?;
        proof {
            lemma_token_slot(*self, mint@, idx as int);
        }
        let mut t = self.user_tokens[idx];
        t.sub_amount(left)?;
        self.user_tokens[idx] = t;
        self.user_positions = positions;
        Ok(())
    }

    /// Whether the account has a cross-margin position in use.
    pub fn cross_used(&self) -> (r: BumpResult<bool>)
        ensures
            r == Ok::<bool, BumpErrorCode>(
                exists|i: int|
                    0 <= i < 8 && (#[trigger] self.user_positions@[i]).status
                        != PositionStatus::INIT && self.user_positions@[i].is_portfolio_margin,
            ),
    {
        let mut i: usize = 0;
        while i < 8
            invariant
                i <= 8,
                forall|j: int|
                    0 <= j < i ==> !((#[trigger] self.user_positions@[j]).status
                        != PositionStatus::INIT && self.user_positions@[j].is_portfolio_margin),
            decreases 8 - i,
        {
            let p = &self.user_positions[i];
            if p.status != PositionStatus::INIT && p.is_portfolio_margin {
                return Ok(true);
            }
            i = i + 1;
        }
        Ok(false)
    }
}

} // verus!
