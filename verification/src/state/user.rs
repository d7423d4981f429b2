//! A user account: token balances, stakes, positions and orders, each held
//! in a fixed number of slots.
use vstd::prelude::*;

use crate::errors::{BumpErrorCode, BumpResult};
use crate::math::{fits_u, safe_add_u, safe_sub_u};
use crate::pubkey::{key_eq, zero_key, Pubkey};
use crate::state::infrastructure::user_order::{
    empty_order_spec, is_empty_order, lemma_empty_order_unique, OrderSide, OrderStatus, OrderType, PositionSide, UserOrder,
};
use crate::state::infrastructure::user_position::{
    is_blank_position, is_empty_position, PositionStatus, UserPosition,
};
use crate::state::infrastructure::user_stake::{UserRewards, UserStake, UserStakeStatus};
use crate::state::infrastructure::user_token::{is_empty_token, UserToken, UserTokenStatus};
use crate::state::trade_token::TradeToken;

verus! {

/// Number of token slots of a user.
pub const USER_TOKEN_SLOTS: usize = 12usize;

/// Number of stake slots of a user.
pub const USER_STAKE_SLOTS: usize = 12usize;

/// Number of position slots of a user.
pub const USER_POSITION_SLOTS: usize = 8usize;

/// Number of order slots of a user.
pub const USER_ORDER_SLOTS: usize = 8usize;

/// A user account.
#[derive(Clone, Copy, Debug)]
pub struct User {
    pub next_order_id: u64,
    pub next_liquidation_id: u64,
    /// Margin (USD) reserved by pending cross-margin orders.
    pub hold: u128,
    pub user_tokens: [UserToken; 12],
    pub user_stakes: [UserStake; 12],
    pub user_positions: [UserPosition; 8],
    pub user_orders: [UserOrder; 8],
    pub user_key: Pubkey,
    pub authority: Pubkey,
}

/// Why a token balance changed.
#[derive(Clone, Copy, Debug, PartialEq, Eq, Structural)]
pub enum UserTokenUpdateReason {
    DEFAULT,
    DEPOSIT,
    WITHDRAW,
    SettleFee,
    SettlePnl,
    DecreasePosition,
    IncreasePosition,
    UpdateLeverage,
    CollectOpenFee,
    CollectCloseFee,
    TransferToStake,
    TransferFromStake,
    LiquidateLiability,
    Liquidation,
}

impl Default for UserTokenUpdateReason {
    fn default() -> (r: Self)
        ensures
            r == UserTokenUpdateReason::DEFAULT,
    {
        UserTokenUpdateReason::DEFAULT
    }
}

// ---------------------------------------------------------------------------
// Model
// ---------------------------------------------------------------------------

/// The slot holds the balance of `mint`.
pub open spec fn token_for(t: UserToken, mint: Seq<u8>) -> bool {
    t.user_token_status == UserTokenStatus::USING && t.token_mint_key@ == mint
}

/// `i` is the first slot holding the balance of `mint`.
pub open spec fn is_first_token(u: User, mint: Seq<u8>, i: int) -> bool {
    &&& 0 <= i < 12
    &&& token_for(u.user_tokens@[i], mint)
    &&& forall|j: int| 0 <= j < i ==> !token_for(#[trigger] u.user_tokens@[j], mint)
}

/// Some slot holds the balance of `mint`.
pub open spec fn has_token(u: User, mint: Seq<u8>) -> bool {
    exists|i: int| 0 <= i < 12 && token_for(#[trigger] u.user_tokens@[i], mint)
}

/// The slot holds the stake in pool `pool_key`.
pub open spec fn stake_for(s: UserStake, pool_key: Seq<u8>) -> bool {
    s.user_stake_status == UserStakeStatus::USING && s.pool_key@ == pool_key
}

/// `i` is the first slot holding the stake in `pool_key`.
pub open spec fn is_first_stake(u: User, pool_key: Seq<u8>, i: int) -> bool {
    &&& 0 <= i < 12
    &&& stake_for(u.user_stakes@[i], pool_key)
    &&& forall|j: int| 0 <= j < i ==> !stake_for(#[trigger] u.user_stakes@[j], pool_key)
}

/// Some slot holds the stake in `pool_key`.
pub open spec fn has_stake(u: User, pool_key: Seq<u8>) -> bool {
    exists|i: int| 0 <= i < 12 && stake_for(#[trigger] u.user_stakes@[i], pool_key)
}

/// The slot holds the pending order `order_id`.
pub open spec fn order_for(o: UserOrder, order_id: u64) -> bool {
    o.status == OrderStatus::USING && o.order_id == order_id
}

/// `i` is the first slot holding the pending order `order_id`.
pub open spec fn is_first_order(u: User, order_id: u64, i: int) -> bool {
    &&& 0 <= i < 8
    &&& order_for(u.user_orders@[i], order_id)
    &&& forall|j: int| 0 <= j < i ==> !order_for(#[trigger] u.user_orders@[j], order_id)
}

/// Some slot holds the pending order `order_id`.
pub open spec fn has_order(u: User, order_id: u64) -> bool {
    exists|i: int| 0 <= i < 8 && order_for(#[trigger] u.user_orders@[i], order_id)
}

/// The slot holds the open position `position_key`.
pub open spec fn position_for(p: UserPosition, position_key: Seq<u8>) -> bool {
    p.status == PositionStatus::USING && p.position_key@ == position_key
}

/// `i` is the first slot holding the open position `position_key`.
pub open spec fn is_first_position(u: User, position_key: Seq<u8>, i: int) -> bool {
    &&& 0 <= i < 8
    &&& position_for(u.user_positions@[i], position_key)
    &&& forall|j: int| 0 <= j < i ==> !position_for(#[trigger] u.user_positions@[j], position_key)
}

/// Some slot holds the open position `position_key`.
pub open spec fn has_position(u: User, position_key: Seq<u8>) -> bool {
    exists|i: int| 0 <= i < 8 && position_for(#[trigger] u.user_positions@[i], position_key)
}

/// `i` is the first slot (in use or not) whose position key is `key`.
pub open spec fn is_first_keyed_position(u: User, key: Seq<u8>, i: int) -> bool {
    &&& 0 <= i < 8
    &&& u.user_positions@[i].position_key@ == key
    &&& forall|j: int| 0 <= j < i ==> (#[trigger] u.user_positions@[j]).position_key@ != key
}

/// `i` is the first free token slot.
pub open spec fn is_first_free_token(u: User, i: int) -> bool {
    &&& 0 <= i < 12
    &&& u.user_tokens@[i].user_token_status == UserTokenStatus::INIT
    &&& forall|j: int|
        0 <= j < i ==> (#[trigger] u.user_tokens@[j]).user_token_status != UserTokenStatus::INIT
}

/// `i` is the first free stake slot.
pub open spec fn is_first_free_stake(u: User, i: int) -> bool {
    &&& 0 <= i < 12
    &&& u.user_stakes@[i].user_stake_status == UserStakeStatus::INIT
    &&& forall|j: int|
        0 <= j < i ==> (#[trigger] u.user_stakes@[j]).user_stake_status != UserStakeStatus::INIT
}

/// `i` is the first free position slot.
pub open spec fn is_first_free_position(u: User, i: int) -> bool {
    &&& 0 <= i < 8
    &&& u.user_positions@[i].status == PositionStatus::INIT
    &&& forall|j: int| 0 <= j < i ==> (#[trigger] u.user_positions@[j]).status != PositionStatus::INIT
}

/// `i` is the first free order slot.
pub open spec fn is_first_free_order(u: User, i: int) -> bool {
    &&& 0 <= i < 8
    &&& u.user_orders@[i].status == OrderStatus::INIT
    &&& forall|j: int| 0 <= j < i ==> (#[trigger] u.user_orders@[j]).status != OrderStatus::INIT
}

/// `v` is `u` with only the token slots changed.
pub open spec fn same_but_tokens(u: User, v: User) -> bool {
    &&& v.next_order_id == u.next_order_id && v.next_liquidation_id == u.next_liquidation_id
    &&& v.hold == u.hold && v.user_stakes == u.user_stakes && v.user_positions == u.user_positions
    &&& v.user_orders == u.user_orders && v.user_key == u.user_key && v.authority == u.authority
}

/// `v` is `u` with only the stake slots changed.
pub open spec fn same_but_stakes(u: User, v: User) -> bool {
    &&& v.next_order_id == u.next_order_id && v.next_liquidation_id == u.next_liquidation_id
    &&& v.hold == u.hold && v.user_tokens == u.user_tokens && v.user_positions == u.user_positions
    &&& v.user_orders == u.user_orders && v.user_key == u.user_key && v.authority == u.authority
}

/// `v` is `u` with only the position slots changed.
pub open spec fn same_but_positions(u: User, v: User) -> bool {
    &&& v.next_order_id == u.next_order_id && v.next_liquidation_id == u.next_liquidation_id
    &&& v.hold == u.hold && v.user_tokens == u.user_tokens && v.user_stakes == u.user_stakes
    &&& v.user_orders == u.user_orders && v.user_key == u.user_key && v.authority == u.authority
}

/// `v` is `u` with only the order slots and the order hold changed.
pub open spec fn same_but_orders(u: User, v: User) -> bool {
    &&& v.next_order_id == u.next_order_id && v.next_liquidation_id == u.next_liquidation_id
    &&& v.user_tokens == u.user_tokens && v.user_stakes == u.user_stakes
    &&& v.user_positions == u.user_positions && v.user_key == u.user_key
    &&& v.authority == u.authority
}

/// A token slot newly taken for `mint`.
pub open spec fn new_token_slot(t: UserToken, mint: Seq<u8>, account: Seq<u8>) -> bool {
    &&& t.amount == 0 && t.used_amount == 0 && t.liability_amount == 0
    &&& t.token_mint_key@ == mint && t.user_token_account_key@ == account
    &&& t.user_token_status == UserTokenStatus::USING
}

/// The balance `(amount, liability)` after a debit of `x` that may run
/// into debt: what the balance cannot cover becomes a liability (and is
/// marked as used).
pub open spec fn debit_spec(t: UserToken, x: int) -> UserToken {
    if t.amount >= x {
        UserToken { amount: (t.amount - x) as u128, ..t }
    } else if t.amount > 0 {
        UserToken {
            liability_amount: (t.liability_amount + (x - t.amount)) as u128,
            used_amount: (t.used_amount + (x - t.amount)) as u128,
            amount: 0,
            ..t
        }
    } else {
        UserToken {
            liability_amount: (t.liability_amount + x) as u128,
            used_amount: (t.used_amount + x) as u128,
            ..t
        }
    }
}

/// The liability a debit of `x` creates.
pub open spec fn debit_liability_spec(t: UserToken, x: int) -> int {
    if t.amount >= x {
        0
    } else {
        x - t.amount
    }
}

/// The first slot holding the balance of `mint` (meaningful when there is
/// one).
pub open spec fn token_slot(u: User, mint: Seq<u8>) -> int {
    choose|i: int| is_first_token(u, mint, i)
}

/// The first slot holding the stake in `pool_key`.
pub open spec fn stake_slot(u: User, pool_key: Seq<u8>) -> int {
    choose|i: int| is_first_stake(u, pool_key, i)
}

/// The first slot holding the pending order `order_id`.
pub open spec fn order_slot(u: User, order_id: u64) -> int {
    choose|i: int| is_first_order(u, order_id, i)
}

/// The first slot holding the open position `position_key`.
pub open spec fn position_slot(u: User, position_key: Seq<u8>) -> int {
    choose|i: int| is_first_position(u, position_key, i)
}

/// The first slot keyed `key`, in use or not.
pub open spec fn keyed_position_slot(u: User, key: Seq<u8>) -> int {
    choose|i: int| is_first_keyed_position(u, key, i)
}

/// The first free token slot.
pub open spec fn free_token_slot(u: User) -> int {
    choose|i: int| is_first_free_token(u, i)
}

/// The first free position slot.
pub open spec fn free_position_slot(u: User) -> int {
    choose|i: int| is_first_free_position(u, i)
}

/// Some position slot is free.
pub open spec fn has_free_position_slot(u: User) -> bool {
    exists|i: int| 0 <= i < 8 && (#[trigger] u.user_positions@[i]).status == PositionStatus::INIT
}

/// `i` is the first free position slot.
pub(crate) proof fn lemma_free_position_slot(u: User, i: int)
    requires
        is_first_free_position(u, i),
    ensures
        free_position_slot(u) == i,
{
    let k = free_position_slot(u);
    assert(is_first_free_position(u, k));
    if k < i {
        assert(u.user_positions@[k].status != PositionStatus::INIT);
    } else if k > i {
        assert(u.user_positions@[i].status != PositionStatus::INIT);
    }
}

/// First free stake slot.
pub open spec fn free_stake_slot(u: User) -> int {
    choose|i: int| is_first_free_stake(u, i)
}

/// Some stake slot is free.
pub open spec fn has_free_stake_slot(u: User) -> bool {
    exists|i: int|
        0 <= i < 12 && (#[trigger] u.user_stakes@[i]).user_stake_status == UserStakeStatus::INIT
}

/// A stake just opened in pool `pool_key`, its rewards cursor at `cursor`.
pub open spec fn is_fresh_stake(s: UserStake, pool_key: Seq<u8>, cursor: int) -> bool {
    &&& s.staked_share == 0
    &&& s.user_rewards.total_claim_rewards_amount == 0
    &&& s.user_rewards.realised_rewards_token_amount == 0
    &&& s.user_rewards.open_rewards_per_stake_token == cursor
    &&& s.user_rewards.token_key@ == zero_key()
    &&& s.pool_key@ == pool_key
    &&& s.user_stake_status == UserStakeStatus::USING
}

/// Slot of the stake in `pool_key` once it is opened: the existing one,
/// else the first free one.
pub open spec fn open_stake_slot(u: User, pool_key: Seq<u8>) -> int {
    if has_stake(u, pool_key) {
        stake_slot(u, pool_key)
    } else {
        free_stake_slot(u)
    }
}

/// `i` is the first free stake slot.
pub(crate) proof fn lemma_free_stake_slot(u: User, i: int)
    requires
        is_first_free_stake(u, i),
    ensures
        free_stake_slot(u) == i,
{
    let k = free_stake_slot(u);
    assert(is_first_free_stake(u, k));
    if k < i {
        assert(u.user_stakes@[k].user_stake_status != UserStakeStatus::INIT);
    } else if k > i {
        assert(u.user_stakes@[i].user_stake_status != UserStakeStatus::INIT);
    }
}

/// Some token slot is free.
pub open spec fn has_free_token_slot(u: User) -> bool {
    exists|i: int| 0 <= i < 12 && (#[trigger] u.user_tokens@[i]).user_token_status == UserTokenStatus::INIT
}

pub(crate) proof fn lemma_token_slot(u: User, mint: Seq<u8>, i: int)
    requires
        is_first_token(u, mint, i),
    ensures
        token_slot(u, mint) == i,
{
    let k = token_slot(u, mint);
    assert(is_first_token(u, mint, k));
    if k < i {
        assert(!token_for(u.user_tokens@[k], mint));
    } else if k > i {
        assert(!token_for(u.user_tokens@[i], mint));
    }
}

/// A balance of `mint` exists only if a first one does, in `token_slot`.
pub(crate) proof fn lemma_has_token_slot(u: User, mint: Seq<u8>)
    requires
        has_token(u, mint),
    ensures
        is_first_token(u, mint, token_slot(u, mint)),
{
    let k = choose|k: int| 0 <= k < 12 && token_for(#[trigger] u.user_tokens@[k], mint);
    lemma_first_token_below(u, mint, k);
}

/// A free token slot exists only if a first one does, in `free_token_slot`.
pub(crate) proof fn lemma_has_free_token_slot(u: User)
    requires
        has_free_token_slot(u),
    ensures
        is_first_free_token(u, free_token_slot(u)),
{
    let k = choose|k: int|
        0 <= k < 12 && (#[trigger] u.user_tokens@[k]).user_token_status == UserTokenStatus::INIT;
    lemma_first_free_token_below(u, k);
}

proof fn lemma_first_free_token_below(u: User, k: int)
    requires
        0 <= k < 12,
        u.user_tokens@[k].user_token_status == UserTokenStatus::INIT,
    ensures
        exists|i: int| is_first_free_token(u, i),
    decreases k,
{
    if forall|j: int|
        0 <= j < k ==> (#[trigger] u.user_tokens@[j]).user_token_status != UserTokenStatus::INIT {
        assert(is_first_free_token(u, k));
    } else {
        let j = choose|j: int|
            0 <= j < k && (#[trigger] u.user_tokens@[j]).user_token_status == UserTokenStatus::INIT;
        lemma_first_free_token_below(u, j);
    }
}

/// A pending order `order_id` exists only if a first one does, in
/// `order_slot`.
pub(crate) proof fn lemma_has_order_slot(u: User, order_id: u64, k: int)
    requires
        0 <= k < 8,
        order_for(u.user_orders@[k], order_id),
    ensures
        is_first_order(u, order_id, order_slot(u, order_id)),
    decreases k,
{
    if forall|j: int| 0 <= j < k ==> !order_for(#[trigger] u.user_orders@[j], order_id) {
        assert(is_first_order(u, order_id, k));
    } else {
        let j = choose|j: int| 0 <= j < k && order_for(#[trigger] u.user_orders@[j], order_id);
        lemma_has_order_slot(u, order_id, j);
    }
}

proof fn lemma_first_token_below(u: User, mint: Seq<u8>, k: int)
    requires
        0 <= k < 12,
        token_for(u.user_tokens@[k], mint),
    ensures
        exists|i: int| is_first_token(u, mint, i),
    decreases k,
{
    if forall|j: int| 0 <= j < k ==> !token_for(#[trigger] u.user_tokens@[j], mint) {
        assert(is_first_token(u, mint, k));
    } else {
        let j = choose|j: int| 0 <= j < k && token_for(#[trigger] u.user_tokens@[j], mint);
        lemma_first_token_below(u, mint, j);
    }
}

/// A slot keyed `key` exists only if a first one does, in
/// `keyed_position_slot`.
pub(crate) proof fn lemma_has_keyed_slot(u: User, key: Seq<u8>, k: int)
    requires
        0 <= k < 8,
        u.user_positions@[k].position_key@ == key,
    ensures
        is_first_keyed_position(u, key, keyed_position_slot(u, key)),
    decreases k,
{
    if forall|j: int| 0 <= j < k ==> (#[trigger] u.user_positions@[j]).position_key@ != key {
        assert(is_first_keyed_position(u, key, k));
    } else {
        let j = choose|j: int| 0 <= j < k && (#[trigger] u.user_positions@[j]).position_key@ == key;
        lemma_has_keyed_slot(u, key, j);
    }
}

/// A stake in `pool_key` exists only if a first one does, in `stake_slot`.
pub(crate) proof fn lemma_has_stake_slot(u: User, pool_key: Seq<u8>, k: int)
    requires
        0 <= k < 12,
        stake_for(u.user_stakes@[k], pool_key),
    ensures
        is_first_stake(u, pool_key, stake_slot(u, pool_key)),
    decreases k,
{
    if forall|j: int| 0 <= j < k ==> !stake_for(#[trigger] u.user_stakes@[j], pool_key) {
        assert(is_first_stake(u, pool_key, k));
    } else {
        let j = choose|j: int| 0 <= j < k && stake_for(#[trigger] u.user_stakes@[j], pool_key);
        lemma_has_stake_slot(u, pool_key, j);
    }
}

pub(crate) proof fn lemma_stake_slot(u: User, pool_key: Seq<u8>, i: int)
    requires
        is_first_stake(u, pool_key, i),
    ensures
        stake_slot(u, pool_key) == i,
{
    let k = stake_slot(u, pool_key);
    assert(is_first_stake(u, pool_key, k));
    if k < i {
        assert(!stake_for(u.user_stakes@[k], pool_key));
    } else if k > i {
        assert(!stake_for(u.user_stakes@[i], pool_key));
    }
}

pub(crate) proof fn lemma_order_slot(u: User, order_id: u64, i: int)
    requires
        is_first_order(u, order_id, i),
    ensures
        order_slot(u, order_id) == i,
{
    let k = order_slot(u, order_id);
    assert(is_first_order(u, order_id, k));
    if k < i {
        assert(!order_for(u.user_orders@[k], order_id));
    } else if k > i {
        assert(!order_for(u.user_orders@[i], order_id));
    }
}

pub(crate) proof fn lemma_position_slot(u: User, position_key: Seq<u8>, i: int)
    requires
        is_first_position(u, position_key, i),
    ensures
        position_slot(u, position_key) == i,
{
    let k = position_slot(u, position_key);
    assert(is_first_position(u, position_key, k));
    if k < i {
        assert(!position_for(u.user_positions@[k], position_key));
    } else if k > i {
        assert(!position_for(u.user_positions@[i], position_key));
    }
}

pub(crate) proof fn lemma_keyed_position_slot(u: User, key: Seq<u8>, i: int)
    requires
        is_first_keyed_position(u, key, i),
    ensures
        keyed_position_slot(u, key) == i,
{
    let k = keyed_position_slot(u, key);
    assert(is_first_keyed_position(u, key, k));
    if k < i {
        assert(u.user_positions@[k].position_key@ != key);
    } else if k > i {
        assert(u.user_positions@[i].position_key@ != key);
    }
}

proof fn lemma_free_token_slot(u: User, i: int)
    requires
        is_first_free_token(u, i),
    ensures
        free_token_slot(u) == i,
{
    let k = free_token_slot(u);
    assert(is_first_free_token(u, k));
    if k < i {
        assert(u.user_tokens@[k].user_token_status != UserTokenStatus::INIT);
    } else if k > i {
        assert(u.user_tokens@[i].user_token_status != UserTokenStatus::INIT);
    }
}

/// `v` is `u` with the token slot `i` replaced by `t`.
pub open spec fn with_token(u: User, v: User, i: int, t: UserToken) -> bool {
    v.user_tokens@ == u.user_tokens@.update(i, t) && same_but_tokens(u, v)
}

/// Outcome of using `amount` of a balance as margin: the used amount grows
/// by `amount`; the result is the part covered by the free balance.
/// `is_check` refuses a balance that is already overdrawn.
pub open spec fn use_token_spec(t: UserToken, amount: int, is_check: bool) -> (BumpResult<u128>, UserToken) {
    if is_check && t.amount < t.used_amount {
        (Err(BumpErrorCode::AmountNotEnough), t)
    } else if !fits_u(t.used_amount + amount) {
        (Err(BumpErrorCode::MathError), t)
    } else {
        let from_balance = if t.amount >= t.used_amount + amount {
            amount
        } else if t.amount > t.used_amount {
            t.amount - t.used_amount
        } else {
            0
        };
        (Ok(from_balance as u128), UserToken { used_amount: (t.used_amount + amount) as u128, ..t })
    }
}

/// A fresh balance slot for `mint`.
pub open spec fn fresh_token(mint: Seq<u8>, account: Seq<u8>, t: UserToken) -> bool {
    new_token_slot(t, mint, account)
}


/// Outcome of repaying a balance's liability from its amount: as much as
/// both cover leaves the amount, the liability and the used amount.
pub open spec fn repay_spec(t: UserToken) -> (BumpResult<u128>, UserToken) {
    if t.liability_amount > 0 && t.amount > 0 {
        let repay = if t.amount >= t.liability_amount {
            t.liability_amount
        } else {
            t.amount
        };
        let t1 = UserToken {
            amount: (t.amount - repay) as u128,
            liability_amount: (t.liability_amount - repay) as u128,
            ..t
        };
        if t.used_amount >= repay {
            (Ok(repay as u128), UserToken { used_amount: (t.used_amount - repay) as u128, ..t1 })
        } else {
            (Err(BumpErrorCode::MathError), t1)
        }
    } else {
        (Ok(0u128), t)
    }
}

/// Outcome of a debit of `x` that may run into debt, on the balance and on
/// the token's totals: `(result, balance, token)`. A liability is added to
/// the balance's liability and used amount, then recorded on the token.
pub open spec fn debit_with_liability_spec(t: UserToken, tt: TradeToken, x: int) -> (
    BumpResult<u128>,
    UserToken,
    TradeToken,
) {
    let err = Err::<u128, BumpErrorCode>(BumpErrorCode::MathError);
    if t.amount >= x {
        (Ok(0u128), UserToken { amount: (t.amount - x) as u128, ..t }, tt)
    } else {
        let liability = if t.amount > 0 {
            x - t.amount
        } else {
            x
        };
        if !fits_u(t.liability_amount + liability) {
            (err, t, tt)
        } else {
            let t1 = UserToken { liability_amount: (t.liability_amount + liability) as u128, ..t };
            if !fits_u(t.used_amount + liability) {
                (err, t1, tt)
            } else {
                let t2 = UserToken {
                    used_amount: (t.used_amount + liability) as u128,
                    amount: 0,
                    ..t1
                };
                if !fits_u(tt.total_liability + liability) {
                    (err, t2, tt)
                } else {
                    (
                        Ok(liability as u128),
                        t2,
                        TradeToken { total_amount: (tt.total_liability + liability) as u128, ..tt },
                    )
                }
            }
        }
    }
}


/// The order is a pending stop order of the same market, margin token and
/// margin mode, other than `order_id`.
pub open spec fn is_stop_order_to_cancel(
    o: UserOrder,
    order_id: u64,
    symbol: Seq<u8>,
    margin_token: Seq<u8>,
    is_cross_margin: bool,
) -> bool {
    &&& o.status == OrderStatus::USING
    &&& o.order_id != order_id
    &&& o.symbol@ == symbol
    &&& o.margin_mint_key@ == margin_token
    &&& o.order_type == OrderType::STOP
    &&& o.is_portfolio_margin == is_cross_margin
}

/// The first slot from `k` on holding the pending order `order_id`.
pub open spec fn pending_slot_from(os: Seq<UserOrder>, order_id: u64, k: int) -> Option<int>
    decreases os.len() - k,
{
    if k < 0 || k >= os.len() {
        None
    } else if order_for(os[k], order_id) {
        Some(k)
    } else {
        pending_slot_from(os, order_id, k + 1)
    }
}

/// The orders with the first pending order `order_id` removed; `None`
/// when no order `order_id` is pending.
pub open spec fn remove_pending(os: Seq<UserOrder>, order_id: u64) -> Option<Seq<UserOrder>> {
    match pending_slot_from(os, order_id, 0) {
        None => None,
        Some(k) => Some(os.update(k, empty_order_spec())),
    }
}

/// Outcome of cancelling stop orders: each order of `copy` (the orders as
/// they were) from `j` on that is a stop order to cancel removes, from the
/// current orders `cur`, the first pending order with its id; a removal
/// that finds no such order fails.
pub open spec fn cancel_stop_walk(
    copy: Seq<UserOrder>,
    cur: Seq<UserOrder>,
    j: int,
    order_id: u64,
    symbol: Seq<u8>,
    margin_token: Seq<u8>,
    is_cross_margin: bool,
) -> Result<Seq<UserOrder>, BumpErrorCode>
    decreases copy.len() - j,
{
    if j < 0 || j >= copy.len() {
        Ok(cur)
    } else if is_stop_order_to_cancel(copy[j], order_id, symbol, margin_token, is_cross_margin) {
        match remove_pending(cur, copy[j].order_id) {
            None => Err(BumpErrorCode::CouldNotFindUserOrder),
            Some(next) => cancel_stop_walk(
                copy,
                next,
                j + 1,
                order_id,
                symbol,
                margin_token,
                is_cross_margin,
            ),
        }
    } else {
        cancel_stop_walk(copy, cur, j + 1, order_id, symbol, margin_token, is_cross_margin)
    }
}

/// What `pending_slot_from` finds is the first pending slot from `k` on.
proof fn lemma_pending_slot_from(os: Seq<UserOrder>, order_id: u64, k: int)
    requires
        0 <= k <= os.len(),
    ensures
        pending_slot_from(os, order_id, k) matches Some(m) ==> k <= m < os.len() && order_for(
            os[m],
            order_id,
        ) && forall|j: int| k <= j < m ==> !order_for(#[trigger] os[j], order_id),
        pending_slot_from(os, order_id, k) is None ==> forall|j: int|
            k <= j < os.len() ==> !order_for(#[trigger] os[j], order_id),
    decreases os.len() - k,
{
    if k < os.len() {
        lemma_pending_slot_from(os, order_id, k + 1);
    }
}

/// The first pending slot of the orders is the account's order slot.
pub(crate) proof fn lemma_pending_slot(u: User, order_id: u64)
    ensures
        pending_slot_from(u.user_orders@, order_id, 0) matches Some(k) ==> has_order(u, order_id)
            && order_slot(u, order_id) == k,
        pending_slot_from(u.user_orders@, order_id, 0) is None ==> !has_order(u, order_id),
{
    lemma_pending_slot_from(u.user_orders@, order_id, 0);
    if let Some(k) = pending_slot_from(u.user_orders@, order_id, 0) {
        assert(is_first_order(u, order_id, k));
        lemma_order_slot(u, order_id, k);
    }
}

/// The order is an increasing short order of the market, margin token and
/// margin mode (in any slot state).
pub open spec fn is_other_short_order(
    o: UserOrder,
    symbol: Seq<u8>,
    margin_token: Seq<u8>,
    is_cross_margin: bool,
) -> bool {
    &&& o.symbol@ == symbol
    &&& o.margin_mint_key@ == margin_token
    &&& o.is_portfolio_margin == is_cross_margin
    &&& o.position_side == PositionSide::INCREASE
    &&& o.order_side == OrderSide::SHORT
}

/// The order is a decreasing order of the market on `order_side` in the
/// margin mode (in any slot state).
pub open spec fn is_leverage_order(
    o: UserOrder,
    symbol: Seq<u8>,
    order_side: OrderSide,
    is_cross_margin: bool,
) -> bool {
    &&& o.symbol@ == symbol
    &&& o.order_side == order_side
    &&& o.position_side == PositionSide::DECREASE
    &&& o.is_portfolio_margin == is_cross_margin
}

/// The pending order follows the leverage of the position `(symbol,
/// margin_token, is_long, is_cross_margin)`: increasing orders on its side,
/// and orders whose long-ness differs from being a decrease.
pub open spec fn follows_position_leverage(
    o: UserOrder,
    symbol: Seq<u8>,
    margin_token: Seq<u8>,
    is_long: bool,
    is_cross_margin: bool,
) -> bool {
    let is_long_order = o.order_side == OrderSide::LONG;
    &&& o.status == OrderStatus::USING
    &&& o.is_portfolio_margin == is_cross_margin
    &&& o.symbol@ == symbol
    &&& o.margin_mint_key@ == margin_token
    &&& ((is_long_order == is_long && o.position_side == PositionSide::INCREASE) || (is_long_order
        != (o.position_side == PositionSide::DECREASE)))
}

// ---------------------------------------------------------------------------
// Slot lookup
// ---------------------------------------------------------------------------

impl User {
    /// First slot holding the balance of `token_mint`.
    pub fn get_user_token_index(&self, token_mint: &Pubkey) -> (r: BumpResult<usize>)
        ensures
            r matches Ok(i) ==> is_first_token(*self, token_mint@, i as int),
            r is Err <==> !has_token(*self, token_mint@),
            r is Err ==> r == Err::<usize, BumpErrorCode>(BumpErrorCode::CouldNotFindUserToken),
    {
        let mut i: usize = 0;
        while i < 12
            invariant
                i <= 12,
                forall|j: int| 0 <= j < i ==> !token_for(#[trigger] self.user_tokens@[j], token_mint@),
            decreases 12 - i,
        {
            let t = &self.user_tokens[i];
            if t.user_token_status == UserTokenStatus::USING && key_eq(&t.token_mint_key, token_mint) {
                return Ok(i);
            }
            i = i + 1;
        }
        Err(BumpErrorCode::CouldNotFindUserToken)
    }

    /// The balance of `token_mint`.
    pub fn get_user_token_ref(&self, token_mint: &Pubkey) -> (r: BumpResult<&UserToken>)
        ensures
            r matches Ok(t) ==> exists|i: int|
                is_first_token(*self, token_mint@, i) && *t == self.user_tokens@[i],
            r is Err <==> !has_token(*self, token_mint@),
            r is Err ==> r == Err::<&UserToken, BumpErrorCode>(BumpErrorCode::CouldNotFindUserToken),
    {
        let i = self.get_user_token_index(token_mint)?;
        Ok(&self.user_tokens[i])
    }

    /// The balance of `token_mint`, for update.
    pub fn get_user_token_mut_ref(&mut self, token_mint: &Pubkey) -> (r: BumpResult<&mut UserToken>)
        ensures
            r matches Ok(t) ==> exists|i: int|
                is_first_token(*old(self), token_mint@, i) && *t == old(self).user_tokens@[i]
                    && final(self).user_tokens@ == old(self).user_tokens@.update(i, *final(t))
                    && same_but_tokens(*old(self), *final(self)),
            r is Err <==> !has_token(*old(self), token_mint@),
            r is Err ==> r == Err::<&mut UserToken, BumpErrorCode>(
                BumpErrorCode::CouldNotFindUserToken,
            ) && *final(self) == *old(self),
    {
        let i = self.get_user_token_index(token_mint)?;
        Ok(&mut self.user_tokens[i])
    }

    /// First free token slot.
    pub fn next_usable_user_token_index(&self) -> (r: BumpResult<usize>)
        ensures
            r matches Ok(i) ==> is_first_free_token(*self, i as int),
            r is Err <==> forall|j: int|
                0 <= j < 12 ==> (#[trigger] self.user_tokens@[j]).user_token_status
                    != UserTokenStatus::INIT,
            r is Err ==> r == Err::<usize, BumpErrorCode>(BumpErrorCode::NoMoreUserTokenSpace),
    {
        let mut i: usize = 0;
        while i < 12
            invariant
                i <= 12,
                forall|j: int|
                    0 <= j < i ==> (#[trigger] self.user_tokens@[j]).user_token_status
                        != UserTokenStatus::INIT,
            decreases 12 - i,
        {
            if self.user_tokens[i].user_token_status == UserTokenStatus::INIT {
                return Ok(i);
            }
            i = i + 1;
        }
        Err(BumpErrorCode::NoMoreUserTokenSpace)
    }

    /// Takes the first free token slot for `token_mint`.
    pub fn add_user_token(&mut self, token_mint: &Pubkey, user_token_account_key: &Pubkey) -> (r:
        BumpResult<usize>)
        ensures
            r matches Ok(i) ==> is_first_free_token(*old(self), i as int) && new_token_slot(
                final(self).user_tokens@[i as int],
                token_mint@,
                user_token_account_key@,
            ) && final(self).user_tokens@ == old(self).user_tokens@.update(
                i as int,
                final(self).user_tokens@[i as int],
            ) && same_but_tokens(*old(self), *final(self)),
            r is Err ==> r == Err::<usize, BumpErrorCode>(BumpErrorCode::NoMoreUserTokenSpace)
                && *final(self) == *old(self),
            r is Err <==> forall|j: int|
                0 <= j < 12 ==> (#[trigger] old(self).user_tokens@[j]).user_token_status
                    != UserTokenStatus::INIT,
    {
        let new_user_token_index = self.next_usable_user_token_index()?;
        let new_user_token = UserToken::new_using(*token_mint, *user_token_account_key);
        self.user_tokens[new_user_token_index] = new_user_token;
        Ok(new_user_token_index)
    }

    /// Slot of the balance of `token_mint`, taking a free slot for it when
    /// there is none.
    fn force_get_user_token_index(&mut self, token_mint: &Pubkey, user_token_account_key: &Pubkey) -> (r:
        BumpResult<usize>)
        ensures
            has_token(*old(self), token_mint@) ==> *final(self) == *old(self) && (r matches Ok(i)
                && is_first_token(*old(self), token_mint@, i as int)),
            !has_token(*old(self), token_mint@) ==> (r matches Ok(i) ==> is_first_free_token(
                *old(self),
                i as int,
            ) && new_token_slot(final(self).user_tokens@[i as int], token_mint@, user_token_account_key@)
                && final(self).user_tokens@ == old(self).user_tokens@.update(
                i as int,
                final(self).user_tokens@[i as int],
            ) && same_but_tokens(*old(self), *final(self))) && (r is Err ==> r == Err::<
                usize,
                BumpErrorCode,
            >(BumpErrorCode::NoMoreUserTokenSpace) && *final(self) == *old(self)),
            r matches Ok(i) ==> i < 12 && token_for(final(self).user_tokens@[i as int], token_mint@),
            !has_token(*old(self), token_mint@) ==> (r is Err <==> !has_free_token_slot(*old(self))),
    {
        match self.get_user_token_index(token_mint) {
            Ok(i) => Ok(i),
            Err(_) => self.add_user_token(token_mint, user_token_account_key),
        }
    }

    /// The balance of `token_mint`, taking a free slot for it when there is
    /// none.
    pub fn force_get_user_token_mut_ref(
        &mut self,
        token_mint: &Pubkey,
        user_token_account_key: &Pubkey,
    ) -> (r: BumpResult<&mut UserToken>)
        ensures
            r is Err ==> !has_token(*old(self), token_mint@) && r == Err::<
                &mut UserToken,
                BumpErrorCode,
            >(BumpErrorCode::NoMoreUserTokenSpace) && *final(self) == *old(self),
            r matches Ok(t) ==> token_for(*t, token_mint@),
    {
        let i = self.force_get_user_token_index(token_mint, user_token_account_key)?;
        Ok(&mut self.user_tokens[i])
    }

    /// First slot holding the stake in `pool_key`.
    pub fn get_user_stake_index(&self, pool_key: &Pubkey) -> (r: BumpResult<usize>)
        ensures
            r matches Ok(i) ==> is_first_stake(*self, pool_key@, i as int),
            r is Err <==> !has_stake(*self, pool_key@),
            r is Err ==> r == Err::<usize, BumpErrorCode>(BumpErrorCode::CouldNotFindUserStake),
    {
        let mut i: usize = 0;
        while i < 12
            invariant
                i <= 12,
                forall|j: int| 0 <= j < i ==> !stake_for(#[trigger] self.user_stakes@[j], pool_key@),
            decreases 12 - i,
        {
            let s = &self.user_stakes[i];
            if s.user_stake_status == UserStakeStatus::USING && key_eq(&s.pool_key, pool_key) {
                return Ok(i);
            }
            i = i + 1;
        }
        Err(BumpErrorCode::CouldNotFindUserStake)
    }

    /// The stake in `pool_key`.
    pub fn get_user_stake_ref(&self, pool_key: &Pubkey) -> (r: BumpResult<&UserStake>)
        ensures
            r matches Ok(s) ==> exists|i: int|
                is_first_stake(*self, pool_key@, i) && *s == self.user_stakes@[i],
            r is Err <==> !has_stake(*self, pool_key@),
            r is Err ==> r == Err::<&UserStake, BumpErrorCode>(BumpErrorCode::CouldNotFindUserStake),
    {
        let i = self.get_user_stake_index(pool_key)?;
        Ok(&self.user_stakes[i])
    }

    /// The stake in `pool_key`, for update.
    pub fn get_user_stake_mut_ref(&mut self, pool_key: &Pubkey) -> (r: BumpResult<&mut UserStake>)
        ensures
            r matches Ok(s) ==> exists|i: int|
                is_first_stake(*old(self), pool_key@, i) && *s == old(self).user_stakes@[i]
                    && final(self).user_stakes@ == old(self).user_stakes@.update(i, *final(s))
                    && same_but_stakes(*old(self), *final(self)),
            r is Err <==> !has_stake(*old(self), pool_key@),
            r is Err ==> r == Err::<&mut UserStake, BumpErrorCode>(
                BumpErrorCode::CouldNotFindUserStake,
            ) && *final(self) == *old(self),
    {
        let i = self.get_user_stake_index(pool_key)?;
        Ok(&mut self.user_stakes[i])
    }

    /// First free stake slot.
    pub fn next_usable_stake_index(&self) -> (r: BumpResult<usize>)
        ensures
            r matches Ok(i) ==> is_first_free_stake(*self, i as int),
            r is Err <==> forall|j: int|
                0 <= j < 12 ==> (#[trigger] self.user_stakes@[j]).user_stake_status
                    != UserStakeStatus::INIT,
            r is Err ==> r == Err::<usize, BumpErrorCode>(BumpErrorCode::AmountNotEnough),
    {
        let mut i: usize = 0;
        while i < 12
            invariant
                i <= 12,
                forall|j: int|
                    0 <= j < i ==> (#[trigger] self.user_stakes@[j]).user_stake_status
                        != UserStakeStatus::INIT,
            decreases 12 - i,
        {
            if self.user_stakes[i].user_stake_status == UserStakeStatus::INIT {
                return Ok(i);
            }
            i = i + 1;
        }
        Err(BumpErrorCode::AmountNotEnough)
    }

    /// Takes the first free stake slot for `pool_key`.
    pub fn add_user_stake(&mut self, pool_key: &Pubkey) -> (r: BumpResult<usize>)
        ensures
            r matches Ok(i) ==> is_first_free_stake(*old(self), i as int) && is_fresh_stake(
                final(self).user_stakes@[i as int],
                pool_key@,
                0,
            ) && final(self).user_stakes@ == old(self).user_stakes@.update(
                i as int,
                final(self).user_stakes@[i as int],
            ) && same_but_stakes(*old(self), *final(self)),
            r is Err ==> r == Err::<usize, BumpErrorCode>(BumpErrorCode::AmountNotEnough) && *final(self) == *old(self),
            r is Err <==> !has_free_stake_slot(*old(self)),
    {
        let new_user_stake_index = self.next_usable_stake_index()?;
        let new_user_stake = UserStake {
            staked_share: 0,
            user_rewards: UserRewards::default(),
            pool_key: *pool_key,
            user_stake_status: UserStakeStatus::USING,
        };
        self.user_stakes[new_user_stake_index] = new_user_stake;
        Ok(new_user_stake_index)
    }

    /// Slot of the stake in `pool_key`, taking a free slot when there is none.
    pub(crate) fn get_or_add_user_stake_index(&mut self, pool_key: &Pubkey) -> (r: BumpResult<usize>)
        ensures
            has_stake(*old(self), pool_key@) ==> *final(self) == *old(self) && r == Ok::<
                usize,
                BumpErrorCode,
            >(stake_slot(*old(self), pool_key@) as usize),
            !has_stake(*old(self), pool_key@) && has_free_stake_slot(*old(self)) ==> r == Ok::<
                usize,
                BumpErrorCode,
            >(free_stake_slot(*old(self)) as usize) && is_fresh_stake(
                final(self).user_stakes@[free_stake_slot(*old(self))],
                pool_key@,
                0,
            ) && final(self).user_stakes@ == old(self).user_stakes@.update(
                free_stake_slot(*old(self)),
                final(self).user_stakes@[free_stake_slot(*old(self))],
            ) && same_but_stakes(*old(self), *final(self)),
            r is Err <==> !has_stake(*old(self), pool_key@) && !has_free_stake_slot(*old(self)),
            r is Err ==> r == Err::<usize, BumpErrorCode>(BumpErrorCode::AmountNotEnough) && *final(self) == *old(self),
            r matches Ok(i) ==> i == open_stake_slot(*old(self), pool_key@) && i < 12 && stake_for(
                final(self).user_stakes@[i as int],
                pool_key@,
            ),
            r matches Ok(i) ==> (has_stake(*old(self), pool_key@) ==> is_first_stake(
                *old(self),
                pool_key@,
                i as int,
            )),
    {
        match self.get_user_stake_index(pool_key) {
            Ok(i) => {
                proof {
                    lemma_stake_slot(*self, pool_key@, i as int);
                }
                Ok(i)
            },
            Err(_) => {
                let r = self.add_user_stake(pool_key);
                proof {
                    if let Ok(i) = r {
                        lemma_free_stake_slot(*old(self), i as int);
                    }
                    if r is Err {
                        assert(!has_free_stake_slot(*old(self)));
                    }
                }
                r
            },
        }
    }

    /// The stake in `pool_key`, taking a free slot when there is none: the
    /// existing stake, or a fresh one in the first free slot.
    pub fn get_or_add_user_stake_ref_mut(&mut self, pool_key: &Pubkey) -> (r: BumpResult<
        &mut UserStake,
    >)
        ensures
            r is Err <==> !has_stake(*old(self), pool_key@) && !has_free_stake_slot(*old(self)),
            r is Err ==> r == Err::<&mut UserStake, BumpErrorCode>(BumpErrorCode::AmountNotEnough)
                && *final(self) == *old(self),
            r matches Ok(s) ==> ({
                let i = open_stake_slot(*old(self), pool_key@);
                &&& has_stake(*old(self), pool_key@) ==> *s == old(self).user_stakes@[i]
                &&& !has_stake(*old(self), pool_key@) ==> is_fresh_stake(*s, pool_key@, 0)
                &&& final(self).user_stakes@ == old(self).user_stakes@.update(i, *final(s))
                &&& same_but_stakes(*old(self), *final(self))
            }),
    {
        let i = self.get_or_add_user_stake_index(pool_key)?;
        Ok(&mut self.user_stakes[i])
    }

    /// First slot holding the pending order `order_id`.
    pub fn get_user_order_index(&self, order_id: u64) -> (r: BumpResult<usize>)
        ensures
            r matches Ok(i) ==> is_first_order(*self, order_id, i as int),
            r is Err <==> !has_order(*self, order_id),
            r is Err ==> r == Err::<usize, BumpErrorCode>(BumpErrorCode::CouldNotFindUserOrder),
    {
        let mut i: usize = 0;
        while i < 8
            invariant
                i <= 8,
                forall|j: int| 0 <= j < i ==> !order_for(#[trigger] self.user_orders@[j], order_id),
            decreases 8 - i,
        {
            let o = &self.user_orders[i];
            if o.status == OrderStatus::USING && o.order_id == order_id {
                return Ok(i);
            }
            i = i + 1;
        }
        Err(BumpErrorCode::CouldNotFindUserOrder)
    }

    /// The pending order `order_id`.
    pub fn get_user_order_ref(&self, order_id: u64) -> (r: BumpResult<&UserOrder>)
        ensures
            r matches Ok(o) ==> exists|i: int|
                is_first_order(*self, order_id, i) && *o == self.user_orders@[i],
            r is Err <==> !has_order(*self, order_id),
            r is Err ==> r == Err::<&UserOrder, BumpErrorCode>(BumpErrorCode::CouldNotFindUserOrder),
    {
        let i = self.get_user_order_index(order_id)?;
        Ok(&self.user_orders[i])
    }

    /// First free order slot.
    pub fn next_usable_order_index(&self) -> (r: BumpResult<usize>)
        ensures
            r matches Ok(i) ==> is_first_free_order(*self, i as int),
            r is Err <==> forall|j: int|
                0 <= j < 8 ==> (#[trigger] self.user_orders@[j]).status != OrderStatus::INIT,
            r is Err ==> r == Err::<usize, BumpErrorCode>(BumpErrorCode::NoMoreOrderSpace),
    {
        let mut i: usize = 0;
        while i < 8
            invariant
                i <= 8,
                forall|j: int| 0 <= j < i ==> (#[trigger] self.user_orders@[j]).status != OrderStatus::INIT,
            decreases 8 - i,
        {
            if self.user_orders[i].status == OrderStatus::INIT {
                return Ok(i);
            }
            i = i + 1;
        }
        Err(BumpErrorCode::NoMoreOrderSpace)
    }

    /// Stores `user_order` in the first free order slot.
    pub fn add_user_order(&mut self, user_order: &UserOrder) -> (r: BumpResult<usize>)
        ensures
            r matches Ok(i) ==> is_first_free_order(*old(self), i as int) && final(self).user_orders@
                == old(self).user_orders@.update(i as int, *user_order) && same_but_orders(
                *old(self),
                *final(self),
            ) && final(self).hold == old(self).hold,
            r is Err ==> r == Err::<usize, BumpErrorCode>(BumpErrorCode::NoMoreOrderSpace) && *final(self) == *old(self),
    {
        let new_user_order_index = self.next_usable_order_index()?;
        self.user_orders[new_user_order_index] = *user_order;
        Ok(new_user_order_index)
    }

    /// First slot holding the open position `position_key`.
    pub fn get_user_position_index(&self, position_key: &Pubkey) -> (r: BumpResult<usize>)
        ensures
            r matches Ok(i) ==> is_first_position(*self, position_key@, i as int),
            r is Err <==> !has_position(*self, position_key@),
            r is Err ==> r == Err::<usize, BumpErrorCode>(BumpErrorCode::CouldNotFindUserPosition),
    {
        let mut i: usize = 0;
        while i < 8
            invariant
                i <= 8,
                forall|j: int|
                    0 <= j < i ==> !position_for(#[trigger] self.user_positions@[j], position_key@),
            decreases 8 - i,
        {
            let p = &self.user_positions[i];
            if p.status == PositionStatus::USING && key_eq(&p.position_key, position_key) {
                return Ok(i);
            }
            i = i + 1;
        }
        Err(BumpErrorCode::CouldNotFindUserPosition)
    }

    /// The open position `position_key`.
    pub fn get_user_position_ref(&self, position_key: &Pubkey) -> (r: BumpResult<&UserPosition>)
        ensures
            r matches Ok(p) ==> exists|i: int|
                is_first_position(*self, position_key@, i) && *p == self.user_positions@[i],
            r is Err <==> !has_position(*self, position_key@),
            r is Err ==> r == Err::<&UserPosition, BumpErrorCode>(
                BumpErrorCode::CouldNotFindUserPosition,
            ),
    {
        let i = self.get_user_position_index(position_key)?;
        Ok(&self.user_positions[i])
    }

    /// The open position `position_key`, for update.
    pub fn get_user_position_mut_ref(&mut self, position_key: &Pubkey) -> (r: BumpResult<
        &mut UserPosition,
    >)
        ensures
            r matches Ok(p) ==> exists|i: int|
                is_first_position(*old(self), position_key@, i) && *p == old(self).user_positions@[i]
                    && final(self).user_positions@ == old(self).user_positions@.update(i, *final(p))
                    && same_but_positions(*old(self), *final(self)),
            r is Err <==> !has_position(*old(self), position_key@),
            r is Err ==> r == Err::<&mut UserPosition, BumpErrorCode>(
                BumpErrorCode::CouldNotFindUserPosition,
            ) && *final(self) == *old(self),
    {
        let i = self.get_user_position_index(position_key)?;
        Ok(&mut self.user_positions[i])
    }

    /// First free position slot.
    pub fn next_usable_position_index(&self) -> (r: BumpResult<usize>)
        ensures
            r matches Ok(i) ==> is_first_free_position(*self, i as int),
            r is Err <==> forall|j: int|
                0 <= j < 8 ==> (#[trigger] self.user_positions@[j]).status != PositionStatus::INIT,
            r is Err ==> r == Err::<usize, BumpErrorCode>(BumpErrorCode::AmountNotEnough),
    {
        let mut i: usize = 0;
        while i < 8
            invariant
                i <= 8,
                forall|j: int|
                    0 <= j < i ==> (#[trigger] self.user_positions@[j]).status != PositionStatus::INIT,
            decreases 8 - i,
        {
            if self.user_positions[i].status == PositionStatus::INIT {
                return Ok(i);
            }
            i = i + 1;
        }
        Err(BumpErrorCode::AmountNotEnough)
    }

    /// Takes the first free position slot for `position_key`, owned by this
    /// user.
    pub fn add_user_position(&mut self, position_key: &Pubkey) -> (r: BumpResult<usize>)
        ensures
            r matches Ok(i) ==> is_first_free_position(*old(self), i as int) && ({
                let p = final(self).user_positions@[i as int];
                &&& is_blank_position(p)
                &&& p.position_key@ == position_key@
                &&& p.user_key == old(self).user_key
                &&& p.status == PositionStatus::USING
            }) && final(self).user_positions@ == old(self).user_positions@.update(
                i as int,
                final(self).user_positions@[i as int],
            ) && same_but_positions(*old(self), *final(self)),
            r is Err ==> r == Err::<usize, BumpErrorCode>(BumpErrorCode::AmountNotEnough) && *final(self) == *old(self),
            r is Err <==> !has_free_position_slot(*old(self)),
    {
        let new_user_position_index = self.next_usable_position_index()?;
        let mut new_user_position = UserPosition::default();
        new_user_position.position_key = *position_key;
        new_user_position.user_key = self.user_key;
        new_user_position.status = PositionStatus::USING;
        self.user_positions[new_user_position_index] = new_user_position;
        Ok(new_user_position_index)
    }

    /// Slot of the open position `position_key`, taking a free slot when
    /// there is none.
    pub fn force_get_user_position_index(&mut self, position_key: &Pubkey) -> (r: BumpResult<usize>)
        ensures
            has_position(*old(self), position_key@) ==> *final(self) == *old(self) && (r matches Ok(
                i,
            ) && is_first_position(*old(self), position_key@, i as int)),
            r matches Ok(i) ==> i < 8 && position_for(
                final(self).user_positions@[i as int],
                position_key@,
            ) && same_but_positions(*old(self), *final(self)),
            r is Err ==> r == Err::<usize, BumpErrorCode>(BumpErrorCode::AmountNotEnough) && *final(self) == *old(self),
    {
        match self.get_user_position_index(position_key) {
            Ok(i) => Ok(i),
            Err(_) => self.add_user_position(position_key),
        }
    }

    /// The open position `position_key`, taking a free slot when there is
    /// none.
    pub fn force_get_user_position_mut_ref(&mut self, position_key: &Pubkey) -> (r: BumpResult<
        &mut UserPosition,
    >)
        ensures
            r is Err ==> r == Err::<&mut UserPosition, BumpErrorCode>(
                BumpErrorCode::AmountNotEnough,
            ) && *final(self) == *old(self),
            r matches Ok(p) ==> position_for(*p, position_key@),
    {
        let i = self.force_get_user_position_index(position_key)?;
        Ok(&mut self.user_positions[i])
    }

    /// First slot, in use or not, whose position key is `position_key`.
    fn find_position_index_by_key(&self, position_key: &Pubkey) -> (r: BumpResult<usize>)
        ensures
            r matches Ok(i) ==> is_first_keyed_position(*self, position_key@, i as int),
            r is Err <==> forall|j: int|
                0 <= j < 8 ==> (#[trigger] self.user_positions@[j]).position_key@ != position_key@,
            r is Err ==> r == Err::<usize, BumpErrorCode>(BumpErrorCode::CouldNotFindUserPosition),
    {
        let mut i: usize = 0;
        while i < 8
            invariant
                i <= 8,
                forall|j: int|
                    0 <= j < i ==> (#[trigger] self.user_positions@[j]).position_key@ != position_key@,
            decreases 8 - i,
        {
            if key_eq(&self.user_positions[i].position_key, position_key) {
                return Ok(i);
            }
            i = i + 1;
        }
        Err(BumpErrorCode::CouldNotFindUserPosition)
    }

    /// The first position slot, in use or not, keyed `position_key`, for
    /// update.
    pub fn find_position_mut_ref_by_key(&mut self, position_key: &Pubkey) -> (r: BumpResult<
        &mut UserPosition,
    >)
        ensures
            r matches Ok(p) ==> exists|i: int|
                is_first_keyed_position(*old(self), position_key@, i) && *p == old(self).user_positions@[i] && final(self).user_positions@ == old(self).user_positions@.update(i, *final(p)) && same_but_positions(
                    *old(self),
                    *final(self),
                ),
            r is Err ==> r == Err::<&mut UserPosition, BumpErrorCode>(
                BumpErrorCode::CouldNotFindUserPosition,
            ) && *final(self) == *old(self),
    {
        let i = self.find_position_index_by_key(position_key)?;
        Ok(&mut self.user_positions[i])
    }

    /// The first position slot, in use or not, keyed `position_key`.
    pub fn find_position_ref_by_key(&self, position_key: &Pubkey) -> (r: BumpResult<&UserPosition>)
        ensures
            r matches Ok(p) ==> exists|i: int|
                is_first_keyed_position(*self, position_key@, i) && *p == self.user_positions@[i],
            r is Err ==> r == Err::<&UserPosition, BumpErrorCode>(
                BumpErrorCode::CouldNotFindUserPosition,
            ),
    {
        let i = self.find_position_index_by_key(position_key)?;
        Ok(&self.user_positions[i])
    }
}

impl User {
    /// Removes pool shares from the stake in `pool_key`.
    pub fn sub_user_stake(&mut self, pool_key: &Pubkey, stake_amount: u128) -> (r: BumpResult)
        ensures
            !has_stake(*old(self), pool_key@) ==> r == Err::<(), BumpErrorCode>(
                BumpErrorCode::CouldNotFindUserStake,
            ) && *final(self) == *old(self),
            has_stake(*old(self), pool_key@) ==> ({
                let i = stake_slot(*old(self), pool_key@);
                let st = old(self).user_stakes@[i];
                &&& st.staked_share >= stake_amount ==> r == Ok::<(), BumpErrorCode>(())
                    && final(self).user_stakes@ == old(self).user_stakes@.update(
                    i,
                    UserStake { staked_share: (st.staked_share - stake_amount) as u128, ..st },
                ) && same_but_stakes(*old(self), *final(self))
                &&& st.staked_share < stake_amount ==> r == Err::<(), BumpErrorCode>(
                    BumpErrorCode::AmountNotEnough,
                ) && *final(self) == *old(self)
            }),
    {
        let i = self.get_user_stake_index(pool_key)?;
        proof {
            lemma_stake_slot(*self, pool_key@, i as int);
        }
        let mut st = self.user_stakes[i];
        st.sub_staked_share(stake_amount)?;
        self.user_stakes[i] = st;
        Ok(())
    }

    /// Releases margin (USD) reserved by pending cross-margin orders;
    /// refuses more than is reserved.
    pub fn sub_order_hold_in_usd(&mut self, amount: u128) -> (r: BumpResult)
        ensures
            old(self).hold >= amount ==> r == Ok::<(), BumpErrorCode>(()) && *final(self) == (User {
                hold: (old(self).hold - amount) as u128,
                ..*old(self)
            }),
            old(self).hold < amount ==> r == Err::<(), BumpErrorCode>(BumpErrorCode::AmountNotEnough)
                && *final(self) == *old(self),
    {
        if self.hold < amount {
            return Err(BumpErrorCode::AmountNotEnough);
        }
        self.hold = safe_sub_u(self.hold, amount)?;
        Ok(())
    }

    /// Reserves margin (USD) for a pending cross-margin order.
    pub fn add_order_hold_in_usd(&mut self, amount: u128) -> (r: BumpResult)
        ensures
            fits_u(old(self).hold + amount) ==> r == Ok::<(), BumpErrorCode>(()) && *final(self) == (
            User { hold: (old(self).hold + amount) as u128, ..*old(self) }),
            !fits_u(old(self).hold + amount) ==> r == Err::<(), BumpErrorCode>(
                BumpErrorCode::MathError,
            ) && *final(self) == *old(self),
    {
        self.hold = safe_add_u(self.hold, amount)?;
        Ok(())
    }

    /// Uses `amount` of the balance of `token` as margin, taking a free slot
    /// for the token when there is none (see `use_token_spec`); returns the
    /// part covered by the free balance.
    pub fn use_token(
        &mut self,
        token: &Pubkey,
        amount: u128,
        user_token_account_key: &Pubkey,
        is_check: bool,
    ) -> (r: BumpResult<u128>)
        ensures
            has_token(*old(self), token@) ==> ({
                let i = token_slot(*old(self), token@);
                let (er, t) = use_token_spec(old(self).user_tokens@[i], amount as int, is_check);
                r == er && with_token(*old(self), *final(self), i, t)
            }),
            !has_token(*old(self), token@) && !has_free_token_slot(*old(self)) ==> r == Err::<
                u128,
                BumpErrorCode,
            >(BumpErrorCode::NoMoreUserTokenSpace) && *final(self) == *old(self),
            !has_token(*old(self), token@) && has_free_token_slot(*old(self)) ==> ({
                let i = free_token_slot(*old(self));
                let t = final(self).user_tokens@[i];
                &&& r == Ok::<u128, BumpErrorCode>(0)
                &&& t.amount == 0 && t.liability_amount == 0 && t.used_amount == amount
                &&& t.token_mint_key@ == token@ && t.user_token_account_key@ == user_token_account_key@
                &&& t.user_token_status == UserTokenStatus::USING
                &&& with_token(*old(self), *final(self), i, t)
            }),
    {
        let ghost had = has_token(*self, token@);
        let idx = self.force_get_user_token_index(token, user_token_account_key)?;
        proof {
            if had {
                lemma_token_slot(*old(self), token@, idx as int);
            } else {
                lemma_free_token_slot(*old(self), idx as int);
            }
        }
        let mut t = self.user_tokens[idx];
        proof {
            assert(self.user_tokens@.update(idx as int, t) =~= self.user_tokens@);
            if !had {
                assert(t.amount == 0 && t.used_amount == 0);
            }
        }
        if is_check && t.amount < t.used_amount {
            return Err(BumpErrorCode::AmountNotEnough);
        }
        let total = safe_add_u(t.used_amount, amount)?;
        let use_from_balance = if t.amount >= total {
            amount
        } else if t.amount > t.used_amount {
            t.amount - t.used_amount
        } else {
            0u128
        };
        t.used_amount = total;
        self.user_tokens[idx] = t;
        assert(self.user_tokens@ =~= old(self).user_tokens@.update(idx as int, t));
        Ok(use_from_balance)
    }

    /// Releases `amount` of used balance of `token`; the used amount must
    /// exceed `amount`.
    pub fn un_use_token(&mut self, token: &Pubkey, amount: u128) -> (r: BumpResult)
        ensures
            !has_token(*old(self), token@) ==> r == Err::<(), BumpErrorCode>(
                BumpErrorCode::CouldNotFindUserToken,
            ) && *final(self) == *old(self),
            has_token(*old(self), token@) ==> ({
                let i = token_slot(*old(self), token@);
                let t = old(self).user_tokens@[i];
                &&& t.used_amount > amount ==> r == Ok::<(), BumpErrorCode>(()) && with_token(
                    *old(self),
                    *final(self),
                    i,
                    UserToken { used_amount: (t.used_amount - amount) as u128, ..t },
                )
                &&& t.used_amount <= amount ==> r == Err::<(), BumpErrorCode>(
                    BumpErrorCode::AmountNotEnough,
                ) && *final(self) == *old(self)
            }),
    {
        let i = self.get_user_token_index(token)?;
        proof {
            lemma_token_slot(*self, token@, i as int);
        }
        let mut t = self.user_tokens[i];
        if t.used_amount <= amount {
            return Err(BumpErrorCode::AmountNotEnough);
        }
        t.sub_used_amount(amount)?;
        self.user_tokens[i] = t;
        Ok(())
    }

    /// Adds `amount` to the balance of `token_mint`.
    pub fn add_user_token_amount(
        &mut self,
        token_mint: &Pubkey,
        amount: u128,
        _user_token_update_origin: &UserTokenUpdateReason,
    ) -> (r: BumpResult)
        ensures
            !has_token(*old(self), token_mint@) ==> r == Err::<(), BumpErrorCode>(
                BumpErrorCode::CouldNotFindUserToken,
            ) && *final(self) == *old(self),
            has_token(*old(self), token_mint@) ==> ({
                let i = token_slot(*old(self), token_mint@);
                let t = old(self).user_tokens@[i];
                &&& fits_u(t.amount + amount) ==> r == Ok::<(), BumpErrorCode>(()) && with_token(
                    *old(self),
                    *final(self),
                    i,
                    UserToken { amount: (t.amount + amount) as u128, ..t },
                )
                &&& !fits_u(t.amount + amount) ==> r == Err::<(), BumpErrorCode>(
                    BumpErrorCode::MathError,
                ) && *final(self) == *old(self)
            }),
    {
        let i = self.get_user_token_index(token_mint)?;
        proof {
            lemma_token_slot(*self, token_mint@, i as int);
        }
        let mut t = self.user_tokens[i];
        t.add_amount(amount)?;
        self.user_tokens[i] = t;
        Ok(())
    }

    /// Withdraws `amount` from the balance of `token_mint`; the balance
    /// must cover it and everything in use.
    pub fn sub_user_token_amount_ignore_used_amount(
        &mut self,
        token_mint: &Pubkey,
        amount: u128,
        _user_token_update_origin: &UserTokenUpdateReason,
    ) -> (r: BumpResult)
        ensures
            !has_token(*old(self), token_mint@) ==> r == Err::<(), BumpErrorCode>(
                BumpErrorCode::CouldNotFindUserToken,
            ) && *final(self) == *old(self),
            has_token(*old(self), token_mint@) ==> ({
                let i = token_slot(*old(self), token_mint@);
                let t = old(self).user_tokens@[i];
                &&& t.amount < amount ==> r == Err::<(), BumpErrorCode>(
                    BumpErrorCode::AmountNotEnough,
                ) && *final(self) == *old(self)
                &&& t.amount >= amount && !fits_u(t.used_amount + amount) ==> r == Err::<
                    (),
                    BumpErrorCode,
                >(BumpErrorCode::MathError) && *final(self) == *old(self)
                &&& t.amount >= amount && fits_u(t.used_amount + amount) && t.amount < t.used_amount
                    + amount ==> r == Err::<(), BumpErrorCode>(BumpErrorCode::AmountNotEnough)
                    && *final(self) == *old(self)
                &&& t.amount >= t.used_amount + amount ==> r == Ok::<(), BumpErrorCode>(())
                    && with_token(
                    *old(self),
                    *final(self),
                    i,
                    UserToken { amount: (t.amount - amount) as u128, ..t },
                )
            }),
    {
        let i = self.get_user_token_index(token_mint)?;
        proof {
            lemma_token_slot(*self, token_mint@, i as int);
        }
        let mut t = self.user_tokens[i];
        if t.amount < amount {
            return Err(BumpErrorCode::AmountNotEnough);
        }
        let needed = safe_add_u(t.used_amount, amount)?;
        if t.amount < needed {
            return Err(BumpErrorCode::AmountNotEnough);
        }
        t.sub_amount(amount)?;
        self.user_tokens[i] = t;
        Ok(())
    }

    /// Repays the liability of the balance of `token_mint` from its amount
    /// (see `repay_spec`); returns the amount repaid.
    pub fn repay_liability(&mut self, token_mint: &Pubkey, _by: UserTokenUpdateReason) -> (r:
        BumpResult<u128>)
        ensures
            !has_token(*old(self), token_mint@) ==> r == Err::<u128, BumpErrorCode>(
                BumpErrorCode::CouldNotFindUserToken,
            ) && *final(self) == *old(self),
            has_token(*old(self), token_mint@) ==> ({
                let i = token_slot(*old(self), token_mint@);
                let (er, t) = repay_spec(old(self).user_tokens@[i]);
                r == er && with_token(*old(self), *final(self), i, t)
            }),
    {
        let i = self.get_user_token_index(token_mint)?;
        proof {
            lemma_token_slot(*self, token_mint@, i as int);
        }
        let mut t = self.user_tokens[i];
        proof {
            assert(self.user_tokens@.update(i as int, t) =~= self.user_tokens@);
        }
        if t.liability_amount > 0 && t.amount > 0 {
            let repay_liability_amount = if t.amount >= t.liability_amount {
                t.liability_amount
            } else {
                t.amount
            };
            t.amount = t.amount - repay_liability_amount;
            t.liability_amount = t.liability_amount - repay_liability_amount;
            match safe_sub_u(t.used_amount, repay_liability_amount) {
                Ok(v) => {
                    t.used_amount = v;
                },
                Err(e) => {
                    self.user_tokens[i] = t;
                    return Err(e);
                },
            }
            self.user_tokens[i] = t;
            Ok(repay_liability_amount)
        } else {
            Ok(0)
        }
    }

    /// Debits `amount` from the balance of `token_mint`; what the balance
    /// cannot cover becomes a liability, also recorded on `trade_token`
    /// (see `debit_with_liability_spec`). Returns the new liability.
    pub fn sub_token_with_liability(
        &mut self,
        token_mint: &Pubkey,
        trade_token: &mut TradeToken,
        amount: u128,
        _user_token_update_origin: &UserTokenUpdateReason,
    ) -> (r: BumpResult<u128>)
        ensures
            !has_token(*old(self), token_mint@) ==> r == Err::<u128, BumpErrorCode>(
                BumpErrorCode::CouldNotFindUserToken,
            ) && *final(self) == *old(self) && *final(trade_token) == *old(trade_token),
            has_token(*old(self), token_mint@) ==> ({
                let i = token_slot(*old(self), token_mint@);
                let (er, t, tt) = debit_with_liability_spec(
                    old(self).user_tokens@[i],
                    *old(trade_token),
                    amount as int,
                );
                r == er && with_token(*old(self), *final(self), i, t) && *final(trade_token) == tt
            }),
    {
        let i = self.get_user_token_index(token_mint)?;
        proof {
            lemma_token_slot(*self, token_mint@, i as int);
        }
        let mut t = self.user_tokens[i];
        proof {
            assert(self.user_tokens@.update(i as int, t) =~= self.user_tokens@);
        }
        if t.amount >= amount {
            t.amount = t.amount - amount;
            self.user_tokens[i] = t;
            return Ok(0);
        }
        let liability = if t.amount > 0u128 {
            amount - t.amount
        } else {
            amount
        };
        match safe_add_u(t.liability_amount, liability) {
            Ok(v) => {
                t.liability_amount = v;
            },
            Err(e) => {
                return Err(e);
            },
        }
        match safe_add_u(t.used_amount, liability) {
            Ok(v) => {
                t.used_amount = v;
            },
            Err(e) => {
                self.user_tokens[i] = t;
                return Err(e);
            },
        }
        t.amount = 0;
        self.user_tokens[i] = t;
        trade_token.add_liability(liability)?;
        Ok(liability)
    }
}

/// A debit that may run into debt lowers the balance net of liabilities,
/// `amount - liability_amount`, by exactly the debited amount.
pub proof fn lemma_debit_lowers_net_balance(t: UserToken, tt: TradeToken, x: int)
    requires
        x >= 0,
        debit_with_liability_spec(t, tt, x).0 is Ok,
    ensures
        ({
            let after = debit_with_liability_spec(t, tt, x).1;
            after.amount - after.liability_amount == t.amount - t.liability_amount - x
        }),
{
}

/// Repaying a liability leaves the balance net of liabilities unchanged.
pub proof fn lemma_repay_keeps_net_balance(t: UserToken)
    requires
        repay_spec(t).0 is Ok,
    ensures
        ({
            let after = repay_spec(t).1;
            after.amount - after.liability_amount == t.amount - t.liability_amount
        }),
{
}

impl User {
    /// Stores `order` in order slot `index`.
    pub fn add_order(&mut self, order: &UserOrder, index: usize) -> (r: BumpResult)
        requires
            index < 8,
        ensures
            r == Ok::<(), BumpErrorCode>(()),
            final(self).user_orders@ == old(self).user_orders@.update(index as int, *order),
            same_but_orders(*old(self), *final(self)),
            final(self).hold == old(self).hold,
    {
        self.user_orders[index] = *order;
        Ok(())
    }

    /// Frees the slot of the pending order `order_id`.
    pub fn delete_order(&mut self, order_id: u64) -> (r: BumpResult)
        ensures
            !has_order(*old(self), order_id) ==> r == Err::<(), BumpErrorCode>(
                BumpErrorCode::CouldNotFindUserOrder,
            ) && *final(self) == *old(self),
            has_order(*old(self), order_id) ==> ({
                let i = order_slot(*old(self), order_id);
                &&& r == Ok::<(), BumpErrorCode>(())
                &&& is_empty_order(final(self).user_orders@[i])
                &&& final(self).user_orders@ == old(self).user_orders@.update(
                    i,
                    final(self).user_orders@[i],
                )
                &&& same_but_orders(*old(self), *final(self))
                &&& final(self).hold == old(self).hold
            }),
            remove_pending(old(self).user_orders@, order_id) matches Some(os) ==> r == Ok::<
                (),
                BumpErrorCode,
            >(()) && final(self).user_orders@ == os,
            remove_pending(old(self).user_orders@, order_id) is None ==> r == Err::<(), BumpErrorCode>(
                BumpErrorCode::CouldNotFindUserOrder,
            ) && *final(self) == *old(self),
    {
        proof {
            lemma_pending_slot(*self, order_id);
        }
        let order_index = self.get_user_order_index(order_id)?;
        proof {
            lemma_order_slot(*self, order_id, order_index as int);
        }
        let empty = UserOrder::default();
        proof {
            lemma_empty_order_unique(empty);
        }
        self.user_orders[order_index] = empty;
        Ok(())
    }

    /// Frees the token slot at the index of the stake in `pool_key`.
    pub fn delete_user_stake(&mut self, pool_key: &Pubkey) -> (r: BumpResult)
        ensures
            !has_stake(*old(self), pool_key@) ==> r == Err::<(), BumpErrorCode>(
                BumpErrorCode::CouldNotFindUserStake,
            ) && *final(self) == *old(self),
            has_stake(*old(self), pool_key@) ==> ({
                let i = stake_slot(*old(self), pool_key@);
                &&& r == Ok::<(), BumpErrorCode>(())
                &&& is_empty_token(final(self).user_tokens@[i])
                &&& with_token(*old(self), *final(self), i, final(self).user_tokens@[i])
            }),
    {
        let index = self.get_user_stake_index(pool_key)?;
        proof {
            lemma_stake_slot(*self, pool_key@, index as int);
        }
        self.user_tokens[index] = UserToken::default();
        Ok(())
    }

    /// Frees the first position slot keyed `position_key`.
    pub fn delete_position(&mut self, position_key: &Pubkey) -> (r: BumpResult)
        ensures
            (forall|j: int|
                0 <= j < 8 ==> (#[trigger] old(self).user_positions@[j]).position_key@
                    != position_key@) ==> r == Err::<(), BumpErrorCode>(
                BumpErrorCode::CouldNotFindUserPosition,
            ) && *final(self) == *old(self),
            (exists|j: int|
                0 <= j < 8 && (#[trigger] old(self).user_positions@[j]).position_key@
                    == position_key@) ==> ({
                let i = keyed_position_slot(*old(self), position_key@);
                &&& r == Ok::<(), BumpErrorCode>(())
                &&& is_empty_position(final(self).user_positions@[i])
                &&& final(self).user_positions@ == old(self).user_positions@.update(
                    i,
                    final(self).user_positions@[i],
                )
                &&& same_but_positions(*old(self), *final(self))
            }),
    {
        let position_index = self.find_position_index_by_key(position_key)?;
        proof {
            lemma_keyed_position_slot(*self, position_key@, position_index as int);
        }
        self.user_positions[position_index] = UserPosition::default();
        Ok(())
    }

    /// Cancels the order in slot `user_order_index`, releasing its reserved
    /// margin when it is a cross-margin order.
    pub fn cancel_user_order(&mut self, user_order_index: usize) -> (r: BumpResult)
        requires
            user_order_index < 8,
        ensures
            ({
                let o = old(self).user_orders@[user_order_index as int];
                &&& o.is_portfolio_margin && old(self).hold < o.order_margin ==> r == Err::<
                    (),
                    BumpErrorCode,
                >(BumpErrorCode::AmountNotEnough) && *final(self) == *old(self)
                &&& !(o.is_portfolio_margin && old(self).hold < o.order_margin) ==> r == Ok::<
                    (),
                    BumpErrorCode,
                >(()) && is_empty_order(final(self).user_orders@[user_order_index as int])
                    && final(self).user_orders@ == old(self).user_orders@.update(
                    user_order_index as int,
                    final(self).user_orders@[user_order_index as int],
                ) && same_but_orders(*old(self), *final(self)) && final(self).hold == (if o.is_portfolio_margin {
                    old(self).hold - o.order_margin
                } else {
                    old(self).hold as int
                })
            }),
    {
        let user_order = self.user_orders[user_order_index];
        if user_order.is_portfolio_margin {
            self.sub_order_hold_in_usd(user_order.order_margin)?;
        }
        self.user_orders[user_order_index] = UserOrder::default();
        Ok(())
    }

    /// Some order (in any slot state) is an increasing short order of the
    /// market, margin token and margin mode.
    pub fn has_other_short_order(&self, symbol: [u8; 32], margin_token: Pubkey, is_cross_margin: bool) -> (r:
        BumpResult<bool>)
        ensures
            r == Ok::<bool, BumpErrorCode>(
                exists|j: int|
                    0 <= j < 8 && is_other_short_order(
                        #[trigger] self.user_orders@[j],
                        symbol@,
                        margin_token@,
                        is_cross_margin,
                    ),
            ),
    {
        let mut i: usize = 0;
        while i < 8
            invariant
                i <= 8,
                forall|j: int|
                    0 <= j < i ==> !is_other_short_order(
                        #[trigger] self.user_orders@[j],
                        symbol@,
                        margin_token@,
                        is_cross_margin,
                    ),
            decreases 8 - i,
        {
            let order = &self.user_orders[i];
            if key_eq(&order.symbol, &symbol) && key_eq(&order.margin_mint_key, &margin_token)
                && order.is_portfolio_margin == is_cross_margin && order.position_side
                == PositionSide::INCREASE && order.order_side == OrderSide::SHORT {
                return Ok(true);
            }
            i = i + 1;
        }
        Ok(false)
    }

    /// Some order slot (in any state) carries `order_id`.
    pub fn has_other_order(self, order_id: u64) -> (r: BumpResult<bool>)
        ensures
            r == Ok::<bool, BumpErrorCode>(
                exists|j: int| 0 <= j < 8 && (#[trigger] self.user_orders@[j]).order_id == order_id,
            ),
    {
        let mut i: usize = 0;
        while i < 8
            invariant
                i <= 8,
                forall|j: int| 0 <= j < i ==> (#[trigger] self.user_orders@[j]).order_id != order_id,
            decreases 8 - i,
        {
            if self.user_orders[i].order_id == order_id {
                return Ok(true);
            }
            i = i + 1;
        }
        Ok(false)
    }

    /// Leverage of the first decreasing order of the market on `order_side`
    /// in the margin mode, or `leverage` when there is none.
    pub fn get_order_leverage(
        &self,
        symbol: [u8; 32],
        order_side: OrderSide,
        is_cross_margin: bool,
        leverage: u32,
    ) -> (r: BumpResult<u32>)
        ensures
            (forall|j: int|
                0 <= j < 8 ==> !is_leverage_order(
                    #[trigger] self.user_orders@[j],
                    symbol@,
                    order_side,
                    is_cross_margin,
                )) ==> r == Ok::<u32, BumpErrorCode>(leverage),
            r matches Ok(v) ==> v == leverage || exists|i: int|
                0 <= i < 8 && is_leverage_order(self.user_orders@[i], symbol@, order_side, is_cross_margin)
                    && v == self.user_orders@[i].leverage && forall|j: int|
                    0 <= j < i ==> !is_leverage_order(
                        #[trigger] self.user_orders@[j],
                        symbol@,
                        order_side,
                        is_cross_margin,
                    ),
            r is Ok,
    {
        let mut i: usize = 0;
        while i < 8
            invariant
                i <= 8,
                forall|j: int|
                    0 <= j < i ==> !is_leverage_order(
                        #[trigger] self.user_orders@[j],
                        symbol@,
                        order_side,
                        is_cross_margin,
                    ),
            decreases 8 - i,
        {
            let order = &self.user_orders[i];
            if key_eq(&order.symbol, &symbol) && order.order_side == order_side && order.position_side
                == PositionSide::DECREASE && order.is_portfolio_margin == is_cross_margin {
                return Ok(order.leverage);
            }
            i = i + 1;
        }
        Ok(leverage)
    }

    /// Sets `leverage` on every pending order that follows the position's
    /// leverage (see `follows_position_leverage`).
    pub fn update_all_orders_leverage(
        &mut self,
        leverage: u32,
        symbol: [u8; 32],
        margin_token: &Pubkey,
        is_long: bool,
        is_cross_margin: bool,
    ) -> (r: BumpResult)
        ensures
            r == Ok::<(), BumpErrorCode>(()),
            same_but_orders(*old(self), *final(self)),
            final(self).hold == old(self).hold,
            forall|j: int|
                0 <= j < 8 ==> #[trigger] final(self).user_orders@[j] == (if follows_position_leverage(
                    old(self).user_orders@[j],
                    symbol@,
                    margin_token@,
                    is_long,
                    is_cross_margin,
                ) {
                    UserOrder { leverage, ..old(self).user_orders@[j] }
                } else {
                    old(self).user_orders@[j]
                }),
    {
        let mut i: usize = 0;
        while i < 8
            invariant
                i <= 8,
                same_but_orders(*old(self), *self),
                self.hold == old(self).hold,
                forall|j: int|
                    0 <= j < i ==> #[trigger] self.user_orders@[j] == (if follows_position_leverage(
                        old(self).user_orders@[j],
                        symbol@,
                        margin_token@,
                        is_long,
                        is_cross_margin,
                    ) {
                        UserOrder { leverage, ..old(self).user_orders@[j] }
                    } else {
                        old(self).user_orders@[j]
                    }),
                forall|j: int| i <= j < 8 ==> #[trigger] self.user_orders@[j] == old(self).user_orders@[j],
            decreases 8 - i,
        {
            let mut user_order = self.user_orders[i];
            if user_order.status == OrderStatus::USING {
                let is_long_order = user_order.order_side == OrderSide::LONG;
                if user_order.is_portfolio_margin == is_cross_margin && key_eq(
                    &user_order.symbol,
                    &symbol,
                ) && key_eq(&user_order.margin_mint_key, margin_token) && ((is_long_order
                    == is_long && user_order.position_side == PositionSide::INCREASE) || (
                is_long_order != (user_order.position_side == PositionSide::DECREASE))) {
                    user_order.set_leverage(leverage);
                    self.user_orders[i] = user_order;
                }
            }
            i = i + 1;
        }
        Ok(())
    }

    /// Cancels the pending stop orders of the same market, margin token and
    /// margin mode other than `order_id`: for each such order, as the orders
    /// were, the first pending order with its id is removed (see
    /// `cancel_stop_walk`). On failure nothing changes.
    pub fn cancel_stop_orders(
        &mut self,
        order_id: u64,
        symbol: [u8; 32],
        margin_token: &Pubkey,
        is_cross_margin: bool,
    ) -> (r: BumpResult)
        ensures
            match cancel_stop_walk(
                old(self).user_orders@,
                old(self).user_orders@,
                0,
                order_id,
                symbol@,
                margin_token@,
                is_cross_margin,
            ) {
                Err(e) => r == Err::<(), BumpErrorCode>(e) && *final(self) == *old(self),
                Ok(os) => r == Ok::<(), BumpErrorCode>(()) && final(self).user_orders@ == os
                    && same_but_orders(*old(self), *final(self)) && final(self).hold == old(
                    self,
                ).hold,
            },
    {
        let orders = self.user_orders;
        let mut u = *self;
        let mut i: usize = 0;
        while i < 8
            invariant
                i <= 8,
                orders@ == old(self).user_orders@,
                *self == *old(self),
                same_but_orders(*old(self), u),
                u.hold == old(self).hold,
                cancel_stop_walk(
                    orders@,
                    orders@,
                    0,
                    order_id,
                    symbol@,
                    margin_token@,
                    is_cross_margin,
                ) == cancel_stop_walk(
                    orders@,
                    u.user_orders@,
                    i as int,
                    order_id,
                    symbol@,
                    margin_token@,
                    is_cross_margin,
                ),
            decreases 8 - i,
        {
            let user_order = orders[i];
            if user_order.status != OrderStatus::INIT && user_order.order_id != order_id && key_eq(
                &user_order.symbol,
                &symbol,
            ) && key_eq(&user_order.margin_mint_key, margin_token) && user_order.order_type
                == OrderType::STOP && user_order.is_portfolio_margin == is_cross_margin {
                u.delete_order(user_order.order_id)?;
            }
            i = i + 1;
        }
        *self = u;
        Ok(())
    }
}

} // verus!
