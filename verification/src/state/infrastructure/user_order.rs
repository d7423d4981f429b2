//! A user's pending order.
use vstd::prelude::*;

use crate::pubkey::{zero_key, zero_pubkey, Pubkey};

verus! {

/// A pending order of a user.
#[derive(Clone, Copy, Debug)]
pub struct UserOrder {
    /// Margin of the order (tokens; USD for cross-margin orders).
    pub order_margin: u128,
    pub order_size: u128,
    pub trigger_price: u128,
    pub acceptable_price: u128,
    pub created_at: i64,
    pub order_id: u64,
    pub margin_mint_key: Pubkey,
    pub authority: Pubkey,
    pub user_token_account: Pubkey,
    pub symbol: [u8; 32],
    /// Leverage (rate precision).
    pub leverage: u32,
    pub order_side: OrderSide,
    pub position_side: PositionSide,
    pub order_type: OrderType,
    pub stop_type: StopType,
    pub status: OrderStatus,
    pub is_portfolio_margin: bool,
}

/// Direction of an order.
#[derive(Clone, Copy, Debug, PartialEq, Eq, Structural)]
pub enum OrderSide {
    NONE,
    LONG,
    SHORT,
}

/// Whether an order slot is free or in use.
#[derive(Clone, Copy, Debug, PartialEq, Eq, Structural)]
pub enum OrderStatus {
    INIT,
    USING,
}

/// Whether an order opens (increases) or closes (decreases) a position.
#[derive(Clone, Copy, Debug, PartialEq, Eq, Structural)]
pub enum PositionSide {
    NONE,
    INCREASE,
    DECREASE,
}

/// How an order is triggered.
#[derive(Clone, Copy, Debug, PartialEq, Eq, Structural)]
pub enum OrderType {
    NONE,
    MARKET,
    LIMIT,
    STOP,
}

/// Kind of a stop order.
#[derive(Clone, Copy, Debug, PartialEq, Eq, Structural)]
pub enum StopType {
    NONE,
    StopLoss,
    TakeProfit,
}

impl Default for OrderSide {
    fn default() -> (r: Self)
        ensures
            r == OrderSide::NONE,
    {
        OrderSide::NONE
    }
}

impl Default for OrderStatus {
    fn default() -> (r: Self)
        ensures
            r == OrderStatus::INIT,
    {
        OrderStatus::INIT
    }
}

impl Default for PositionSide {
    fn default() -> (r: Self)
        ensures
            r == PositionSide::NONE,
    {
        PositionSide::NONE
    }
}

impl Default for OrderType {
    fn default() -> (r: Self)
        ensures
            r == OrderType::NONE,
    {
        OrderType::NONE
    }
}

impl Default for StopType {
    fn default() -> (r: Self)
        ensures
            r == StopType::NONE,
    {
        StopType::NONE
    }
}

/// The empty order: every amount zero, every key zero, slot free.
pub open spec fn is_empty_order(o: UserOrder) -> bool {
    &&& o.order_margin == 0 && o.order_size == 0 && o.trigger_price == 0
    &&& o.acceptable_price == 0 && o.created_at == 0 && o.order_id == 0
    &&& o.margin_mint_key@ == zero_key() && o.authority@ == zero_key()
    &&& o.user_token_account@ == zero_key() && o.symbol@ == zero_key()
    &&& o.leverage == 0 && o.order_side == OrderSide::NONE
    &&& o.position_side == PositionSide::NONE && o.order_type == OrderType::NONE
    &&& o.stop_type == StopType::NONE && o.status == OrderStatus::INIT
    &&& !o.is_portfolio_margin
}

/// The order every free slot holds (it is unique: see
/// `lemma_empty_order_unique`).
pub open spec fn empty_order_spec() -> UserOrder {
    choose|o: UserOrder| is_empty_order(o)
}

/// Every empty order is `empty_order_spec()`.
pub proof fn lemma_empty_order_unique(q: UserOrder)
    requires
        is_empty_order(q),
    ensures
        q == empty_order_spec(),
{
    let c = empty_order_spec();
    assert(is_empty_order(c));
    assert(c.margin_mint_key =~= q.margin_mint_key);
    assert(c.authority =~= q.authority);
    assert(c.user_token_account =~= q.user_token_account);
    assert(c.symbol =~= q.symbol);
}

impl Default for UserOrder {
    fn default() -> (r: Self)
        ensures
            is_empty_order(r),
    {
        UserOrder {
            order_margin: 0,
            order_size: 0,
            trigger_price: 0,
            acceptable_price: 0,
            created_at: 0,
            order_id: 0,
            margin_mint_key: zero_pubkey(),
            authority: zero_pubkey(),
            user_token_account: zero_pubkey(),
            symbol: zero_pubkey(),
            leverage: 0,
            order_side: OrderSide::NONE,
            position_side: PositionSide::NONE,
            order_type: OrderType::NONE,
            stop_type: StopType::NONE,
            status: OrderStatus::INIT,
            is_portfolio_margin: false,
        }
    }
}

impl UserOrder {
    /// Sets the order's leverage.
    pub fn set_leverage(&mut self, leverage: u32)
        ensures
            *final(self) == (UserOrder { leverage, ..*old(self) }),
    {
        self.leverage = leverage;
    }
}

} // verus!
