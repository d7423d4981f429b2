//! Execution of orders on positions: prices, fees, opening, closing and
//! margin changes.
use vstd::array::spec_array_update;
use vstd::prelude::*;

use crate::calculator::{
    compute_avg_entry_price, div_rate_u, get_mm, mm_spec, mul_div_u, avg_entry_price_spec, lemma_avg_entry_is_weighted_mean, mul_per_token_rate_i, mul_per_token_rate_u, mul_rate_u,
    token_to_usd_i, token_to_usd_u, usd_to_token_i, usd_to_token_u,
};
use crate::errors::{BumpErrorCode, BumpResult};
use crate::math::{
    abs_to_u, cast_to_i, cast_to_u, ck_u, fits_i, fits_u, mul_div_i_spec, mul_div_spec, res_i,
    safe_add_i, safe_add_u, safe_div_i, safe_div_u, safe_mul_i, safe_mul_u, safe_sub_i, safe_sub_u, tdiv,
    token_to_usd_i_spec, token_to_usd_spec, usd_to_token_i_spec, usd_to_token_spec,
    pow10_spec, PER_TOKEN_PRECISION, PRICE_TO_USD_PRECISION, RATE_PRECISION,
};
use crate::state::infrastructure::market_funding_fee::MarketFundingFee;
use crate::state::infrastructure::pool_borrowing_fee::{
    borrowing_fee_update_spec, total_borrowing_fee_update_spec,
};
use crate::state::pool::{
    hold_pool_amount_spec, pnl_settlement_spec, with_hold, Pool, PoolBalance, PoolMarketInput,
};
use crate::pubkey::{key_eq, Pubkey};
use crate::utils::pda::{generate_position_key, program_address};
use crate::state::infrastructure::user_order::{
    is_empty_order, OrderSide, OrderType, PositionSide, StopType, UserOrder,
};
use crate::state::infrastructure::user_position::{
    blank_position_spec, empty_position_spec, lemma_blank_position_unique,
    lemma_empty_position_unique, un_pnl_usd_spec, UserPosition,
};
use crate::processor::fee_processor::{
    book_fee_spec, collect_borrowing_fee, collect_close_position_fee, collect_open_position_fee,
    settle_funding_fee,
    settle_funding_fee_spec,
};
use crate::state::market::{
    market_funding_update_spec, oi_update_spec, with_side, Market, UpdateOIParams,
};
use crate::state::state::State;
use crate::state::infrastructure::user_token::{UserToken, UserTokenStatus};
use crate::state::lookup::TokenPrice;
use crate::state::user_value::available_value_spec;
use crate::state::trade_token::TradeToken;
use crate::state::user::{
    debit_with_liability_spec, has_position, has_token, is_first_keyed_position, keyed_position_slot,
    lemma_has_keyed_slot, lemma_keyed_position_slot, lemma_position_slot, position_slot, repay_spec,
    free_position_slot, free_token_slot, has_free_position_slot, has_free_token_slot,
    lemma_has_free_token_slot, has_order, is_first_position, order_slot, same_but_orders,
    use_token_spec, lemma_free_position_slot,
    cancel_stop_walk, remove_pending, is_first_token, lemma_has_token_slot, lemma_token_slot, token_slot,
    with_token, User, UserTokenUpdateReason,
};
use crate::state::user_margin::portfolio_change_walk;

verus! {

/// What closing (part of) a position settles, in margin tokens and in USD.
#[derive(Clone, Copy, Debug, PartialEq, Eq, Structural)]
pub struct UpdateDecreaseResponse {
    pub margin_token_price: u128,
    /// Margin released (margin tokens).
    pub decrease_margin: u128,
    /// Margin released (USD).
    pub decrease_margin_in_usd: u128,
    /// Pool amount no longer held for the position.
    pub un_hold_pool_amount: u128,
    pub settle_borrowing_fee: u128,
    pub settle_borrowing_fee_in_usd: u128,
    pub settle_funding_fee: i128,
    pub settle_funding_fee_in_usd: i128,
    pub settle_close_fee: u128,
    pub settle_close_fee_in_usd: u128,
    /// Sum of the fees settled (margin tokens).
    pub settle_fee: i128,
    /// What the trader gets back (margin tokens).
    pub settle_margin: i128,
    /// Profit of the trader (margin tokens).
    pub user_realized_pnl_token: i128,
    /// Profit of the pool (margin tokens).
    pub pool_pnl_token: i128,
    /// Part of the released margin (USD) that came from the portfolio.
    pub decrease_margin_in_usd_from_portfolio: u128,
    /// Profit of the trader (USD).
    pub user_realized_pnl: i128,
    pub is_liquidation: bool,
}

/// A request to close (part of) a position.
#[derive(Clone, Copy, Debug)]
pub struct DecreasePositionParams {
    pub order_id: u64,
    pub is_liquidation: bool,
    pub is_portfolio_margin: bool,
    pub margin_token: Pubkey,
    pub decrease_size: u128,
    pub execute_price: u128,
}

/// A request to open or grow a position.
#[derive(Clone, Copy, Debug)]
pub struct IncreasePositionParams {
    pub margin_token: Pubkey,
    pub increase_margin: u128,
    pub increase_margin_from_balance: u128,
    pub margin_token_price: u128,
    pub index_token_price: u128,
    pub leverage: u128,
    pub is_long: bool,
    pub is_portfolio_margin: bool,
    pub decimals: u16,
}

// ---------------------------------------------------------------------------
// Orders
// ---------------------------------------------------------------------------

/// Whether an order is margined in the market's base token (`Some(true)`)
/// or its stable token (`Some(false)`): longs open and shorts close in the
/// base token.
pub open spec fn use_base_token_spec(position_side: PositionSide, order_side: OrderSide) -> Option<bool> {
    match (position_side, order_side) {
        (PositionSide::INCREASE, OrderSide::LONG) => Some(true),
        (PositionSide::INCREASE, OrderSide::SHORT) => Some(false),
        (PositionSide::DECREASE, OrderSide::LONG) => Some(false),
        (PositionSide::DECREASE, OrderSide::SHORT) => Some(true),
        _ => None,
    }
}

/// Which token margins an order (see `use_base_token_spec`); any other
/// combination is an invalid parameter.
pub fn use_base_token(position_side: &PositionSide, order_side: &OrderSide) -> (r: BumpResult<bool>)
    ensures
        use_base_token_spec(*position_side, *order_side) matches Some(b) ==> r == Ok::<
            bool,
            BumpErrorCode,
        >(b),
        use_base_token_spec(*position_side, *order_side) is None ==> r == Err::<
            bool,
            BumpErrorCode,
        >(BumpErrorCode::InvalidParam),
{
    match (position_side, order_side) {
        (PositionSide::INCREASE, OrderSide::LONG) => Ok(true),
        (PositionSide::INCREASE, OrderSide::SHORT) => Ok(false),
        (PositionSide::DECREASE, OrderSide::LONG) => Ok(false),
        (PositionSide::DECREASE, OrderSide::SHORT) => Ok(true),
        _ => Err(BumpErrorCode::InvalidParam),
    }
}

/// The index price is acceptable for the order: a market order within its
/// acceptable price (none when zero); a limit or take-profit order once the
/// price has crossed its trigger in the trader's favour; a stop-loss once
/// it has crossed against the trader.
pub open spec fn price_allowed_spec(index_price: int, order: UserOrder) -> bool {
    let long = order.order_side == OrderSide::LONG;
    let short = order.order_side == OrderSide::SHORT;
    if order.order_type == OrderType::MARKET {
        !(order.acceptable_price > 0 && long && index_price >= order.acceptable_price)
            && !(order.acceptable_price > 0 && short && index_price <= order.acceptable_price)
    } else if order.order_type == OrderType::LIMIT || (order.order_type == OrderType::STOP
        && order.stop_type == StopType::TakeProfit) {
        (long && order.trigger_price >= index_price) || (!long && order.trigger_price
            <= index_price)
    } else {
        order.order_type == OrderType::STOP && order.stop_type == StopType::StopLoss && ((long
            && order.trigger_price <= index_price) || (!long && order.trigger_price
            >= index_price))
    }
}

/// Price an order executes at: the index price, when the order accepts it
/// (see `price_allowed_spec`).
pub fn get_execution_price(index_price: u128, order: &UserOrder) -> (r: BumpResult<u128>)
    ensures
        price_allowed_spec(index_price as int, *order) ==> r == Ok::<u128, BumpErrorCode>(
            index_price,
        ),
        !price_allowed_spec(index_price as int, *order) ==> r == Err::<u128, BumpErrorCode>(
            BumpErrorCode::PriceIsNotAllowed,
        ),
{
    if order.order_type == OrderType::MARKET {
        if order.acceptable_price > 0 {
            if order.order_side == OrderSide::LONG && index_price >= order.acceptable_price {
                return Err(BumpErrorCode::PriceIsNotAllowed);
            }
            if order.order_side == OrderSide::SHORT && index_price <= order.acceptable_price {
                return Err(BumpErrorCode::PriceIsNotAllowed);
            }
        }
        return Ok(index_price);
    }
    let long = order.order_side == OrderSide::LONG;
    if order.order_type == OrderType::LIMIT || (order.order_type == OrderType::STOP
        && order.stop_type == StopType::TakeProfit) {
        if (long && order.trigger_price >= index_price) || (!long && order.trigger_price
            <= index_price) {
            return Ok(index_price);
        }
        return Err(BumpErrorCode::PriceIsNotAllowed);
    }
    if order.order_type == OrderType::STOP && order.stop_type == StopType::StopLoss && ((long
        && order.trigger_price <= index_price) || (!long && order.trigger_price >= index_price)) {
        return Ok(index_price);
    }
    Err(BumpErrorCode::PriceIsNotAllowed)
}

/// An order's leverage must lie within the market's bounds.
pub fn validate_execute_order(order: &UserOrder, market: &Market) -> (r: BumpResult)
    ensures
        r is Ok <==> (market.config.minimum_leverage <= order.leverage
            <= market.config.maximum_leverage),
        r is Err ==> r == Err::<(), BumpErrorCode>(BumpErrorCode::LeverageIsNotAllowed),
{
    if order.leverage > market.config.maximum_leverage || order.leverage
        < market.config.minimum_leverage {
        return Err(BumpErrorCode::LeverageIsNotAllowed);
    }
    Ok(())
}

// ---------------------------------------------------------------------------
// Closing a position
// ---------------------------------------------------------------------------

/// Share `part / whole` of a pair of amounts, the whole pair when the whole
/// position closes.
pub open spec fn share_pair_u(a: int, b: int, part: int, whole: int) -> Option<(int, int)> {
    if part == whole {
        Some((a, b))
    } else {
        match (mul_div_spec(a, part, whole), mul_div_spec(b, part, whole)) {
            (Some(x), Some(y)) => Some((x, y)),
            _ => None,
        }
    }
}

/// Signed counterpart of `share_pair_u` (the sizes taken as `i128`).
pub open spec fn share_pair_i(a: int, b: int, part: int, whole: int) -> Option<(int, int)> {
    if part == whole {
        Some((a, b))
    } else if !fits_i(part) || !fits_i(whole) {
        None
    } else {
        match (mul_div_i_spec(a, part, whole), mul_div_i_spec(b, part, whole)) {
            (Some(x), Some(y)) => Some((x, y)),
            _ => None,
        }
    }
}

/// Borrowing fee settled by closing `decrease_size` of the position:
/// its share of the realized fee (tokens, USD).
pub open spec fn decrease_borrowing_fee_spec(p: UserPosition, decrease_size: int) -> Option<(int, int)> {
    share_pair_u(
        p.realized_borrowing_fee as int,
        p.realized_borrowing_fee_in_usd as int,
        decrease_size,
        p.position_size as int,
    )
}

/// Funding fee settled by closing `decrease_size` of the position.
pub open spec fn decrease_funding_fee_spec(p: UserPosition, decrease_size: int) -> Option<(int, int)> {
    share_pair_i(
        p.realized_funding_fee as int,
        p.realized_funding_fee_in_usd as int,
        decrease_size,
        p.position_size as int,
    )
}

/// Close fee (USD) of a partial close before it is shared: the fee rate on
/// the closed size, capped by the close fee the position carries.
pub open spec fn capped_close_fee_spec(p: UserPosition, decrease_size: int, close_fee_rate: int) -> int {
    let c = mul_div_spec(decrease_size, close_fee_rate, RATE_PRECISION as int)->0;
    if c > p.close_fee_in_usd {
        p.close_fee_in_usd as int
    } else {
        c
    }
}

/// The conversions of the close fee that cannot fail: those that the
/// computation of the close fee unwraps.
pub open spec fn close_fee_defined(
    p: UserPosition,
    decrease_size: int,
    decimals: int,
    price: int,
    close_fee_rate: int,
) -> bool {
    if p.position_size == decrease_size {
        usd_to_token_spec(p.close_fee_in_usd as int, decimals, price) is Some
    } else {
        mul_div_spec(decrease_size, close_fee_rate, RATE_PRECISION as int) is Some
    }
}

/// Close fee settled by closing `decrease_size` (tokens, USD): the whole
/// carried fee on a full close; otherwise the capped fee, shared in
/// proportion of the size closed.
pub open spec fn decrease_close_fee_spec(
    p: UserPosition,
    decrease_size: int,
    decimals: int,
    price: int,
    close_fee_rate: int,
) -> Option<(int, int)> {
    if p.position_size == decrease_size {
        Some(
            (
                usd_to_token_spec(p.close_fee_in_usd as int, decimals, price)->0,
                p.close_fee_in_usd as int,
            ),
        )
    } else {
        let fee_usd = capped_close_fee_spec(p, decrease_size, close_fee_rate);
        match usd_to_token_spec(fee_usd, decimals, price) {
            Some(t) => match (
                mul_div_spec(t, decrease_size, p.position_size as int),
                mul_div_spec(fee_usd, decrease_size, p.position_size as int),
            ) {
                (Some(x), Some(y)) => Some((x, y)),
                _ => None,
            },
            None => None,
        }
    }
}

/// Sum of the funding, borrowing and close fees in USD.
pub open spec fn pos_fee_spec(funding: int, borrowing: int, close: int) -> Option<int> {
    if fits_i(borrowing) && fits_i(close) && fits_i(funding + borrowing) && fits_i(
        funding + borrowing + close,
    ) {
        Some(funding + borrowing + close)
    } else {
        None
    }
}

/// Sum of the position fees in USD.
pub fn get_pos_fee_in_usd(funding_fee_in_usd: i128, borrowing_fee_in_usd: u128, close_fee_in_usd: u128) -> (r:
    BumpResult<i128>)
    ensures
        r == res_i(
            pos_fee_spec(
                funding_fee_in_usd as int,
                borrowing_fee_in_usd as int,
                close_fee_in_usd as int,
            ),
        ),
{
    let b = cast_to_i(borrowing_fee_in_usd)?;
    let t = safe_add_i(funding_fee_in_usd, b)?;
    let c = cast_to_i(close_fee_in_usd)?;
    safe_add_i(t, c)
}

/// Borrowing fee settled by a close (see `decrease_borrowing_fee_spec`).
pub fn cal_decrease_borrowing_fee(position: &UserPosition, decrease_size: u128) -> (r: BumpResult<
    (u128, u128),
>)
    ensures
        decrease_borrowing_fee_spec(*position, decrease_size as int) matches Some(v) ==> r == Ok::<
            (u128, u128),
            BumpErrorCode,
        >((v.0 as u128, v.1 as u128)),
        decrease_borrowing_fee_spec(*position, decrease_size as int) is None ==> r == Err::<
            (u128, u128),
            BumpErrorCode,
        >(BumpErrorCode::MathError),
        r matches Ok(v) ==> fits_u(v.0 as int) && fits_u(v.1 as int),
{
    if position.position_size == decrease_size {
        return Ok((position.realized_borrowing_fee, position.realized_borrowing_fee_in_usd));
    }
    let a = mul_div_u(position.realized_borrowing_fee, decrease_size, position.position_size)?;
    let b = mul_div_u(
        position.realized_borrowing_fee_in_usd,
        decrease_size,
        position.position_size,
    )?;
    Ok((a, b))
}

/// Funding fee settled by a close (see `decrease_funding_fee_spec`).
pub fn cal_decrease_funding_fee(position: &UserPosition, decrease_size: u128) -> (r: BumpResult<
    (i128, i128),
>)
    ensures
        decrease_funding_fee_spec(*position, decrease_size as int) matches Some(v) ==> r == Ok::<
            (i128, i128),
            BumpErrorCode,
        >((v.0 as i128, v.1 as i128)),
        decrease_funding_fee_spec(*position, decrease_size as int) is None ==> r == Err::<
            (i128, i128),
            BumpErrorCode,
        >(BumpErrorCode::MathError),
{
    if position.position_size == decrease_size {
        return Ok((position.realized_funding_fee, position.realized_funding_fee_in_usd));
    }
    let size = cast_to_i(decrease_size)?;
    let whole = cast_to_i(position.position_size)?;
    let p = safe_mul_i(position.realized_funding_fee, size)?;
    let a = safe_div_i(p, whole)?;
    let q = safe_mul_i(position.realized_funding_fee_in_usd, size)?;
    let b = safe_div_i(q, whole)?;
    Ok((a, b))
}

/// Close fee settled by a close (see `decrease_close_fee_spec`).
pub fn cal_decrease_close_fee(
    decrease_size: u128,
    trade_token: &TradeToken,
    token_price: u128,
    close_fee_rate: u128,
    position: &UserPosition,
) -> (r: BumpResult<(u128, u128)>)
    requires
        close_fee_defined(
            *position,
            decrease_size as int,
            trade_token.decimals as int,
            token_price as int,
            close_fee_rate as int,
        ),
    ensures
        decrease_close_fee_spec(
            *position,
            decrease_size as int,
            trade_token.decimals as int,
            token_price as int,
            close_fee_rate as int,
        ) matches Some(v) ==> r == Ok::<(u128, u128), BumpErrorCode>((v.0 as u128, v.1 as u128)),
        decrease_close_fee_spec(
            *position,
            decrease_size as int,
            trade_token.decimals as int,
            token_price as int,
            close_fee_rate as int,
        ) is None ==> r == Err::<(u128, u128), BumpErrorCode>(BumpErrorCode::MathError),
        r matches Ok(v) ==> fits_u(v.0 as int) && fits_u(v.1 as int),
{
    if position.position_size == decrease_size {
        let t = match usd_to_token_u(position.close_fee_in_usd, trade_token.decimals, token_price) {
            Ok(t) => t,
            Err(_) => {
                assert(false);
                0u128
            },
        };
        return Ok((t, position.close_fee_in_usd));
    }
    let mut close_fee_in_usd = match mul_rate_u(decrease_size, close_fee_rate) {
        Ok(c) => c,
        Err(_) => {
            assert(false);
            0u128
        },
    };
    if close_fee_in_usd > position.close_fee_in_usd {
        close_fee_in_usd = position.close_fee_in_usd;
    }
    let t = usd_to_token_u(close_fee_in_usd, trade_token.decimals, token_price)?;
    let a = mul_div_u(t, decrease_size, position.position_size)?;
    let b = mul_div_u(close_fee_in_usd, decrease_size, position.position_size)?;
    Ok((a, b))
}

/// Amount the trader gets back from a close, in margin tokens: on a full
/// liquidation, for portfolio margin, the USD margin less fees plus profit
/// less the maintenance margin, and nothing for isolated margin; otherwise
/// the closed share of (margin plus profit) less fees.
pub open spec fn settle_margin_spec(
    decrease_size: int,
    is_liquidation: bool,
    is_portfolio_margin: bool,
    pnl: int,
    price: int,
    market: Market,
    state: State,
    decimals: int,
    p: UserPosition,
    pos_fee: int,
) -> Option<int> {
    let ps = p.position_size as int;
    let imu = p.initial_margin_usd as int;
    if ps == decrease_size && is_liquidation {
        if is_portfolio_margin {
            match mm_spec(
                ps,
                market.config.maximum_leverage as int,
                state.maximum_maintenance_margin_rate as int,
            ) {
                Some(mm) => if fits_i(imu) && fits_i(imu - pos_fee) && fits_i(imu - pos_fee + pnl)
                    && fits_i(mm) && fits_i(imu - pos_fee + pnl - mm) {
                    usd_to_token_i_spec(imu - pos_fee + pnl - mm, decimals, price)
                } else {
                    None
                },
                None => None,
            }
        } else {
            Some(0)
        }
    } else {
        let closed = tdiv((imu + pnl) * decrease_size, ps);
        if fits_i(imu) && fits_i(imu + pnl) && fits_i(decrease_size) && fits_i(
            (imu + pnl) * decrease_size,
        ) && fits_i(ps) && ps != 0 && fits_i(closed) && fits_i(closed - pos_fee) {
            usd_to_token_i_spec(closed - pos_fee, decimals, price)
        } else {
            None
        }
    }
}

/// Outcome of closing `decrease_size` of a position at profit `pnl` (USD)
/// with the margin token at `price`: the fees settled, the margin released
/// and returned, and how the difference splits between the trader and the
/// pool. `None` when an amount leaves its range.
pub open spec fn decrease_response_spec(
    decrease_size: int,
    is_liquidation: bool,
    is_portfolio_margin: bool,
    pnl: int,
    price: int,
    market: Market,
    state: State,
    decimals: int,
    p: UserPosition,
) -> Option<UpdateDecreaseResponse> {
    let ps = p.position_size as int;
    let bf = decrease_borrowing_fee_spec(p, decrease_size);
    let ff = decrease_funding_fee_spec(p, decrease_size);
    let cf = decrease_close_fee_spec(
        p,
        decrease_size,
        decimals,
        price,
        market.config.close_fee_rate as int,
    );
    let b = bf->0;
    let f = ff->0;
    let c = cf->0;
    let fee = c.0 + f.0 + b.0;
    let dm = mul_div_spec(p.initial_margin as int, decrease_size, ps);
    let dmu = mul_div_spec(p.initial_margin_usd as int, decrease_size, ps);
    let uh = mul_div_spec(p.hold_pool_amount as int, decrease_size, ps);
    let pf = pos_fee_spec(f.1, b.1, c.1);
    let sm = settle_margin_spec(
        decrease_size,
        is_liquidation,
        is_portfolio_margin,
        pnl,
        price,
        market,
        state,
        decimals,
        p,
        pf->0,
    );
    let user_pnl_token = sm->0 - dm->0;
    let pool_pnl_token = dm->0 - sm->0 - fee;
    let user_pnl = token_to_usd_i_spec(user_pnl_token, decimals, price);
    let from_portfolio = dmu->0 + p.initial_margin_usd_from_portfolio;
    if bf is Some && ff is Some && cf is Some && fits_i(c.0) && fits_i(c.0 + f.0) && fits_i(b.0)
        && fits_i(fee) && dm is Some && dmu is Some && uh is Some && pf is Some && sm is Some
        && fits_i(dm->0) && fits_i(user_pnl_token) && fits_i(dm->0 - sm->0) && fits_i(
        pool_pnl_token,
    ) && user_pnl is Some && fits_u(from_portfolio) {
        Some(
            UpdateDecreaseResponse {
                margin_token_price: price as u128,
                decrease_margin: (dm->0) as u128,
                decrease_margin_in_usd: (dmu->0) as u128,
                un_hold_pool_amount: (uh->0) as u128,
                settle_borrowing_fee: b.0 as u128,
                settle_borrowing_fee_in_usd: b.1 as u128,
                settle_funding_fee: f.0 as i128,
                settle_funding_fee_in_usd: f.1 as i128,
                settle_close_fee: c.0 as u128,
                settle_close_fee_in_usd: c.1 as u128,
                settle_fee: fee as i128,
                settle_margin: (sm->0) as i128,
                user_realized_pnl_token: user_pnl_token as i128,
                pool_pnl_token: pool_pnl_token as i128,
                decrease_margin_in_usd_from_portfolio: (if from_portfolio
                    > p.initial_margin_usd {
                    from_portfolio - p.initial_margin_usd
                } else {
                    0
                }) as u128,
                user_realized_pnl: (user_pnl->0) as i128,
                is_liquidation,
            },
        )
    } else {
        None
    }
}

/// The computation of a close does not stop on an unwrapped conversion of
/// its close fee.
pub open spec fn decrease_defined(
    decrease_size: int,
    price: int,
    market: Market,
    decimals: int,
    p: UserPosition,
) -> bool {
    decrease_borrowing_fee_spec(p, decrease_size) is Some && decrease_funding_fee_spec(
        p,
        decrease_size,
    ) is Some ==> close_fee_defined(
        p,
        decrease_size,
        decimals,
        price,
        market.config.close_fee_rate as int,
    )
}

/// What closing `decrease_size` of `position` settles (see
/// `decrease_response_spec`); `pnl` is the position's unrealized profit in
/// USD and `margin_mint_token_price` the margin token's price.
pub fn calculate_decrease_position(
    decrease_size: u128,
    is_liquidation: bool,
    is_portfolio_margin: bool,
    pnl: i128,
    margin_mint_token_price: u128,
    market: &Market,
    state: &State,
    trade_token: &TradeToken,
    position: &UserPosition,
) -> (r: BumpResult<UpdateDecreaseResponse>)
    requires
        decrease_defined(
            decrease_size as int,
            margin_mint_token_price as int,
            *market,
            trade_token.decimals as int,
            *position,
        ),
    ensures
        decrease_response_spec(
            decrease_size as int,
            is_liquidation,
            is_portfolio_margin,
            pnl as int,
            margin_mint_token_price as int,
            *market,
            *state,
            trade_token.decimals as int,
            *position,
        ) matches Some(v) ==> r == Ok::<UpdateDecreaseResponse, BumpErrorCode>(v),
        decrease_response_spec(
            decrease_size as int,
            is_liquidation,
            is_portfolio_margin,
            pnl as int,
            margin_mint_token_price as int,
            *market,
            *state,
            trade_token.decimals as int,
            *position,
        ) is None ==> r == Err::<UpdateDecreaseResponse, BumpErrorCode>(BumpErrorCode::MathError),
{
    let (settle_borrowing_fee, settle_borrowing_fee_in_usd) = cal_decrease_borrowing_fee(
        position,
        decrease_size,
    )?;
    let (settle_funding_fee, settle_funding_fee_in_usd) = cal_decrease_funding_fee(
        position,
        decrease_size,
    )?;
    let (settle_close_fee, settle_close_fee_in_usd) = cal_decrease_close_fee(
        decrease_size,
        trade_token,
        margin_mint_token_price,
        market.config.close_fee_rate,
        position,
    )?;
    let close_i = cast_to_i(settle_close_fee)?;
    let fee1 = safe_add_i(close_i, settle_funding_fee)?;
    let borrow_i = cast_to_i(settle_borrowing_fee)?;
    let settle_fee = safe_add_i(fee1, borrow_i)?;

    let decrease_margin = mul_div_u(position.initial_margin, decrease_size, position.position_size)?;
    let decrease_margin_in_usd = mul_div_u(
        position.initial_margin_usd,
        decrease_size,
        position.position_size,
    )?;
    let un_hold_pool_amount = mul_div_u(
        position.hold_pool_amount,
        decrease_size,
        position.position_size,
    )?;
    let pos_fee = get_pos_fee_in_usd(
        settle_funding_fee_in_usd,
        settle_borrowing_fee_in_usd,
        settle_close_fee_in_usd,
    )?;
    let settle_margin = settle_margin_of(
        decrease_size,
        is_liquidation,
        is_portfolio_margin,
        pnl,
        margin_mint_token_price,
        market,
        state,
        trade_token,
        position,
        pos_fee,
    )?;
    let dm_i = cast_to_i(decrease_margin)?;
    let user_realized_pnl_token = safe_sub_i(settle_margin, dm_i)?;
    let pool_1 = safe_sub_i(dm_i, settle_margin)?;
    let pool_pnl_token = safe_sub_i(pool_1, settle_fee)?;
    let user_realized_pnl = token_to_usd_i(
        user_realized_pnl_token,
        trade_token.decimals,
        margin_mint_token_price,
    )?;
    let from_portfolio = safe_add_u(
        decrease_margin_in_usd,
        position.initial_margin_usd_from_portfolio,
    )?;
    let decrease_margin_in_usd_from_portfolio = if from_portfolio > position.initial_margin_usd {
        from_portfolio - position.initial_margin_usd
    } else {
        0u128
    };
    Ok(
        UpdateDecreaseResponse {
            margin_token_price: margin_mint_token_price,
            decrease_margin,
            decrease_margin_in_usd,
            un_hold_pool_amount,
            settle_borrowing_fee,
            settle_borrowing_fee_in_usd,
            settle_funding_fee,
            settle_funding_fee_in_usd,
            settle_close_fee,
            settle_close_fee_in_usd,
            settle_fee,
            settle_margin,
            user_realized_pnl_token,
            pool_pnl_token,
            decrease_margin_in_usd_from_portfolio,
            user_realized_pnl,
            is_liquidation,
        },
    )
}

/// Amount returned to the trader by a close (see `settle_margin_spec`).
fn settle_margin_of(
    decrease_size: u128,
    is_liquidation: bool,
    is_portfolio_margin: bool,
    pnl: i128,
    price: u128,
    market: &Market,
    state: &State,
    trade_token: &TradeToken,
    position: &UserPosition,
    pos_fee: i128,
) -> (r: BumpResult<i128>)
    ensures
        r == res_i(
            settle_margin_spec(
                decrease_size as int,
                is_liquidation,
                is_portfolio_margin,
                pnl as int,
                price as int,
                *market,
                *state,
                trade_token.decimals as int,
                *position,
                pos_fee as int,
            ),
        ),
{
    if position.position_size == decrease_size && is_liquidation {
        if is_portfolio_margin {
            let imu = cast_to_i(position.initial_margin_usd)?;
            let x1 = safe_sub_i(imu, pos_fee)?;
            let x2 = safe_add_i(x1, pnl)?;
            let mm = get_mm(
                position.position_size,
                market.config.maximum_leverage,
                state.maximum_maintenance_margin_rate,
            )?;
            let mm_i = cast_to_i(mm)?;
            let x3 = safe_sub_i(x2, mm_i)?;
            usd_to_token_i(x3, trade_token.decimals, price)
        } else {
            Ok(0i128)
        }
    } else {
        let imu = cast_to_i(position.initial_margin_usd)?;
        let x1 = safe_add_i(imu, pnl)?;
        let size = cast_to_i(decrease_size)?;
        let x2 = safe_mul_i(x1, size)?;
        let whole = cast_to_i(position.position_size)?;
        let x3 = safe_div_i(x2, whole)?;
        let x4 = safe_sub_i(x3, pos_fee)?;
        usd_to_token_i(x4, trade_token.decimals, price)
    }
}

/// A close splits the released margin exactly: what the trader gets back,
/// the pool's profit and the fees add up to the margin released; the
/// trader's profit and the pool's profit and the fees cancel out.
pub proof fn lemma_decrease_conserves_margin(
    decrease_size: int,
    is_liquidation: bool,
    is_portfolio_margin: bool,
    pnl: int,
    price: int,
    market: Market,
    state: State,
    decimals: int,
    p: UserPosition,
)
    requires
        decrease_response_spec(
            decrease_size,
            is_liquidation,
            is_portfolio_margin,
            pnl,
            price,
            market,
            state,
            decimals,
            p,
        ) is Some,
    ensures
        ({
            let v = decrease_response_spec(
                decrease_size,
                is_liquidation,
                is_portfolio_margin,
                pnl,
                price,
                market,
                state,
                decimals,
                p,
            )->0;
            &&& v.settle_margin + v.pool_pnl_token + v.settle_fee == v.decrease_margin
            &&& v.user_realized_pnl_token + v.pool_pnl_token + v.settle_fee == 0
        }),
{
}

/// Closing the whole position releases all of its margin and all that the
/// pool holds for it, and settles all of its borrowing and funding fees.
pub proof fn lemma_full_close_releases_everything(
    is_liquidation: bool,
    is_portfolio_margin: bool,
    pnl: int,
    price: int,
    market: Market,
    state: State,
    decimals: int,
    p: UserPosition,
)
    requires
        decrease_response_spec(
            p.position_size as int,
            is_liquidation,
            is_portfolio_margin,
            pnl,
            price,
            market,
            state,
            decimals,
            p,
        ) is Some,
    ensures
        ({
            let v = decrease_response_spec(
                p.position_size as int,
                is_liquidation,
                is_portfolio_margin,
                pnl,
                price,
                market,
                state,
                decimals,
                p,
            )->0;
            &&& v.decrease_margin == p.initial_margin
            &&& v.decrease_margin_in_usd == p.initial_margin_usd
            &&& v.un_hold_pool_amount == p.hold_pool_amount
            &&& v.settle_borrowing_fee == p.realized_borrowing_fee
            &&& v.settle_funding_fee == p.realized_funding_fee
            &&& v.settle_close_fee_in_usd == p.close_fee_in_usd
        }),
{
    let ps = p.position_size as int;
    assert(ps != 0);
    assert((p.initial_margin as int * ps) / ps == p.initial_margin as int) by (nonlinear_arith)
        requires
            ps != 0,
    ;
    assert((p.initial_margin_usd as int * ps) / ps == p.initial_margin_usd as int) by (
    nonlinear_arith)
        requires
            ps != 0,
    ;
    assert((p.hold_pool_amount as int * ps) / ps == p.hold_pool_amount as int) by (
    nonlinear_arith)
        requires
            ps != 0,
    ;
}

// ---------------------------------------------------------------------------
// Fees accrued on a position
// ---------------------------------------------------------------------------

/// Borrowing fee accrued by a position since it last settled (margin
/// tokens): the borrowed part of its margin, `margin * (leverage - 1)`,
/// times the growth of the pool's cumulative fee per token.
pub open spec fn accrued_borrowing_fee_spec(p: UserPosition, pool: Pool) -> Option<int> {
    match ck_u(p.leverage - RATE_PRECISION) {
        Some(lev) => match mul_div_spec(p.initial_margin as int, lev, RATE_PRECISION as int) {
            Some(borrowed) => match ck_u(
                pool.borrowing_fee.cumulative_borrowing_fee_per_token
                    - p.open_borrowing_fee_per_token,
            ) {
                Some(growth) => mul_div_spec(borrowed, growth, PER_TOKEN_PRECISION as int),
                None => None,
            },
            None => None,
        },
        None => None,
    }
}

/// Outcome of `update_borrowing_fee`: the accrued fee is added to the
/// position (in tokens and in USD at `price`) and to the pool's realized
/// total, and the position's accumulator catches up with the pool's.
pub open spec fn borrowing_settle_spec(p: UserPosition, pool: Pool, price: int, decimals: int) -> Option<
    (UserPosition, Pool),
> {
    match accrued_borrowing_fee_spec(p, pool) {
        Some(fee) => match token_to_usd_spec(fee, decimals, price) {
            Some(usd) => {
                let (er, f) = total_borrowing_fee_update_spec(pool.borrowing_fee, 0, true, fee, true);
                if fits_u(p.realized_borrowing_fee + fee) && fits_u(
                    p.realized_borrowing_fee_in_usd + usd,
                ) && er is Ok {
                    Some(
                        (
                            UserPosition {
                                realized_borrowing_fee: (p.realized_borrowing_fee + fee) as u128,
                                realized_borrowing_fee_in_usd: (p.realized_borrowing_fee_in_usd
                                    + usd) as u128,
                                open_borrowing_fee_per_token:
                                    pool.borrowing_fee.cumulative_borrowing_fee_per_token,
                                ..p
                            },
                            Pool { borrowing_fee: f, ..pool },
                        ),
                    )
                } else {
                    None
                }
            },
            None => None,
        },
        None => None,
    }
}

/// Settles the borrowing fee a position has accrued (see
/// `borrowing_settle_spec`); on failure nothing changes.
pub fn update_borrowing_fee(
    position: &mut UserPosition,
    pool: &mut Pool,
    token_price: u128,
    token: &TradeToken,
) -> (r: BumpResult)
    ensures
        borrowing_settle_spec(*old(position), *old(pool), token_price as int, token.decimals as int)
            matches Some(v) ==> r == Ok::<(), BumpErrorCode>(()) && *final(position) == v.0
            && *final(pool) == v.1,
        borrowing_settle_spec(*old(position), *old(pool), token_price as int, token.decimals as int)
            is None ==> r == Err::<(), BumpErrorCode>(BumpErrorCode::MathError) && *final(position)
            == *old(position) && *final(pool) == *old(pool),
{
    let mut p = *position;
    let mut pl = *pool;
    let lev = safe_sub_u(p.leverage as u128, RATE_PRECISION)?;
    let borrowed = mul_rate_u(p.initial_margin, lev)?;
    let growth = safe_sub_u(
        pl.borrowing_fee.cumulative_borrowing_fee_per_token,
        p.open_borrowing_fee_per_token,
    )?;
    let realized_borrowing_fee = mul_per_token_rate_u(borrowed, growth)?;
    p.add_realized_borrowing_fee(realized_borrowing_fee)?;
    let usd = token_to_usd_u(realized_borrowing_fee, token.decimals, token_price)?;
    p.add_realized_borrowing_fee_in_usd(usd)?;
    p.set_open_borrowing_fee_per_token(pl.borrowing_fee.cumulative_borrowing_fee_per_token)?;
    pl.borrowing_fee.update_total_borrowing_fee(0u128, true, realized_borrowing_fee, true)?;
    *position = p;
    *pool = pl;
    Ok(())
}

/// Funding accrued per unit of size since the position last settled.
pub open spec fn funding_per_size_spec(p: UserPosition, m: Market) -> int {
    if p.is_long {
        m.funding_fee.long_funding_fee_amount_per_size as int
    } else {
        m.funding_fee.short_funding_fee_amount_per_size as int
    }
}

/// Outcome of `update_funding_fee`: the funding accrued by the position's
/// size (USD for shorts' accumulator, tokens for longs') is added to the
/// position in tokens and in USD, to the market's total of its side (in
/// tokens) and to what the pool is to receive; the position's accumulator
/// catches up with the market's.
pub open spec fn funding_settle_spec(
    p: UserPosition,
    m: Market,
    pool: Pool,
    price: int,
    decimals: int,
) -> Option<(UserPosition, Market, Pool)> {
    let per = funding_per_size_spec(p, m);
    let diff = per - p.open_funding_fee_amount_per_size;
    if fits_i(p.position_size as int) && fits_i(diff) {
        match mul_div_i_spec(p.position_size as int, diff, PER_TOKEN_PRECISION as int) {
            Some(delta) => {
                let pair = if p.is_long {
                    match token_to_usd_i_spec(delta, decimals, price) {
                        Some(usd) => Some((delta, usd)),
                        None => None,
                    }
                } else {
                    match usd_to_token_i_spec(delta, decimals, price) {
                        Some(t) => Some((t, delta)),
                        None => None,
                    }
                };
                match pair {
                    Some((fee, usd)) => {
                        let total = if p.is_long {
                            m.funding_fee.total_long_funding_fee + fee
                        } else {
                            m.funding_fee.total_short_funding_fee + fee
                        };
                        if fits_i(p.realized_funding_fee + fee) && fits_i(
                            p.realized_funding_fee_in_usd + usd,
                        ) && fits_i(total) && fits_i(pool.balance.settle_funding_fee + delta) {
                            Some(
                                (
                                    UserPosition {
                                        realized_funding_fee: (p.realized_funding_fee + fee) as i128,
                                        realized_funding_fee_in_usd: (p.realized_funding_fee_in_usd
                                            + usd) as i128,
                                        open_funding_fee_amount_per_size: per as i128,
                                        ..p
                                    },
                                    if p.is_long {
                                        Market {
                                            funding_fee: MarketFundingFee {
                                                total_long_funding_fee: total as i128,
                                                ..m.funding_fee
                                            },
                                            ..m
                                        }
                                    } else {
                                        Market {
                                            funding_fee: MarketFundingFee {
                                                total_short_funding_fee: total as i128,
                                                ..m.funding_fee
                                            },
                                            ..m
                                        }
                                    },
                                    Pool {
                                        balance: PoolBalance {
                                            settle_funding_fee: (pool.balance.settle_funding_fee
                                                + delta) as i128,
                                            ..pool.balance
                                        },
                                        ..pool
                                    },
                                ),
                            )
                        } else {
                            None
                        }
                    },
                    None => None,
                }
            },
            None => None,
        }
    } else {
        None
    }
}

/// Settling a position's funding fee twice in a row against the same market,
/// pool, price and token: once a settlement has gone through, the position's
/// accumulator equals the market's, so the second settlement goes through
/// too and changes nothing.
pub proof fn lemma_funding_settle_twice(
    p: UserPosition,
    m: Market,
    pool: Pool,
    price: int,
    decimals: int,
)
    requires
        funding_settle_spec(p, m, pool, price, decimals) is Some,
    ensures
        ({
            let v = funding_settle_spec(p, m, pool, price, decimals)->0;
            funding_settle_spec(v.0, v.1, v.2, price, decimals) == Some(v)
        }),
{
    let v = funding_settle_spec(p, m, pool, price, decimals)->0;
    let per = funding_per_size_spec(p, m);
    assert(funding_per_size_spec(v.0, v.1) == per);
    let size = p.position_size as int;
    assert(size * 0 == 0) by (nonlinear_arith);
    assert(tdiv(0, PER_TOKEN_PRECISION as int) == 0);
    assert(mul_div_i_spec(size, 0, PER_TOKEN_PRECISION as int) == Some(0int));
    match pow10_spec(decimals) {
        Some(unit) => {
            assert(0int * price == 0 && 0int * unit == 0) by (nonlinear_arith);
            assert(unit != 0 ==> tdiv(0, unit) == 0);
            assert(price * PRICE_TO_USD_PRECISION != 0 ==> tdiv(0, price * PRICE_TO_USD_PRECISION)
                == 0);
        },
        None => {},
    }
}

/// Settles the funding fee a position has accrued (see
/// `funding_settle_spec`); on failure nothing changes.
pub fn update_funding_fee(
    position: &mut UserPosition,
    market: &mut Market,
    pool: &mut Pool,
    token_price: u128,
    token: &TradeToken,
) -> (r: BumpResult)
    ensures
        funding_settle_spec(
            *old(position),
            *old(market),
            *old(pool),
            token_price as int,
            token.decimals as int,
        ) matches Some(v) ==> r == Ok::<(), BumpErrorCode>(()) && *final(position) == v.0
            && *final(market) == v.1 && *final(pool) == v.2,
        funding_settle_spec(
            *old(position),
            *old(market),
            *old(pool),
            token_price as int,
            token.decimals as int,
        ) is None ==> r == Err::<(), BumpErrorCode>(BumpErrorCode::MathError) && *final(position)
            == *old(position) && *final(market) == *old(market) && *final(pool) == *old(pool),
{
    let mut p = *position;
    let mut m = *market;
    let mut pl = *pool;
    let per = if p.is_long {
        m.funding_fee.long_funding_fee_amount_per_size
    } else {
        m.funding_fee.short_funding_fee_amount_per_size
    };
    let size = cast_to_i(p.position_size)?;
    let diff = safe_sub_i(per, p.open_funding_fee_amount_per_size)?;
    let delta = mul_per_token_rate_i(size, diff)?;
    let realized_funding_fee;
    if p.is_long {
        realized_funding_fee = delta;
        p.add_realized_funding_fee(delta)?;
        let usd = token_to_usd_i(delta, token.decimals, token_price)?;
        p.add_realized_funding_fee_in_usd(usd)?;
    } else {
        realized_funding_fee = usd_to_token_i(delta, token.decimals, token_price)?;
        p.add_realized_funding_fee(realized_funding_fee)?;
        p.add_realized_funding_fee_in_usd(delta)?;
    }
    p.set_open_funding_fee_amount_per_size(per)?;
    m.update_market_total_funding_fee(realized_funding_fee, p.is_long)?;
    pl.update_pool_funding_fee(delta)?;
    *position = p;
    *market = m;
    *pool = pl;
    Ok(())
}

// ---------------------------------------------------------------------------
// Applying a close
// ---------------------------------------------------------------------------

/// The position after a partial close: size, margins, hold and settled fees
/// reduced, the trader's profit (USD) added to the realized profit, and the
/// update time set to `now`.
pub open spec fn decreased_position_spec(
    p: UserPosition,
    decrease_size: int,
    v: UpdateDecreaseResponse,
    now: i64,
) -> Option<UserPosition> {
    let size = p.position_size - decrease_size;
    let im = p.initial_margin - v.decrease_margin;
    let imu = p.initial_margin_usd - v.decrease_margin_in_usd;
    let from_portfolio = p.initial_margin_usd_from_portfolio
        - v.decrease_margin_in_usd_from_portfolio;
    let hold = p.hold_pool_amount - v.un_hold_pool_amount;
    let pnl = p.realized_pnl + v.user_realized_pnl;
    let bf = p.realized_borrowing_fee - v.settle_borrowing_fee;
    let bfu = p.realized_borrowing_fee_in_usd - v.settle_borrowing_fee_in_usd;
    let ff = p.realized_funding_fee - v.settle_funding_fee;
    let ffu = p.realized_funding_fee_in_usd - v.settle_funding_fee_in_usd;
    let cfu = p.close_fee_in_usd - v.settle_close_fee_in_usd;
    if fits_u(size) && fits_u(im) && fits_u(imu) && fits_u(from_portfolio) && fits_u(hold)
        && fits_i(pnl) && fits_u(bf) && fits_u(bfu) && fits_i(ff) && fits_i(ffu) && fits_u(cfu) {
        Some(
            UserPosition {
                position_size: size as u128,
                initial_margin: im as u128,
                initial_margin_usd: imu as u128,
                initial_margin_usd_from_portfolio: from_portfolio as u128,
                hold_pool_amount: hold as u128,
                realized_pnl: pnl as i128,
                realized_borrowing_fee: bf as u128,
                realized_borrowing_fee_in_usd: bfu as u128,
                realized_funding_fee: ff as i128,
                realized_funding_fee_in_usd: ffu as i128,
                close_fee_in_usd: cfu as u128,
                updated_at: now,
                ..p
            },
        )
    } else {
        None
    }
}

/// Applies a partial close to the position (see `decreased_position_spec`);
/// on failure the position is unchanged.
pub fn update_decrease_position(
    position: &mut UserPosition,
    decrease_size: u128,
    response: &UpdateDecreaseResponse,
    now: i64,
) -> (r: BumpResult)
    ensures
        decreased_position_spec(*old(position), decrease_size as int, *response, now) matches Some(
            v,
        ) ==> r == Ok::<(), BumpErrorCode>(()) && *final(position) == v,
        decreased_position_spec(*old(position), decrease_size as int, *response, now) is None ==> r
            == Err::<(), BumpErrorCode>(BumpErrorCode::MathError) && *final(position)
            == *old(position),
{
    let mut p = *position;
    p.sub_position_size(decrease_size)?;
    p.sub_initial_margin(response.decrease_margin)?;
    p.sub_initial_margin_usd(response.decrease_margin_in_usd)?;
    p.sub_initial_margin_usd_from_portfolio(response.decrease_margin_in_usd_from_portfolio)?;
    p.sub_hold_pool_amount(response.un_hold_pool_amount)?;
    p.add_realized_pnl(response.user_realized_pnl)?;
    p.sub_realized_borrowing_fee(response.settle_borrowing_fee)?;
    p.sub_realized_borrowing_fee_usd(response.settle_borrowing_fee_in_usd)?;
    p.sub_realized_funding_fee(response.settle_funding_fee)?;
    p.sub_realized_funding_fee_usd(response.settle_funding_fee_in_usd)?;
    p.sub_close_fee_usd(response.settle_close_fee_in_usd)?;
    p.set_last_update(now)?;
    *position = p;
    Ok(())
}

/// Outcome of `collect_decrease_fee` on the pool of the position's side
/// and its market: the close and borrowing fees are booked, the borrowing
/// fee leaves the pool's outstanding total and its realized total, the
/// funding fee enters the market's total of the side, and the closed size
/// leaves the side's open interest.
pub open spec fn decrease_fee_spec(
    pool: Pool,
    market: Market,
    is_portfolio_margin: bool,
    close_fee: int,
    borrowing_fee: int,
    funding_fee: int,
    params: UpdateOIParams,
) -> Option<(Pool, Market)> {
    let (e1, p1) = book_fee_spec(pool, close_fee, is_portfolio_margin);
    let (e2, p2) = book_fee_spec(p1, borrowing_fee, is_portfolio_margin);
    let (e3, f3) = total_borrowing_fee_update_spec(
        p2.borrowing_fee,
        borrowing_fee,
        true,
        borrowing_fee,
        false,
    );
    let total = if params.is_long {
        market.funding_fee.total_long_funding_fee + funding_fee
    } else {
        market.funding_fee.total_short_funding_fee + funding_fee
    };
    let m1 = if params.is_long {
        Market {
            funding_fee: MarketFundingFee { total_long_funding_fee: total as i128, ..market.funding_fee },
            ..market
        }
    } else {
        Market {
            funding_fee: MarketFundingFee { total_short_funding_fee: total as i128, ..market.funding_fee },
            ..market
        }
    };
    if e1 is Ok && e2 is Ok && e3 is Ok && fits_i(total) {
        match oi_update_spec(m1, false, params) {
            Some(side) => Some((Pool { borrowing_fee: f3, ..p2 }, with_side(m1, params.is_long, side))),
            None => None,
        }
    } else {
        None
    }
}

/// Books the fees of a close and removes its open interest (see
/// `decrease_fee_spec`); the pool of the position's side is `base_token_pool`
/// for longs and `stable_pool` for shorts. On failure nothing changes.
pub fn collect_decrease_fee(
    base_token_pool: &mut Pool,
    stable_pool: &mut Pool,
    market: &mut Market,
    is_portfolio_margin: bool,
    settle_close_fee: u128,
    settle_borrowing_fee: u128,
    settle_funding_fee: i128,
    margin_token: &Pubkey,
    decrease_size: u128,
    is_long: bool,
    entry_price: u128,
    token_decimal: u16,
) -> (r: BumpResult)
    ensures
        ({
            let params = UpdateOIParams {
                margin_token: *margin_token,
                size: decrease_size,
                is_long,
                entry_price,
                token_decimal,
            };
            let pool = if is_long {
                *old(base_token_pool)
            } else {
                *old(stable_pool)
            };
            match decrease_fee_spec(
                pool,
                *old(market),
                is_portfolio_margin,
                settle_close_fee as int,
                settle_borrowing_fee as int,
                settle_funding_fee as int,
                params,
            ) {
                Some(v) => r == Ok::<(), BumpErrorCode>(()) && *final(market) == v.1 && (if is_long {
                    *final(base_token_pool) == v.0 && *final(stable_pool) == *old(stable_pool)
                } else {
                    *final(stable_pool) == v.0 && *final(base_token_pool) == *old(base_token_pool)
                }),
                None => r == Err::<(), BumpErrorCode>(BumpErrorCode::MathError) && *final(market)
                    == *old(market) && *final(base_token_pool) == *old(base_token_pool)
                    && *final(stable_pool) == *old(stable_pool),
            }
        }),
{
    let mut pool = if is_long {
        *base_token_pool
    } else {
        *stable_pool
    };
    let mut m = *market;
    collect_close_position_fee(&mut pool, settle_close_fee, is_portfolio_margin)?;
    collect_borrowing_fee(&mut pool, settle_borrowing_fee, is_portfolio_margin)?;
    pool.borrowing_fee.update_total_borrowing_fee(
        settle_borrowing_fee,
        true,
        settle_borrowing_fee,
        false,
    )?;
    m.update_market_total_funding_fee(settle_funding_fee, is_long)?;
    m.update_oi(
        false,
        UpdateOIParams {
            margin_token: *margin_token,
            size: decrease_size,
            is_long,
            entry_price,
            token_decimal,
        },
    )?;
    if is_long {
        *base_token_pool = pool;
    } else {
        *stable_pool = pool;
    }
    *market = m;
    Ok(())
}

/// `|x|`.
pub open spec fn abs_spec(x: int) -> int {
    if x < 0 {
        -x
    } else {
        x
    }
}

/// What a liquidation leaves to the insurance fund, in margin tokens: the
/// released margin beyond the fees and the pool's profit when the fees are
/// owed by the trader; the margin plus the fees returned, less the pool's
/// profit, otherwise.
pub open spec fn insurance_add_spec(v: UpdateDecreaseResponse) -> Option<int> {
    let sf = v.settle_fee as int;
    let ppt = v.pool_pnl_token as int;
    let dm = v.decrease_margin as int;
    if sf >= 0 {
        if fits_i(sf + ppt) && sf + ppt != i128::MIN {
            if dm > abs_spec(sf + ppt) {
                if ppt != i128::MIN && fits_i(sf + abs_spec(ppt)) {
                    ck_u(dm - (sf + abs_spec(ppt)))
                } else {
                    None
                }
            } else {
                Some(0)
            }
        } else {
            None
        }
    } else if sf != i128::MIN && ppt != i128::MIN && fits_u(dm + abs_spec(sf)) {
        ck_u(dm + abs_spec(sf) - abs_spec(ppt))
    } else {
        None
    }
}

/// Outcome of `add_insurance_fund` on the pool: for portfolio margin the
/// position's maintenance margin (in tokens) enters the insurance fund,
/// then the amount of `insurance_add_spec`.
pub open spec fn insurance_spec(
    market: Market,
    state: State,
    decimals: int,
    v: UpdateDecreaseResponse,
    pool: Pool,
    p: UserPosition,
) -> Option<Pool> {
    let first = if p.is_portfolio_margin {
        match mm_spec(
            p.position_size as int,
            market.config.maximum_leverage as int,
            state.maximum_maintenance_margin_rate as int,
        ) {
            Some(mm) => match usd_to_token_spec(mm, decimals, v.margin_token_price as int) {
                Some(t) => ck_u(pool.insurance_fund_amount + t),
                None => None,
            },
            None => None,
        }
    } else {
        Some(pool.insurance_fund_amount as int)
    };
    match first {
        Some(f) => match insurance_add_spec(v) {
            Some(a) => match ck_u(f + a) {
                Some(total) => Some(Pool { insurance_fund_amount: total as u128, ..pool }),
                None => None,
            },
            None => None,
        },
        None => None,
    }
}

/// Moves what a liquidation leaves into the pool's insurance fund (see
/// `insurance_spec`); on failure the pool is unchanged.
pub fn add_insurance_fund(
    market: &Market,
    state: &State,
    trade_token: &TradeToken,
    response: &UpdateDecreaseResponse,
    pool: &mut Pool,
    position: &UserPosition,
) -> (r: BumpResult)
    ensures
        insurance_spec(
            *market,
            *state,
            trade_token.decimals as int,
            *response,
            *old(pool),
            *position,
        ) matches Some(v) ==> r == Ok::<(), BumpErrorCode>(()) && *final(pool) == v,
        insurance_spec(
            *market,
            *state,
            trade_token.decimals as int,
            *response,
            *old(pool),
            *position,
        ) is None ==> r == Err::<(), BumpErrorCode>(BumpErrorCode::MathError) && *final(pool)
            == *old(pool),
{
    let mut pl = *pool;
    if position.is_portfolio_margin {
        let mm = position.get_position_mm(market, state)?;
        let t = usd_to_token_u(mm, trade_token.decimals, response.margin_token_price)?;
        pl.add_insurance_fund(t)?;
    }
    let add_funds = if response.settle_fee >= 0i128 {
        let s = safe_add_i(response.settle_fee, response.pool_pnl_token)?;
        let a = abs_to_u(s)?;
        if response.decrease_margin > a {
            let ppt_abs = abs_to_u(response.pool_pnl_token)?;
            let ppt_abs_i = cast_to_i(ppt_abs)?;
            let t = safe_add_i(response.settle_fee, ppt_abs_i)?;
            let t_u = cast_to_u(t)?;
            safe_sub_u(response.decrease_margin, t_u)?
        } else {
            0u128
        }
    } else {
        let sf_abs = abs_to_u(response.settle_fee)?;
        let t = safe_add_u(response.decrease_margin, sf_abs)?;
        let ppt_abs = abs_to_u(response.pool_pnl_token)?;
        safe_sub_u(t, ppt_abs)?
    };
    pl.add_insurance_fund(add_funds)?;
    *pool = pl;
    Ok(())
}

/// Amount to send from the pool's vault to the trader's token account when
/// an isolated position closes: the settled margin, nothing on a
/// liquidation.
pub fn settle_isolate(response: &UpdateDecreaseResponse) -> (r: BumpResult<u128>)
    ensures
        response.is_liquidation ==> r == Ok::<u128, BumpErrorCode>(0u128),
        !response.is_liquidation && response.settle_margin == i128::MIN ==> r == Err::<
            u128,
            BumpErrorCode,
        >(BumpErrorCode::MathError),
        !response.is_liquidation && response.settle_margin != i128::MIN ==> r == Ok::<
            u128,
            BumpErrorCode,
        >(abs_spec(response.settle_margin as int) as u128),
{
    if response.is_liquidation {
        return Ok(0u128);
    }
    abs_to_u(response.settle_margin)
}

// ---------------------------------------------------------------------------
// Settling a close
// ---------------------------------------------------------------------------

/// A token movement between the vaults and a trader that an operation
/// calls for; the caller performs it.
#[derive(Clone, Copy, Debug, PartialEq, Eq, Structural)]
pub enum TokenTransfer {
    NoTransfer,
    /// From the pool's vault to the trade token's vault.
    PoolToTokenVault(u128),
    /// From the trade token's vault to the pool's vault.
    TokenVaultToPool(u128),
    /// From the pool's vault to the trader's token account.
    PoolToUser(u128),
    /// From the trader's token account to the pool's vault.
    UserToPool(u128),
}

/// Outcome on the trader's balance of the margin token and on the token's
/// totals of settling a cross-margin close: the fees are debited (or
/// refunded when negative), the released margin is no longer used, and the
/// trader's profit net of fees is credited (or debited, possibly into
/// debt). Returns the balance, the token and the liability created.
pub open spec fn cross_token_settle_spec(t: UserToken, tt: TradeToken, v: UpdateDecreaseResponse) -> Result<
    (UserToken, TradeToken, int),
    BumpErrorCode,
> {
    let sf = v.settle_fee as int;
    let s1: Result<(UserToken, TradeToken, int), BumpErrorCode> = if sf > 0 {
        let (er, t1, tt1) = debit_with_liability_spec(t, tt, sf);
        match er {
            Ok(l) => Ok((t1, tt1, l as int)),
            Err(e) => Err(e),
        }
    } else if sf == i128::MIN {
        Err(BumpErrorCode::MathError)
    } else if fits_u(t.amount - sf) {
        Ok((UserToken { amount: (t.amount - sf) as u128, ..t }, tt, 0))
    } else {
        Err(BumpErrorCode::MathError)
    };
    match s1 {
        Err(e) => Err(e),
        Ok((t1, tt1, l1)) => if t1.used_amount <= v.decrease_margin {
            Err(BumpErrorCode::AmountNotEnough)
        } else {
            let t2 = UserToken { used_amount: (t1.used_amount - v.decrease_margin) as u128, ..t1 };
            let x = v.user_realized_pnl_token + sf;
            if !fits_i(x) {
                Err(BumpErrorCode::MathError)
            } else if x > 0 {
                if fits_u(t2.amount + x) {
                    Ok((UserToken { amount: (t2.amount + x) as u128, ..t2 }, tt1, l1))
                } else {
                    Err(BumpErrorCode::MathError)
                }
            } else if x == i128::MIN {
                Err(BumpErrorCode::MathError)
            } else {
                let (er, t3, tt3) = debit_with_liability_spec(t2, tt1, -x);
                match er {
                    Ok(l) => if fits_u(l1 + l) {
                        Ok((t3, tt3, l1 + l))
                    } else {
                        Err(BumpErrorCode::MathError)
                    },
                    Err(e) => Err(e),
                }
            }
        },
    }
}

/// Vault movement of a cross-margin close and its effect on the token's
/// total amount: a loss of the pool moves from its vault to the token's
/// vault; a profit beyond the liability the trader took on moves back.
pub open spec fn cross_vault_spec(tt: TradeToken, v: UpdateDecreaseResponse, liability: int) -> Result<
    (TradeToken, TokenTransfer),
    BumpErrorCode,
> {
    let ppt = v.pool_pnl_token as int;
    if ppt < 0 {
        if ppt == i128::MIN || !fits_u(tt.total_amount - ppt) {
            Err(BumpErrorCode::MathError)
        } else {
            Ok(
                (
                    TradeToken { total_amount: (tt.total_amount - ppt) as u128, ..tt },
                    TokenTransfer::PoolToTokenVault((-ppt) as u128),
                ),
            )
        }
    } else if !fits_i(liability) || !fits_i(ppt - liability) {
        Err(BumpErrorCode::MathError)
    } else if ppt - liability > 0 {
        if tt.total_amount >= ppt - liability {
            Ok(
                (
                    TradeToken { total_amount: (tt.total_amount - (ppt - liability)) as u128, ..tt },
                    TokenTransfer::TokenVaultToPool((ppt - liability) as u128),
                ),
            )
        } else {
            Err(BumpErrorCode::MathError)
        }
    } else {
        Ok((tt, TokenTransfer::NoTransfer))
    }
}

/// Change of the portfolio (margin tokens) that a non-liquidating
/// cross-margin close spreads over the remaining cross positions: the
/// released portfolio margin converted back to tokens, plus the margin
/// returned, less the margin released.
pub open spec fn cross_change_spec(v: UpdateDecreaseResponse, p: UserPosition) -> Option<int> {
    match mul_div_spec(
        v.decrease_margin_in_usd_from_portfolio as int,
        p.initial_margin as int,
        p.initial_margin_usd as int,
    ) {
        Some(a) => if fits_i(a) && fits_i(a + v.settle_margin) && fits_i(v.decrease_margin as int)
            && fits_i(a + v.settle_margin - v.decrease_margin) {
            Some(a + v.settle_margin - v.decrease_margin)
        } else {
            None
        },
        None => None,
    }
}


/// Token part of a cross-margin settlement (see `cross_token_settle_spec`);
/// returns the liability created. On failure nothing changes.
fn settle_cross_token(
    response: &UpdateDecreaseResponse,
    user: &mut User,
    trade_token: &mut TradeToken,
    mint: &Pubkey,
) -> (r: BumpResult<u128>)
    ensures
        response.settle_fee == i128::MIN ==> r == Err::<u128, BumpErrorCode>(
            BumpErrorCode::MathError,
        ) && *final(user) == *old(user) && *final(trade_token) == *old(trade_token),
        response.settle_fee != i128::MIN && !has_token(*old(user), mint@) ==> r == Err::<
            u128,
            BumpErrorCode,
        >(BumpErrorCode::CouldNotFindUserToken) && *final(user) == *old(user) && *final(trade_token)
            == *old(trade_token),
        response.settle_fee != i128::MIN && has_token(*old(user), mint@) ==> ({
            let i = token_slot(*old(user), mint@);
            match cross_token_settle_spec(old(user).user_tokens@[i], *old(trade_token), *response) {
                Err(e) => r == Err::<u128, BumpErrorCode>(e) && *final(user) == *old(user)
                    && *final(trade_token) == *old(trade_token),
                Ok((t, tt, liability)) => r == Ok::<u128, BumpErrorCode>(liability as u128)
                    && with_token(*old(user), *final(user), i, t) && *final(trade_token) == tt,
            }
        }),
{
    let mut u = *user;
    let mut tt = *trade_token;
    let ghost i = token_slot(u, mint@);
    proof {
        if has_token(u, mint@) {
            lemma_has_token_slot(u, mint@);
        }
    }
    let mut add_liability: u128 = 0;
    if response.settle_fee > 0i128 {
        let a = abs_to_u(response.settle_fee)?;
        add_liability = u.sub_token_with_liability(
            mint,
            &mut tt,
            a,
            &UserTokenUpdateReason::SettleFee,
        )?;
    } else {
        let a = abs_to_u(response.settle_fee)?;
        u.add_user_token_amount(mint, a, &UserTokenUpdateReason::SettleFee)?;
    }
    proof {
        assert(is_first_token(u, mint@, i));
        lemma_token_slot(u, mint@, i);
    }
    u.un_use_token(mint, response.decrease_margin)?;
    proof {
        assert(is_first_token(u, mint@, i));
        lemma_token_slot(u, mint@, i);
    }
    let x = safe_add_i(response.user_realized_pnl_token, response.settle_fee)?;
    if x > 0i128 {
        let a = abs_to_u(x)?;
        u.add_user_token_amount(mint, a, &UserTokenUpdateReason::SettlePnl)?;
    } else {
        let a = abs_to_u(x)?;
        let l = u.sub_token_with_liability(mint, &mut tt, a, &UserTokenUpdateReason::SettlePnl)?;
        add_liability = safe_add_u(add_liability, l)?;
    }
    proof {
        assert(u.user_tokens@ =~= old(user).user_tokens@.update(i, u.user_tokens@[i]));
    }
    *user = u;
    *trade_token = tt;
    Ok(add_liability)
}

/// Vault part of a cross-margin settlement (see `cross_vault_spec`). On
/// failure the token is unchanged.
fn cross_vault_transfer(
    trade_token: &mut TradeToken,
    response: &UpdateDecreaseResponse,
    liability: u128,
) -> (r: BumpResult<TokenTransfer>)
    ensures
        cross_vault_spec(*old(trade_token), *response, liability as int) matches Ok((tt, tr)) ==> r
            == Ok::<TokenTransfer, BumpErrorCode>(tr) && *final(trade_token) == tt,
        cross_vault_spec(*old(trade_token), *response, liability as int) matches Err(e) ==> r
            == Err::<TokenTransfer, BumpErrorCode>(e) && *final(trade_token) == *old(trade_token),
{
    if response.pool_pnl_token < 0i128 {
        let a = abs_to_u(response.pool_pnl_token)?;
        trade_token.add_amount(a)?;
        Ok(TokenTransfer::PoolToTokenVault(a))
    } else {
        let l = cast_to_i(liability)?;
        let d = safe_sub_i(response.pool_pnl_token, l)?;
        if d > 0i128 {
            let du = cast_to_u(d)?;
            trade_token.sub_amount(du)?;
            Ok(TokenTransfer::TokenVaultToPool(du))
        } else {
            Ok(TokenTransfer::NoTransfer)
        }
    }
}

/// Portfolio change of a cross-margin close (see `cross_change_spec`).
fn cross_change(response: &UpdateDecreaseResponse, position: &UserPosition) -> (r: BumpResult<i128>)
    ensures
        cross_change_spec(*response, *position) matches Some(c) ==> r == Ok::<i128, BumpErrorCode>(
            c as i128,
        ),
        cross_change_spec(*response, *position) is None ==> r == Err::<i128, BumpErrorCode>(
            BumpErrorCode::MathError,
        ),
{
    let a = safe_mul_u(response.decrease_margin_in_usd_from_portfolio, position.initial_margin)?;
    let b = safe_div_u(a, position.initial_margin_usd)?;
    let bi = cast_to_i(b)?;
    let c1 = safe_add_i(bi, response.settle_margin)?;
    let dmi = cast_to_i(response.decrease_margin)?;
    safe_sub_i(c1, dmi)
}

/// `v` is `u` with only the token and position slots changed.
pub open spec fn same_but_tokens_positions(u: User, v: User) -> bool {
    &&& v.next_order_id == u.next_order_id && v.next_liquidation_id == u.next_liquidation_id
    &&& v.hold == u.hold && v.user_stakes == u.user_stakes && v.user_orders == u.user_orders
    &&& v.user_key == u.user_key && v.authority == u.authority
}

/// Outcome of settling a cross-margin close of `p` on the account `u` and
/// the token `tt`: `(token slots, position slots, token, liability created,
/// vault movement)`. The trader's balance of the margin token is settled
/// (see `cross_token_settle_spec`), the vaults move (see
/// `cross_vault_spec`) and, unless liquidating, the portfolio change is
/// spread over the cross positions (see `portfolio_change_walk`).
pub open spec fn cross_settle_result(u: User, tt: TradeToken, v: UpdateDecreaseResponse, p: UserPosition) -> Result<
    (Seq<UserToken>, Seq<UserPosition>, TradeToken, int, TokenTransfer),
    BumpErrorCode,
> {
    let mint = p.margin_mint_key@;
    if v.settle_fee == i128::MIN {
        Err(BumpErrorCode::MathError)
    } else if !has_token(u, mint) {
        Err(BumpErrorCode::CouldNotFindUserToken)
    } else {
        let i = token_slot(u, mint);
        match cross_token_settle_spec(u.user_tokens@[i], tt, v) {
            Err(e) => Err(e),
            Ok((t, tt1, liability)) => match cross_vault_spec(tt1, v, liability) {
                Err(e) => Err(e),
                Ok((tt2, transfer)) => if v.is_liquidation {
                    Ok((u.user_tokens@.update(i, t), u.user_positions@, tt2, liability, transfer))
                } else {
                    match cross_change_spec(v, p) {
                        None => Err(BumpErrorCode::MathError),
                        Some(c) => match portfolio_change_walk(u.user_positions@, 0, c, c, mint) {
                            None => Err(BumpErrorCode::MathError),
                            Some(ps) => Ok((u.user_tokens@.update(i, t), ps, tt2, liability, transfer)),
                        },
                    }
                },
            },
        }
    }
}

/// Settles a cross-margin close on the trader's account and the token's
/// totals (see `cross_settle_result`); returns the liability created and
/// the vault movement to perform. On failure nothing changes.
pub fn settle_cross(
    response: &UpdateDecreaseResponse,
    user: &mut User,
    trade_token: &mut TradeToken,
    position: &UserPosition,
) -> (r: BumpResult<(u128, TokenTransfer)>)
    ensures
        cross_settle_result(*old(user), *old(trade_token), *response, *position) matches Err(e)
            ==> r == Err::<(u128, TokenTransfer), BumpErrorCode>(e) && *final(user) == *old(user)
            && *final(trade_token) == *old(trade_token),
        cross_settle_result(*old(user), *old(trade_token), *response, *position) matches Ok(
            (toks, ps, tt, liability, transfer),
        ) ==> r == Ok::<(u128, TokenTransfer), BumpErrorCode>((liability as u128, transfer))
            && final(user).user_tokens@ == toks && final(user).user_positions@ == ps
            && same_but_tokens_positions(*old(user), *final(user)) && *final(trade_token) == tt,
{
    let mut u = *user;
    let mut tt = *trade_token;
    let mint = position.margin_mint_key;
    let add_liability = settle_cross_token(response, &mut u, &mut tt, &mint)?;
    let transfer = cross_vault_transfer(&mut tt, response, add_liability)?;
    if !response.is_liquidation {
        let c = cross_change(response, position)?;
        u.update_all_position_from_portfolio_margin(c, &mint)?;
    }
    *user = u;
    *trade_token = tt;
    Ok((add_liability, transfer))
}

/// Outcome on the account and the token of the margin-mode part of
/// settling a close: `(token slots, position slots, token, liability,
/// vault movement)`. Cross margin settles the account (see
/// `cross_settle_result`) and repays what it can of the trader's liability
/// in the margin token; isolated margin needs the trader's token account
/// and pays the returned margin into it, unless liquidating.
pub open spec fn margin_settle_result(
    u: User,
    tt: TradeToken,
    v: UpdateDecreaseResponse,
    p: UserPosition,
    has_user_token_account: bool,
) -> Result<(Seq<UserToken>, Seq<UserPosition>, TradeToken, int, TokenTransfer), BumpErrorCode> {
    if p.is_portfolio_margin {
        match cross_settle_result(u, tt, v, p) {
            Err(e) => Err(e),
            Ok((toks, ps, tt1, liability, transfer)) => {
                let i = token_slot(u, p.margin_mint_key@);
                match repay_spec(toks[i]) {
                    (Err(e), _) => Err(e),
                    (Ok(repaid), t) => if tt1.total_liability >= repaid {
                        Ok(
                            (
                                toks.update(i, t),
                                ps,
                                TradeToken {
                                    total_amount: (tt1.total_liability - repaid) as u128,
                                    ..tt1
                                },
                                liability,
                                transfer,
                            ),
                        )
                    } else {
                        Err(BumpErrorCode::MathError)
                    },
                }
            },
        }
    } else if !has_user_token_account {
        Err(BumpErrorCode::InvalidParam)
    } else if v.is_liquidation {
        Ok((u.user_tokens@, u.user_positions@, tt, 0, TokenTransfer::NoTransfer))
    } else if v.settle_margin == i128::MIN {
        Err(BumpErrorCode::MathError)
    } else {
        Ok(
            (
                u.user_tokens@,
                u.user_positions@,
                tt,
                0,
                TokenTransfer::PoolToUser(abs_spec(v.settle_margin as int) as u128),
            ),
        )
    }
}

/// Settles a close between the trader, the pool of the position's side
/// (`base_token_pool` for longs, `stable_pool` for shorts) and its market:
/// the funding fee (see `settle_funding_fee_spec`), the account (see
/// `margin_settle_result`), then the hold released and the pool's profit
/// (see `pnl_settlement_spec`). Returns the vault movement to perform; on
/// failure nothing changes.
pub fn settle(
    response: &UpdateDecreaseResponse,
    user: &mut User,
    market: &mut Market,
    base_token_pool: &mut Pool,
    stable_pool: &mut Pool,
    trade_token: &mut TradeToken,
    position: &UserPosition,
    has_user_token_account: bool,
) -> (r: BumpResult<TokenTransfer>)
    ensures
        ({
            let side = if position.is_long {
                *old(base_token_pool)
            } else {
                *old(stable_pool)
            };
            let unchanged = *final(user) == *old(user) && *final(market) == *old(market) && *final(base_token_pool) == *old(base_token_pool) && *final(stable_pool) == *old(stable_pool) && *final(trade_token) == *old(trade_token);
            let (e1, pool1) = settle_funding_fee_spec(
                side,
                response.settle_funding_fee as int,
                position.is_portfolio_margin,
            );
            match e1 {
                Err(e) => r == Err::<TokenTransfer, BumpErrorCode>(e) && unchanged,
                Ok(_) => match margin_settle_result(
                    *old(user),
                    *old(trade_token),
                    *response,
                    *position,
                    has_user_token_account,
                ) {
                    Err(e) => r == Err::<TokenTransfer, BumpErrorCode>(e) && unchanged,
                    Ok((toks, ps, tt, liability, transfer)) => if pool1.balance.hold_amount
                        < response.un_hold_pool_amount {
                        r == Err::<TokenTransfer, BumpErrorCode>(
                            BumpErrorCode::SubHoldPoolBiggerThanHold,
                        ) && unchanged
                    } else {
                        let (e3, pool3, m3) = pnl_settlement_spec(
                            with_hold(pool1, pool1.balance.hold_amount - response.un_hold_pool_amount),
                            *old(market),
                            response.pool_pnl_token as int,
                            liability,
                        );
                        match e3 {
                            Err(e) => r == Err::<TokenTransfer, BumpErrorCode>(e) && unchanged,
                            Ok(_) => r == Ok::<TokenTransfer, BumpErrorCode>(transfer) && final(user).user_tokens@ == toks && final(user).user_positions@ == ps
                                && same_but_tokens_positions(*old(user), *final(user)) && *final(trade_token) == tt && *final(market) == m3 && if position.is_long {
                                *final(base_token_pool) == pool3 && *final(stable_pool) == *old(stable_pool)
                            } else {
                                *final(stable_pool) == pool3 && *final(base_token_pool) == *old(base_token_pool)
                            },
                        }
                    },
                },
            }
        }),
{
    let mut u = *user;
    let mut m = *market;
    let mut tt = *trade_token;
    let mut pool = if position.is_long {
        *base_token_pool
    } else {
        *stable_pool
    };
    settle_funding_fee(&mut pool, response.settle_funding_fee, position.is_portfolio_margin)?;
    let mut add_liability: u128 = 0;
    let transfer;
    if position.is_portfolio_margin {
        let ghost u0 = u;
        let (l, tr) = settle_cross(response, &mut u, &mut tt, position)?;
        add_liability = l;
        transfer = tr;
        proof {
            let mint = position.margin_mint_key@;
            lemma_has_token_slot(u0, mint);
            let i = token_slot(u0, mint);
            assert(is_first_token(u, mint, i));
            lemma_token_slot(u, mint, i);
        }
        let repay_amount = u.repay_liability(
            &position.margin_mint_key,
            UserTokenUpdateReason::DecreasePosition,
        )?;
        tt.sub_liability(repay_amount)?;
    } else {
        if !has_user_token_account {
            return Err(BumpErrorCode::InvalidParam);
        }
        let amount = settle_isolate(response)?;
        transfer = if response.is_liquidation {
            TokenTransfer::NoTransfer
        } else {
            TokenTransfer::PoolToUser(amount)
        };
    }
    pool.update_pnl_and_un_hold_pool_amount(
        &mut m,
        response.un_hold_pool_amount,
        response.pool_pnl_token,
        add_liability,
    )?;
    if position.is_long {
        *base_token_pool = pool;
    } else {
        *stable_pool = pool;
    }
    *user = u;
    *market = m;
    *trade_token = tt;
    Ok(transfer)
}

// ---------------------------------------------------------------------------
// Closing a position
// ---------------------------------------------------------------------------

/// First steps of a close: the position's profit at the execution price,
/// its borrowing and funding fees accrued (priced at the execution price),
/// and what the close settles; an isolated position whose returned margin
/// would be negative must be liquidated instead. Returns `(position,
/// pool of its side, market, response)`.
pub open spec fn decrease_prepare_spec(
    p0: UserPosition,
    side: Pool,
    market: Market,
    state: State,
    decimals: int,
    params: DecreasePositionParams,
    margin_price: int,
) -> Result<(UserPosition, Pool, Market, UpdateDecreaseResponse), BumpErrorCode> {
    let exec = params.execute_price as int;
    match un_pnl_usd_spec(p0, exec) {
        None => Err(BumpErrorCode::MathError),
        Some(pnl) => if !fits_i(pnl) {
            Err(BumpErrorCode::MathError)
        } else {
            match borrowing_settle_spec(p0, side, exec, decimals) {
                None => Err(BumpErrorCode::MathError),
                Some((p1, s1)) => match funding_settle_spec(p1, market, s1, exec, decimals) {
                    None => Err(BumpErrorCode::MathError),
                    Some((p2, m2, s2)) => match decrease_response_spec(
                        params.decrease_size as int,
                        params.is_liquidation,
                        params.is_portfolio_margin,
                        pnl,
                        margin_price,
                        m2,
                        state,
                        decimals,
                        p2,
                    ) {
                        None => Err(BumpErrorCode::MathError),
                        Some(v) => if v.settle_margin < 0 && !params.is_liquidation
                            && !p2.is_portfolio_margin {
                            Err(BumpErrorCode::PositionShouldBeLiquidation)
                        } else {
                            Ok((p2, s2, m2, v))
                        },
                    },
                },
            }
        },
    }
}

/// The close does not stop on an unwrapped conversion of its close fee
/// (see `decrease_defined`), once its fees have accrued.
pub open spec fn decrease_position_defined(
    p0: UserPosition,
    side: Pool,
    market: Market,
    decimals: int,
    params: DecreasePositionParams,
    margin_price: int,
) -> bool {
    let exec = params.execute_price as int;
    match un_pnl_usd_spec(p0, exec) {
        Some(pnl) => fits_i(pnl) ==> match borrowing_settle_spec(p0, side, exec, decimals) {
            Some((p1, s1)) => match funding_settle_spec(p1, market, s1, exec, decimals) {
                Some((p2, m2, _)) => decrease_defined(
                    params.decrease_size as int,
                    margin_price,
                    m2,
                    decimals,
                    p2,
                ),
                None => true,
            },
            None => true,
        },
        None => true,
    }
}

/// The position slots after a close: the position in slot `pi` reduced
/// (see `decreased_position_spec`), or, when the whole size closes, the
/// first slot keyed `key` emptied.
pub open spec fn positions_after_close(
    u: User,
    pi: int,
    key: Seq<u8>,
    p2: UserPosition,
    v: UpdateDecreaseResponse,
    decrease_size: int,
    now: i64,
) -> Option<[UserPosition; 8]> {
    if decrease_size != p2.position_size {
        match decreased_position_spec(p2, decrease_size, v, now) {
            Some(p3) => Some(spec_array_update(u.user_positions, pi, p3)),
            None => None,
        }
    } else {
        Some(
            spec_array_update(
                spec_array_update(u.user_positions, pi, p2),
                keyed_position_slot(u, key),
                empty_position_spec(),
            ),
        )
    }
}

/// Outcome of the part of a close before its settlement: `(position slots,
/// market, base token pool, stable pool, response, position before the
/// close)`. The fees of the close are booked and its interest removed
/// (see `decrease_fee_spec`).
pub open spec fn close_part_spec(
    u: User,
    market: Market,
    base: Pool,
    stable: Pool,
    state: State,
    decimals: int,
    params: DecreasePositionParams,
    margin_price: int,
    key: Seq<u8>,
    now: i64,
) -> Result<([UserPosition; 8], Market, Pool, Pool, UpdateDecreaseResponse, UserPosition), BumpErrorCode> {
    if !has_position(u, key) {
        Err(BumpErrorCode::CouldNotFindUserPosition)
    } else {
        let pi = position_slot(u, key);
        let p0 = u.user_positions@[pi];
        let side = if p0.is_long {
            base
        } else {
            stable
        };
        match decrease_prepare_spec(p0, side, market, state, decimals, params, margin_price) {
            Err(e) => Err(e),
            Ok((p2, s2, m2, v)) => match positions_after_close(
                u,
                pi,
                key,
                p2,
                v,
                params.decrease_size as int,
                now,
            ) {
                None => Err(BumpErrorCode::MathError),
                Some(arr) => {
                    let oi = UpdateOIParams {
                        margin_token: p0.margin_mint_key,
                        size: params.decrease_size,
                        is_long: p0.is_long,
                        entry_price: p0.entry_price,
                        token_decimal: decimals as u16,
                    };
                    match decrease_fee_spec(
                        s2,
                        m2,
                        p0.is_portfolio_margin,
                        v.settle_close_fee as int,
                        v.settle_borrowing_fee as int,
                        v.settle_funding_fee as int,
                        oi,
                    ) {
                        None => Err(BumpErrorCode::MathError),
                        Some((s3, m3)) => Ok(
                            (
                                arr,
                                m3,
                                if p0.is_long {
                                    s3
                                } else {
                                    base
                                },
                                if p0.is_long {
                                    stable
                                } else {
                                    s3
                                },
                                v,
                                p0,
                            ),
                        ),
                    }
                },
            }
        }
    }
}

/// The close of the position keyed `key` does not stop on an unwrapped
/// conversion (see `decrease_position_defined`).
pub open spec fn close_defined(
    u: User,
    market: Market,
    base: Pool,
    stable: Pool,
    decimals: int,
    params: DecreasePositionParams,
    margin_price: int,
    key: Seq<u8>,
) -> bool {
    has_position(u, key) ==> ({
        let p0 = u.user_positions@[position_slot(u, key)];
        decrease_position_defined(
            p0,
            if p0.is_long {
                base
            } else {
                stable
            },
            market,
            decimals,
            params,
            margin_price,
        )
    })
}

/// The part of a close before its settlement (see `close_part_spec`);
/// returns the response and the position before the close. On failure
/// nothing changes.
#[verifier::rlimit(80)]
#[verifier::spinoff_prover]
fn close_part(
    params: &DecreasePositionParams,
    user: &mut User,
    market: &mut Market,
    stake_token_pool: &mut Pool,
    stable_pool: &mut Pool,
    state: &State,
    trade_token: &TradeToken,
    margin_mint_token_price: u128,
    position_key: &Pubkey,
    now: i64,
) -> (r: BumpResult<(UpdateDecreaseResponse, UserPosition)>)
    requires
        close_defined(
            *old(user),
            *old(market),
            *old(stake_token_pool),
            *old(stable_pool),
            trade_token.decimals as int,
            *params,
            margin_mint_token_price as int,
            position_key@,
        ),
    ensures
        close_part_spec(
            *old(user),
            *old(market),
            *old(stake_token_pool),
            *old(stable_pool),
            *state,
            trade_token.decimals as int,
            *params,
            margin_mint_token_price as int,
            position_key@,
            now,
        ) matches Err(e) ==> r == Err::<(UpdateDecreaseResponse, UserPosition), BumpErrorCode>(e)
            && *final(user) == *old(user) && *final(market) == *old(market) && *final(stake_token_pool) == *old(stake_token_pool) && *final(stable_pool) == *old(stable_pool),
        close_part_spec(
            *old(user),
            *old(market),
            *old(stake_token_pool),
            *old(stable_pool),
            *state,
            trade_token.decimals as int,
            *params,
            margin_mint_token_price as int,
            position_key@,
            now,
        ) matches Ok((arr, m, base, stable, v, p0)) ==> r == Ok::<
            (UpdateDecreaseResponse, UserPosition),
            BumpErrorCode,
        >((v, p0)) && *final(user) == (User { user_positions: arr, ..*old(user) }) && *final(market) == m && *final(stake_token_pool) == base && *final(stable_pool) == stable,
{
    let mut u = *user;
    let mut m = *market;
    let mut base = *stake_token_pool;
    let mut stable = *stable_pool;
    let idx = u.get_user_position_index(position_key)?;
    proof {
        lemma_position_slot(u, position_key@, idx as int);
    }
    let mut p = u.user_positions[idx];
    let pre = p;
    let un_pnl = p.get_position_un_pnl_usd(params.execute_price)?;
    let mut side = if p.is_long {
        base
    } else {
        stable
    };
    update_borrowing_fee(&mut p, &mut side, params.execute_price, trade_token)?;
    update_funding_fee(&mut p, &mut m, &mut side, params.execute_price, trade_token)?;
    if p.is_long {
        base = side;
    } else {
        stable = side;
    }
    let response = calculate_decrease_position(
        params.decrease_size,
        params.is_liquidation,
        params.is_portfolio_margin,
        un_pnl,
        margin_mint_token_price,
        &m,
        state,
        trade_token,
        &p,
    )?;
    if response.settle_margin < 0i128 && !params.is_liquidation && !p.is_portfolio_margin {
        return Err(BumpErrorCode::PositionShouldBeLiquidation);
    }
    let position_deletion = if params.decrease_size != p.position_size {
        update_decrease_position(&mut p, params.decrease_size, &response, now)?;
        false
    } else {
        true
    };
    let ghost u0 = u;
    u.user_positions[idx] = p;
    if position_deletion {
        proof {
            lemma_has_keyed_slot(u0, position_key@, idx as int);
            let k = keyed_position_slot(u0, position_key@);
            assert(is_first_keyed_position(u, position_key@, k));
            lemma_keyed_position_slot(u, position_key@, k);
        }
        u.delete_position(position_key)?;
        proof {
            let k = keyed_position_slot(u0, position_key@);
            lemma_empty_position_unique(u.user_positions@[k]);
        }
    }
    collect_decrease_fee(
        &mut base,
        &mut stable,
        &mut m,
        pre.is_portfolio_margin,
        response.settle_close_fee,
        response.settle_borrowing_fee,
        response.settle_funding_fee,
        &pre.margin_mint_key,
        params.decrease_size,
        pre.is_long,
        pre.entry_price,
        trade_token.decimals,
    )?;
    proof {
        let pi = idx as int;
        let a1 = spec_array_update(u0.user_positions, pi, p);
        assert(a1@ == u0.user_positions@.update(pi, p));
        if position_deletion {
            let k = keyed_position_slot(u0, position_key@);
            let a2 = spec_array_update(a1, k, empty_position_spec());
            assert(a2@ == a1@.update(k, empty_position_spec()));
            assert(u.user_positions@ =~= a2@);
            assert(u.user_positions =~= a2);
        } else {
            assert(u.user_positions@ =~= a1@);
            assert(u.user_positions =~= a1);
        }
    }
    *user = u;
    *market = m;
    *stake_token_pool = base;
    *stable_pool = stable;
    Ok((response, pre))
}

/// Outcome of closing `params.decrease_size` of the position keyed `key`:
/// `(token slots, position slots, market, base token pool, stable pool,
/// token, vault movement, position before the close)`. The part before the
/// settlement (see `close_part_spec`) is followed by the settlement (see
/// `settle`) and, for a liquidation, by the insurance fund (see
/// `insurance_spec`).
pub open spec fn decrease_position_spec(
    u: User,
    market: Market,
    base: Pool,
    stable: Pool,
    state: State,
    tt: TradeToken,
    params: DecreasePositionParams,
    margin_price: int,
    key: Seq<u8>,
    now: i64,
    has_user_token_account: bool,
) -> Result<
    (
        Seq<UserToken>,
        Seq<UserPosition>,
        Seq<UserOrder>,
        Market,
        Pool,
        Pool,
        TradeToken,
        TokenTransfer,
        UserPosition,
    ),
    BumpErrorCode,
> {
    let decimals = tt.decimals as int;
    match close_part_spec(u, market, base, stable, state, decimals, params, margin_price, key, now) {
        Err(e) => Err(e),
        Ok((arr, m1, b1, s1, v, p0)) => {
            let u1 = User { user_positions: arr, ..u };
            let side1 = if p0.is_long {
                b1
            } else {
                s1
            };
            let (e2, side2) = settle_funding_fee_spec(
                side1,
                v.settle_funding_fee as int,
                p0.is_portfolio_margin,
            );
            match e2 {
                Err(e) => Err(e),
                Ok(_) => match margin_settle_result(u1, tt, v, p0, has_user_token_account) {
                    Err(e) => Err(e),
                    Ok((toks, ps, tt2, liability, transfer)) => if side2.balance.hold_amount
                        < v.un_hold_pool_amount {
                        Err(BumpErrorCode::SubHoldPoolBiggerThanHold)
                    } else {
                        let (e3, side3, m3) = pnl_settlement_spec(
                            with_hold(side2, side2.balance.hold_amount - v.un_hold_pool_amount),
                            m1,
                            v.pool_pnl_token as int,
                            liability,
                        );
                        match e3 {
                            Err(e) => Err(e),
                            Ok(_) => match cancel_stop_walk(
                                u.user_orders@,
                                u.user_orders@,
                                0,
                                params.order_id,
                                p0.symbol@,
                                p0.margin_mint_key@,
                                p0.is_portfolio_margin,
                            ) {
                                Err(e) => Err(e),
                                Ok(os) => {
                                let side4 = if params.is_liquidation {
                                    insurance_spec(m3, state, decimals, v, side3, p0)
                                } else {
                                    Some(side3)
                                };
                                match side4 {
                                    None => Err(BumpErrorCode::MathError),
                                    Some(side4) => Ok(
                                        (
                                            toks,
                                            ps,
                                            os,
                                            m3,
                                            if p0.is_long {
                                                side4
                                            } else {
                                                b1
                                            },
                                            if p0.is_long {
                                                s1
                                            } else {
                                                side4
                                            },
                                            tt2,
                                            transfer,
                                            p0,
                                        ),
                                    ),
                                }
                                },
                            },
                        }
                    },
                },
            }
        },
    }
}

/// Closes `params.decrease_size` of the position keyed `position_key` at
/// `params.execute_price` (see `decrease_position_spec`), then cancels the
/// other stop orders of the position's market, margin token and margin
/// mode. `margin_mint_token_price` is the price of `trade_token`, the
/// margin token; `has_user_token_account` says whether the trader's token
/// account was given. Returns the vault movement to perform; on failure
/// nothing changes.
#[verifier::rlimit(80)]
#[verifier::spinoff_prover]
pub fn decrease_position(
    params: DecreasePositionParams,
    user: &mut User,
    market: &mut Market,
    stake_token_pool: &mut Pool,
    stable_pool: &mut Pool,
    state: &State,
    trade_token: &mut TradeToken,
    margin_mint_token_price: u128,
    position_key: &Pubkey,
    now: i64,
    has_user_token_account: bool,
) -> (r: BumpResult<TokenTransfer>)
    requires
        close_defined(
            *old(user),
            *old(market),
            *old(stake_token_pool),
            *old(stable_pool),
            old(trade_token).decimals as int,
            params,
            margin_mint_token_price as int,
            position_key@,
        ),
    ensures
        decrease_position_spec(
            *old(user),
            *old(market),
            *old(stake_token_pool),
            *old(stable_pool),
            *state,
            *old(trade_token),
            params,
            margin_mint_token_price as int,
            position_key@,
            now,
            has_user_token_account,
        ) matches Err(e) ==> r == Err::<TokenTransfer, BumpErrorCode>(e) && *final(user) == *old(user)
            && *final(market) == *old(market) && *final(stake_token_pool) == *old(stake_token_pool)
            && *final(stable_pool) == *old(stable_pool) && *final(trade_token) == *old(trade_token),
        decrease_position_spec(
            *old(user),
            *old(market),
            *old(stake_token_pool),
            *old(stable_pool),
            *state,
            *old(trade_token),
            params,
            margin_mint_token_price as int,
            position_key@,
            now,
            has_user_token_account,
        ) matches Ok((toks, ps, os, m, base, stable, tt, transfer, pre)) ==> r == Ok::<
            TokenTransfer,
            BumpErrorCode,
        >(transfer) && final(user).user_tokens@ == toks && final(user).user_positions@ == ps
            && final(user).user_orders@ == os && final(user).hold == old(user).hold
            && final(user).user_stakes == old(user).user_stakes && final(user).user_key == old(
            user,
        ).user_key && final(user).authority == old(user).authority && final(user).next_order_id
            == old(user).next_order_id && final(user).next_liquidation_id == old(
            user,
        ).next_liquidation_id && *final(market) == m && *final(stake_token_pool) == base
            && *final(stable_pool) == stable && *final(trade_token) == tt,
{
    let mut u = *user;
    let mut m = *market;
    let mut base = *stake_token_pool;
    let mut stable = *stable_pool;
    let mut tt = *trade_token;
    let (response, pre) = close_part(
        &params,
        &mut u,
        &mut m,
        &mut base,
        &mut stable,
        state,
        &tt,
        margin_mint_token_price,
        position_key,
        now,
    )?;
    let transfer = settle(
        &response,
        &mut u,
        &mut m,
        &mut base,
        &mut stable,
        &mut tt,
        &pre,
        has_user_token_account,
    )?;
    u.cancel_stop_orders(
        params.order_id,
        pre.symbol,
        &pre.margin_mint_key,
        pre.is_portfolio_margin,
    )?;
    if params.is_liquidation {
        if pre.is_long {
            add_insurance_fund(&m, state, &tt, &response, &mut base, &pre)?;
        } else {
            add_insurance_fund(&m, state, &tt, &response, &mut stable, &pre)?;
        }
    }
    *user = u;
    *market = m;
    *stake_token_pool = base;
    *stable_pool = stable;
    *trade_token = tt;
    Ok(transfer)
}

// ---------------------------------------------------------------------------
// Margin of an open position
// ---------------------------------------------------------------------------

/// A request to add margin to, or take margin from, a position.
#[derive(Clone, Copy, Debug)]
pub struct UpdatePositionMarginParams {
    pub position_key: Pubkey,
    pub is_add: bool,
    /// Margin added (margin tokens) or taken (USD).
    pub update_margin_amount: u128,
    /// Part of the added margin (USD) that comes from the portfolio.
    pub add_initial_margin_from_portfolio: u128,
}

/// A request to change the leverage of a position.
#[derive(Clone, Copy, Debug)]
pub struct UpdatePositionLeverageParams {
    pub symbol: [u8; 32],
    pub is_long: bool,
    pub is_portfolio_margin: bool,
    pub leverage: u32,
}

/// The position after `amount` margin tokens are added: a cross-margin
/// position keeps its leverage (its USD margin becomes size / leverage) and
/// records the portfolio part; an isolated one values the tokens at its
/// margin token's entry price and takes the leverage that results.
pub open spec fn margin_added_spec(
    p: UserPosition,
    amount: int,
    from_portfolio: int,
    decimals: int,
) -> Option<UserPosition> {
    let im = p.initial_margin + amount;
    if !fits_u(im) {
        None
    } else if p.is_portfolio_margin {
        match mul_div_spec(p.position_size as int, RATE_PRECISION as int, p.leverage as int) {
            Some(imu) => if fits_u(p.initial_margin_usd_from_portfolio + from_portfolio) {
                Some(
                    UserPosition {
                        initial_margin: im as u128,
                        initial_margin_usd: imu as u128,
                        initial_margin_usd_from_portfolio: (p.initial_margin_usd_from_portfolio
                            + from_portfolio) as u128,
                        ..p
                    },
                )
            } else {
                None
            },
            None => None,
        }
    } else {
        match token_to_usd_spec(amount, decimals, p.margin_token_entry_price as int) {
            Some(usd) => {
                let imu = p.initial_margin_usd + usd;
                if fits_u(imu) {
                    match mul_div_spec(p.position_size as int, RATE_PRECISION as int, imu) {
                        Some(lev) => Some(
                            UserPosition {
                                initial_margin: im as u128,
                                initial_margin_usd: imu as u128,
                                leverage: lev as u32,
                                initial_margin_usd_from_portfolio: im as u128,
                                ..p
                            },
                        ),
                        None => None,
                    }
                } else {
                    None
                }
            },
            None => None,
        }
    }
}

/// Outcome of `execute_add_position_margin`: `(position, pool, market)`.
/// The amount must stay below the size not yet covered by margin, in
/// tokens at the entry price; the margin grows (see `margin_added_spec`)
/// and as much of the pool's hold as the amount is released.
pub open spec fn add_margin_spec(
    params: UpdatePositionMarginParams,
    decimals: int,
    pool: Pool,
    market: Market,
    p: UserPosition,
) -> Result<(UserPosition, Pool, Market), BumpErrorCode> {
    let amount = params.update_margin_amount as int;
    match ck_u(p.position_size - p.initial_margin_usd) {
        None => Err(BumpErrorCode::MathError),
        Some(uncovered) => match usd_to_token_spec(uncovered, decimals, p.entry_price as int) {
            None => Err(BumpErrorCode::MathError),
            Some(cap) => if amount >= cap {
                Err(BumpErrorCode::AmountNotEnough)
            } else {
                match margin_added_spec(
                    p,
                    amount,
                    params.add_initial_margin_from_portfolio as int,
                    decimals,
                ) {
                    None => Err(BumpErrorCode::MathError),
                    Some(p2) => {
                        let released = if amount <= p2.hold_pool_amount {
                            amount
                        } else {
                            p2.hold_pool_amount as int
                        };
                        let p3 = UserPosition {
                            hold_pool_amount: (p2.hold_pool_amount - released) as u128,
                            ..p2
                        };
                        if pool.balance.hold_amount < released {
                            Err(BumpErrorCode::SubHoldPoolBiggerThanHold)
                        } else {
                            let (e, pool2, m2) = pnl_settlement_spec(
                                with_hold(pool, pool.balance.hold_amount - released),
                                market,
                                0,
                                0,
                            );
                            match e {
                                Err(e) => Err(e),
                                Ok(_) => Ok((p3, pool2, m2)),
                            }
                        }
                    },
                }
            },
        },
    }
}

/// Adds margin (tokens) to a position (see `add_margin_spec`); `pool` is
/// the pool of the position's side and `trade_token` its margin token. On
/// failure nothing changes.
pub fn execute_add_position_margin(
    params: &UpdatePositionMarginParams,
    trade_token: &TradeToken,
    pool: &mut Pool,
    market: &mut Market,
    position: &mut UserPosition,
) -> (r: BumpResult)
    ensures
        add_margin_spec(*params, trade_token.decimals as int, *old(pool), *old(market), *old(position))
            matches Ok((p, pl, m)) ==> r == Ok::<(), BumpErrorCode>(()) && *final(position) == p
            && *final(pool) == pl && *final(market) == m,
        add_margin_spec(*params, trade_token.decimals as int, *old(pool), *old(market), *old(position))
            matches Err(e) ==> r == Err::<(), BumpErrorCode>(e) && *final(position) == *old(position)
            && *final(pool) == *old(pool) && *final(market) == *old(market),
{
    let mut p = *position;
    let mut pl = *pool;
    let mut m = *market;
    let uncovered = safe_sub_u(p.position_size, p.initial_margin_usd)?;
    let cap = usd_to_token_u(uncovered, trade_token.decimals, p.entry_price)?;
    if !(params.update_margin_amount < cap) {
        return Err(BumpErrorCode::AmountNotEnough);
    }
    p.add_initial_margin(params.update_margin_amount)?;
    if p.is_portfolio_margin {
        let imu = div_rate_u(p.position_size, p.leverage as u128)?;
        p.set_initial_margin_usd(imu)?;
        p.add_initial_margin_usd_from_portfolio(params.add_initial_margin_from_portfolio)?;
    } else {
        let usd = token_to_usd_u(
            params.update_margin_amount,
            trade_token.decimals,
            p.margin_token_entry_price,
        )?;
        p.add_initial_margin_usd(usd)?;
        let lev = div_rate_u(p.position_size, p.initial_margin_usd)?;
        p.set_leverage(lev as u32)?;
        let im = p.initial_margin;
        p.set_initial_margin_usd_from_portfolio(im)?;
    }
    let sub_amount = if params.update_margin_amount <= p.hold_pool_amount {
        params.update_margin_amount
    } else {
        p.hold_pool_amount
    };
    p.sub_hold_pool_amount(sub_amount)?;
    pl.update_pnl_and_un_hold_pool_amount(&mut m, sub_amount, 0i128, 0u128)?;
    *position = p;
    *pool = pl;
    *market = m;
    Ok(())
}

/// The position after `amount` USD of margin, `reduce_amount` tokens, is
/// taken: a cross-margin position first gives up the portfolio part beyond
/// what its borrowed margin covers; the leverage follows when asked; an
/// isolated position's portfolio part is its USD margin; the tokens taken
/// are held by the pool.
pub open spec fn margin_reduced_spec(
    p: UserPosition,
    amount: int,
    reduce_amount: int,
    need_update_leverage: bool,
) -> Option<UserPosition> {
    match ck_u(p.initial_margin_usd - p.initial_margin_usd_from_portfolio) {
        None => if p.is_portfolio_margin {
            None
        } else {
            margin_reduced_rest(p, amount, reduce_amount, need_update_leverage)
        },
        Some(borrowed) => if p.is_portfolio_margin && borrowed < reduce_amount {
            let fp = p.initial_margin_usd_from_portfolio - (reduce_amount - borrowed);
            if fits_u(fp) {
                margin_reduced_rest(
                    UserPosition { initial_margin_usd_from_portfolio: fp as u128, ..p },
                    amount,
                    reduce_amount,
                    need_update_leverage,
                )
            } else {
                None
            }
        } else {
            margin_reduced_rest(p, amount, reduce_amount, need_update_leverage)
        },
    }
}

/// The steps of `margin_reduced_spec` after the portfolio part.
pub open spec fn margin_reduced_rest(
    p: UserPosition,
    amount: int,
    reduce_amount: int,
    need_update_leverage: bool,
) -> Option<UserPosition> {
    let im = p.initial_margin - reduce_amount;
    let imu = p.initial_margin_usd - amount;
    if !fits_u(im) || !fits_u(imu) {
        None
    } else {
        let lev = if need_update_leverage {
            mul_div_spec(p.position_size as int, RATE_PRECISION as int, imu)
        } else {
            Some(p.leverage as int)
        };
        match lev {
            None => None,
            Some(l) => {
                let hold = p.hold_pool_amount + reduce_amount;
                if fits_u(hold) {
                    Some(
                        UserPosition {
                            initial_margin: im as u128,
                            initial_margin_usd: imu as u128,
                            leverage: if need_update_leverage {
                                l as u32
                            } else {
                                p.leverage
                            },
                            initial_margin_usd_from_portfolio: if p.is_portfolio_margin {
                                p.initial_margin_usd_from_portfolio
                            } else {
                                imu as u128
                            },
                            hold_pool_amount: hold as u128,
                            ..p
                        },
                    )
                } else {
                    None
                }
            },
        }
    }
}

/// Outcome of `execute_reduce_position_margin`: `(position, pool of the
/// position's side, tokens taken)`. The USD amount must stay below the
/// margin beyond what the market's maximum leverage and the minimum order
/// margin require; it is taken in tokens at the entry price (see
/// `margin_reduced_spec`), and the pool holds them (see
/// `hold_pool_amount_spec`).
pub open spec fn reduce_margin_spec(
    amount: int,
    need_update_leverage: bool,
    decimals: int,
    pool: Pool,
    markets: Seq<PoolMarketInput>,
    pool_token_price: int,
    market: Market,
    state: State,
    p: UserPosition,
) -> Result<(UserPosition, Pool, int), BumpErrorCode> {
    match mul_div_spec(
        p.position_size as int,
        RATE_PRECISION as int,
        market.config.maximum_leverage as int,
    ) {
        None => Err(BumpErrorCode::MathError),
        Some(by_leverage) => {
            let floor = if by_leverage >= state.minimum_order_margin_usd {
                by_leverage
            } else {
                state.minimum_order_margin_usd as int
            };
            match ck_u(p.initial_margin_usd - floor) {
                None => Err(BumpErrorCode::MathError),
                Some(max_reduce) => if max_reduce <= amount {
                    Err(BumpErrorCode::AmountNotEnough)
                } else {
                    match usd_to_token_spec(amount, decimals, p.entry_price as int) {
                        None => Err(BumpErrorCode::MathError),
                        Some(reduce_amount) => match margin_reduced_spec(
                            p,
                            amount,
                            reduce_amount,
                            need_update_leverage,
                        ) {
                            None => Err(BumpErrorCode::MathError),
                            Some(p2) => {
                                let (e, pool2) = hold_pool_amount_spec(
                                    pool,
                                    markets,
                                    decimals,
                                    pool_token_price,
                                    market.config.max_pool_liquidity_share_rate as int,
                                    reduce_amount,
                                );
                                match e {
                                    Err(e) => Err(e),
                                    Ok(_) => Ok((p2, pool2, reduce_amount)),
                                }
                            },
                        }
                    }
                },
            }
        },
    }
}

/// Takes `params.update_margin_amount` USD of margin from a position (see
/// `reduce_margin_spec`); the pool of its side (`base_token_pool` for
/// longs, `stable_pool` for shorts) holds the tokens taken, `markets` are
/// all markets and `pool_token_price` is the price of that pool's token.
/// Returns the tokens taken; on failure nothing changes.
pub fn execute_reduce_position_margin(
    params: &UpdatePositionMarginParams,
    need_update_leverage: bool,
    base_trade_token: &TradeToken,
    stable_trade_token: &TradeToken,
    base_token_pool: &mut Pool,
    stable_pool: &mut Pool,
    market: &Market,
    state: &State,
    position: &mut UserPosition,
    markets: &Vec<PoolMarketInput>,
    pool_token_price: u128,
) -> (r: BumpResult<u128>)
    ensures
        ({
            let decimals = if old(position).is_long {
                base_trade_token.decimals as int
            } else {
                stable_trade_token.decimals as int
            };
            let pool = if old(position).is_long {
                *old(base_token_pool)
            } else {
                *old(stable_pool)
            };
            match reduce_margin_spec(
                params.update_margin_amount as int,
                need_update_leverage,
                decimals,
                pool,
                markets@,
                pool_token_price as int,
                *market,
                *state,
                *old(position),
            ) {
                Err(e) => r == Err::<u128, BumpErrorCode>(e) && *final(position) == *old(position)
                    && *final(base_token_pool) == *old(base_token_pool) && *final(stable_pool)
                    == *old(stable_pool),
                Ok((p, pl, taken)) => r == Ok::<u128, BumpErrorCode>(taken as u128) && *final(position) == p && if old(position).is_long {
                    *final(base_token_pool) == pl && *final(stable_pool) == *old(stable_pool)
                } else {
                    *final(stable_pool) == pl && *final(base_token_pool) == *old(base_token_pool)
                },
            }
        }),
{
    let mut p = *position;
    let by_leverage = div_rate_u(p.position_size, market.config.maximum_leverage as u128)?;
    let floor = if by_leverage >= state.minimum_order_margin_usd {
        by_leverage
    } else {
        state.minimum_order_margin_usd
    };
    let max_reduce_margin_in_usd = safe_sub_u(p.initial_margin_usd, floor)?;
    if !(max_reduce_margin_in_usd > params.update_margin_amount) {
        return Err(BumpErrorCode::AmountNotEnough);
    }
    let decimals = if p.is_long {
        base_trade_token.decimals
    } else {
        stable_trade_token.decimals
    };
    let reduce_margin_amount = usd_to_token_u(params.update_margin_amount, decimals, p.entry_price)?;
    if p.is_portfolio_margin {
        let borrowed = safe_sub_u(p.initial_margin_usd, p.initial_margin_usd_from_portfolio)?;
        if borrowed < reduce_margin_amount {
            p.sub_initial_margin_usd_from_portfolio(reduce_margin_amount - borrowed)?;
        }
    }
    p.sub_initial_margin(reduce_margin_amount)?;
    p.sub_initial_margin_usd(params.update_margin_amount)?;
    if need_update_leverage {
        let lev = div_rate_u(p.position_size, p.initial_margin_usd)?;
        p.set_leverage(lev as u32)?;
    }
    if !p.is_portfolio_margin {
        let imu = p.initial_margin_usd;
        p.set_initial_margin_usd_from_portfolio(imu)?;
    }
    p.add_hold_pool_amount(reduce_margin_amount)?;
    let mut pl = if p.is_long {
        *base_token_pool
    } else {
        *stable_pool
    };
    pl.hold_pool_amount(
        reduce_margin_amount,
        markets,
        decimals,
        pool_token_price,
        market.config.max_pool_liquidity_share_rate,
    )?;
    if p.is_long {
        *base_token_pool = pl;
    } else {
        *stable_pool = pl;
    }
    *position = p;
    Ok(reduce_margin_amount)
}

// ---------------------------------------------------------------------------
// Opening and growing a position
// ---------------------------------------------------------------------------

/// Amounts of an increase: `(margin, margin from the balance, size, hold)`.
/// The fee leaves the margin (and, as far as it goes, the part from the
/// balance); the size is the margin times the leverage in USD at the margin
/// token's price; the pool holds the margin times `leverage - 1`.
pub open spec fn increase_amounts_spec(
    order: UserOrder,
    order_margin: int,
    order_margin_from_balance: int,
    fee: int,
    decimals: int,
    margin_price: int,
) -> Option<(int, int, int, int)> {
    let im = order_margin - fee;
    let fb = if order_margin_from_balance > fee {
        order_margin_from_balance - fee
    } else {
        0
    };
    if !fits_u(im) {
        None
    } else {
        match mul_div_spec(im, order.leverage as int, RATE_PRECISION as int) {
            None => None,
            Some(leveraged) => match token_to_usd_spec(leveraged, decimals, margin_price) {
                None => None,
                Some(size) => match ck_u(order.leverage - RATE_PRECISION) {
                    None => None,
                    Some(borrowed_rate) => match mul_div_spec(
                        im,
                        borrowed_rate,
                        RATE_PRECISION as int,
                    ) {
                        None => None,
                        Some(hold) => Some((im, fb, size, hold)),
                    },
                },
            },
        }
    }
}

/// Amounts of an increase (see `increase_amounts_spec`).
fn increase_amounts(
    order: &UserOrder,
    order_margin: u128,
    order_margin_from_balance: u128,
    fee: u128,
    decimals: u16,
    margin_token_price: u128,
) -> (r: BumpResult<(u128, u128, u128, u128)>)
    ensures
        increase_amounts_spec(
            *order,
            order_margin as int,
            order_margin_from_balance as int,
            fee as int,
            decimals as int,
            margin_token_price as int,
        ) matches Some(v) ==> r == Ok::<(u128, u128, u128, u128), BumpErrorCode>(
            (v.0 as u128, v.1 as u128, v.2 as u128, v.3 as u128),
        ) && fits_u(v.0) && fits_u(v.1) && fits_u(v.2) && fits_u(v.3),
        increase_amounts_spec(
            *order,
            order_margin as int,
            order_margin_from_balance as int,
            fee as int,
            decimals as int,
            margin_token_price as int,
        ) is None ==> r == Err::<(u128, u128, u128, u128), BumpErrorCode>(
            BumpErrorCode::MathError,
        ),
{
    let increase_margin = safe_sub_u(order_margin, fee)?;
    let increase_margin_from_balance = if order_margin_from_balance > fee {
        order_margin_from_balance - fee
    } else {
        0u128
    };
    let leveraged = mul_rate_u(increase_margin, order.leverage as u128)?;
    let increase_size = token_to_usd_u(leveraged, decimals, margin_token_price)?;
    let borrowed_rate = safe_sub_u(order.leverage as u128, RATE_PRECISION)?;
    let increase_hold = mul_rate_u(increase_margin, borrowed_rate)?;
    Ok((increase_margin, increase_margin_from_balance, increase_size, increase_hold))
}

/// A new position opened by `order` in the slot `p`: its market, side,
/// margin mode, leverage and entry prices are the order's; margin, size,
/// fees and hold are added; the open fee is its first realized loss; its
/// fee accumulators start at the market's and the pool's; its maintenance
/// margin is that of its size.
pub open spec fn opened_position_spec(
    p: UserPosition,
    order: UserOrder,
    market: Market,
    side_pool: Pool,
    state: State,
    amounts: (int, int, int, int),
    execute_price: int,
    margin_price: int,
    fee: int,
    decimals: int,
    now: i64,
) -> Option<UserPosition> {
    let (im, fb, size, hold) = amounts;
    let is_long = order.order_side == OrderSide::LONG;
    let imu = token_to_usd_spec(im, decimals, margin_price);
    let fpu = token_to_usd_spec(fb, decimals, margin_price);
    let cf = mul_div_spec(size, market.config.close_fee_rate as int, RATE_PRECISION as int);
    let fee_usd = token_to_usd_spec(fee, decimals, margin_price);
    let pnl = token_to_usd_i_spec(fee, decimals, margin_price);
    let new_size = p.position_size + size;
    let mm = mm_spec(
        new_size,
        market.config.maximum_leverage as int,
        state.maximum_maintenance_margin_rate as int,
    );
    if fits_u(p.initial_margin + im) && imu is Some && fits_u(p.initial_margin_usd + imu->0)
        && fpu is Some && fits_u(p.initial_margin_usd_from_portfolio + fpu->0) && cf is Some
        && fits_u(p.close_fee_in_usd + cf->0) && fits_u(p.open_fee + fee) && fee_usd is Some
        && fits_u(p.open_fee_in_usd + fee_usd->0) && fits_u(new_size) && fits_i(fee) && pnl is Some
        && fits_i(-(pnl->0)) && fits_u(p.hold_pool_amount + hold) && mm is Some {
        Some(
            UserPosition {
                index_mint_oracle: market.index_mint_oracle,
                symbol: order.symbol,
                margin_mint_key: order.margin_mint_key,
                leverage: order.leverage,
                is_long,
                is_portfolio_margin: order.is_portfolio_margin,
                entry_price: execute_price as u128,
                margin_token_entry_price: margin_price as u128,
                user_token_account: order.user_token_account,
                initial_margin: (p.initial_margin + im) as u128,
                initial_margin_usd: (p.initial_margin_usd + imu->0) as u128,
                initial_margin_usd_from_portfolio: (p.initial_margin_usd_from_portfolio + fpu->0) as u128,
                close_fee_in_usd: (p.close_fee_in_usd + cf->0) as u128,
                open_fee: (p.open_fee + fee) as u128,
                open_fee_in_usd: (p.open_fee_in_usd + fee_usd->0) as u128,
                position_size: new_size as u128,
                realized_pnl: (-(pnl->0)) as i128,
                open_borrowing_fee_per_token: side_pool.borrowing_fee.cumulative_borrowing_fee_per_token,
                open_funding_fee_amount_per_size: if is_long {
                    market.funding_fee.long_funding_fee_amount_per_size
                } else {
                    market.funding_fee.short_funding_fee_amount_per_size
                },
                updated_at: now,
                hold_pool_amount: (p.hold_pool_amount + hold) as u128,
                mm_usd: (mm->0) as u128,
                ..p
            },
        )
    } else {
        None
    }
}

/// Fills a new position (see `opened_position_spec`); on failure the slot
/// is unchanged.
fn open_position(
    p: &mut UserPosition,
    order: &UserOrder,
    market: &Market,
    side_pool: &Pool,
    state: &State,
    amounts: (u128, u128, u128, u128),
    execute_price: u128,
    margin_token_price: u128,
    fee: u128,
    decimals: u16,
    now: i64,
) -> (r: BumpResult)
    ensures
        opened_position_spec(
            *old(p),
            *order,
            *market,
            *side_pool,
            *state,
            (amounts.0 as int, amounts.1 as int, amounts.2 as int, amounts.3 as int),
            execute_price as int,
            margin_token_price as int,
            fee as int,
            decimals as int,
            now,
        ) matches Some(v) ==> r == Ok::<(), BumpErrorCode>(()) && *final(p) == v,
        opened_position_spec(
            *old(p),
            *order,
            *market,
            *side_pool,
            *state,
            (amounts.0 as int, amounts.1 as int, amounts.2 as int, amounts.3 as int),
            execute_price as int,
            margin_token_price as int,
            fee as int,
            decimals as int,
            now,
        ) is None ==> r == Err::<(), BumpErrorCode>(BumpErrorCode::MathError) && *final(p) == *old(p),
{
    let (increase_margin, increase_margin_from_balance, increase_size, increase_hold) = amounts;
    let mut q = *p;
    let is_long = order.order_side == OrderSide::LONG;
    q.set_index_mint(market.index_mint_oracle)?;
    q.set_symbol(order.symbol)?;
    q.set_margin_mint(order.margin_mint_key)?;
    q.set_leverage(order.leverage)?;
    q.set_is_long(is_long)?;
    q.set_portfolio_margin(order.is_portfolio_margin)?;
    q.set_margin_mint(order.margin_mint_key)?;
    q.set_entry_price(execute_price)?;
    q.set_margin_token_entry_price(margin_token_price)?;
    q.set_user_token_account(order.user_token_account)?;
    q.add_initial_margin(increase_margin)?;
    let imu = token_to_usd_u(increase_margin, decimals, margin_token_price)?;
    q.add_initial_margin_usd(imu)?;
    let fpu = token_to_usd_u(increase_margin_from_balance, decimals, margin_token_price)?;
    q.add_initial_margin_usd_from_portfolio(fpu)?;
    let cf = mul_rate_u(increase_size, market.config.close_fee_rate)?;
    q.add_close_fee_in_usd(cf)?;
    q.add_open_fee(fee)?;
    let fee_usd = token_to_usd_u(fee, decimals, margin_token_price)?;
    q.add_open_fee_in_usd(fee_usd)?;
    q.add_position_size(increase_size)?;
    q.set_leverage(order.leverage)?;
    let fee_i = cast_to_i(fee)?;
    let pnl = token_to_usd_i(fee_i, decimals, margin_token_price)?;
    if pnl == i128::MIN {
        return Err(BumpErrorCode::MathError);
    }
    q.set_realized_pnl(-pnl)?;
    q.set_open_borrowing_fee_per_token(side_pool.borrowing_fee.cumulative_borrowing_fee_per_token)?;
    q.set_open_funding_fee_amount_per_size(
        if is_long {
            market.funding_fee.long_funding_fee_amount_per_size
        } else {
            market.funding_fee.short_funding_fee_amount_per_size
        },
    )?;
    q.set_last_update(now)?;
    q.add_hold_pool_amount(increase_hold)?;
    let mm = q.get_position_mm(market, state)?;
    q.set_mm_usd(mm)?;
    *p = q;
    Ok(())
}

/// A position grown by an increase (after its fees have been settled):
/// entry prices move to the size-weighted averages (see
/// `avg_entry_price_spec`); margin, size, fees and hold are added; the open
/// fee (USD) is a realized loss; the maintenance margin follows the size.
pub open spec fn grown_position_spec(
    p: UserPosition,
    market: Market,
    state: State,
    amounts: (int, int, int, int),
    execute_price: int,
    margin_price: int,
    fee: int,
    decimals: int,
    now: i64,
) -> Option<UserPosition> {
    let (im, fb, size, hold) = amounts;
    let tick = market.config.tick_size as int;
    let entry = avg_entry_price_spec(
        p.position_size as int,
        p.entry_price as int,
        size,
        execute_price,
        tick,
        p.is_long,
    );
    let mentry = avg_entry_price_spec(
        p.position_size as int,
        p.margin_token_entry_price as int,
        size,
        margin_price,
        tick,
        p.is_long,
    );
    let imu = token_to_usd_spec(im, decimals, margin_price);
    let fpu = token_to_usd_spec(fb, decimals, margin_price);
    let cf = mul_div_spec(size, market.config.close_fee_rate as int, RATE_PRECISION as int);
    let fee_usd = token_to_usd_spec(fee, decimals, margin_price);
    let new_size = p.position_size + size;
    let mm = mm_spec(
        new_size,
        market.config.maximum_leverage as int,
        state.maximum_maintenance_margin_rate as int,
    );
    if entry is Some && fits_u(entry->0) && mentry is Some && fits_u(mentry->0) && fits_u(
        p.initial_margin + im,
    ) && imu is Some && fits_u(
        p.initial_margin_usd + imu->0,
    ) && fpu is Some && fits_u(p.initial_margin_usd_from_portfolio + fpu->0) && fits_u(new_size)
        && cf is Some && fits_u(p.close_fee_in_usd + cf->0) && fits_u(p.open_fee + fee)
        && fee_usd is Some && fits_u(p.open_fee_in_usd + fee_usd->0) && fits_i(fee_usd->0)
        && fits_i(p.realized_pnl - fee_usd->0) && fits_u(p.hold_pool_amount + hold) && mm is Some {
        Some(
            UserPosition {
                entry_price: (entry->0) as u128,
                margin_token_entry_price: (mentry->0) as u128,
                initial_margin: (p.initial_margin + im) as u128,
                initial_margin_usd: (p.initial_margin_usd + imu->0) as u128,
                initial_margin_usd_from_portfolio: (p.initial_margin_usd_from_portfolio + fpu->0) as u128,
                position_size: new_size as u128,
                close_fee_in_usd: (p.close_fee_in_usd + cf->0) as u128,
                open_fee: (p.open_fee + fee) as u128,
                open_fee_in_usd: (p.open_fee_in_usd + fee_usd->0) as u128,
                realized_pnl: (p.realized_pnl - fee_usd->0) as i128,
                updated_at: now,
                hold_pool_amount: (p.hold_pool_amount + hold) as u128,
                mm_usd: (mm->0) as u128,
                ..p
            },
        )
    } else {
        None
    }
}

/// Growing a position moves its entry price to the size-weighted mean of
/// the old entry and the execution price (and its margin-token entry price
/// to the mean of the old one and the margin token's price), rounded down
/// to a whole price and, with a tick size, moved onto the tick grid (up for
/// longs, down for shorts, by less than one tick).
pub proof fn lemma_grown_entry_is_weighted_mean(
    p: UserPosition,
    market: Market,
    state: State,
    amounts: (int, int, int, int),
    execute_price: int,
    margin_price: int,
    fee: int,
    decimals: int,
    now: i64,
)
    requires
        0 <= amounts.2,
        0 <= execute_price,
        0 <= margin_price,
        grown_position_spec(
            p,
            market,
            state,
            amounts,
            execute_price,
            margin_price,
            fee,
            decimals,
            now,
        ) is Some,
    ensures
        ({
            let v = grown_position_spec(
                p,
                market,
                state,
                amounts,
                execute_price,
                margin_price,
                fee,
                decimals,
                now,
            )->0;
            let n = p.position_size as int;
            let size = amounts.2;
            let q = n + size;
            let w = n * p.entry_price + size * execute_price;
            let wm = n * p.margin_token_entry_price + size * margin_price;
            let t = market.config.tick_size as int;
            let e = v.entry_price as int;
            let me = v.margin_token_entry_price as int;
            &&& q > 0
            &&& t == 0 ==> e * q <= w < (e + 1) * q && me * q <= wm < (me + 1) * q
            &&& t > 0 ==> e % t == 0 && me % t == 0
            &&& t > 0 && p.is_long ==> w / q <= e < w / q + t && wm / q <= me < wm / q + t
            &&& t > 0 && !p.is_long ==> w / q - t < e <= w / q && wm / q - t < me <= wm / q
        }),
{
    let t = market.config.tick_size as int;
    lemma_avg_entry_is_weighted_mean(
        p.position_size as int,
        p.entry_price as int,
        amounts.2,
        execute_price,
        t,
        p.is_long,
    );
    lemma_avg_entry_is_weighted_mean(
        p.position_size as int,
        p.margin_token_entry_price as int,
        amounts.2,
        margin_price,
        t,
        p.is_long,
    );
}

/// Grows a position (see `grown_position_spec`); on failure it is
/// unchanged.
fn grow_position(
    p: &mut UserPosition,
    market: &Market,
    state: &State,
    amounts: (u128, u128, u128, u128),
    execute_price: u128,
    margin_token_price: u128,
    fee: u128,
    decimals: u16,
    now: i64,
) -> (r: BumpResult)
    ensures
        grown_position_spec(
            *old(p),
            *market,
            *state,
            (amounts.0 as int, amounts.1 as int, amounts.2 as int, amounts.3 as int),
            execute_price as int,
            margin_token_price as int,
            fee as int,
            decimals as int,
            now,
        ) matches Some(v) ==> r == Ok::<(), BumpErrorCode>(()) && *final(p) == v,
        grown_position_spec(
            *old(p),
            *market,
            *state,
            (amounts.0 as int, amounts.1 as int, amounts.2 as int, amounts.3 as int),
            execute_price as int,
            margin_token_price as int,
            fee as int,
            decimals as int,
            now,
        ) is None ==> r == Err::<(), BumpErrorCode>(BumpErrorCode::MathError) && *final(p) == *old(p),
{
    let (increase_margin, increase_margin_from_balance, increase_size, increase_hold) = amounts;
    let mut q = *p;
    let entry = compute_avg_entry_price(
        q.position_size,
        q.entry_price,
        increase_size,
        execute_price,
        market.config.tick_size,
        decimals,
        q.is_long,
    )?;
    q.set_entry_price(entry)?;
    let mentry = compute_avg_entry_price(
        q.position_size,
        q.margin_token_entry_price,
        increase_size,
        margin_token_price,
        market.config.tick_size,
        decimals,
        q.is_long,
    )?;
    q.set_margin_token_entry_price(mentry)?;
    q.add_initial_margin(increase_margin)?;
    let imu = token_to_usd_u(increase_margin, decimals, margin_token_price)?;
    q.add_initial_margin_usd(imu)?;
    let fpu = token_to_usd_u(increase_margin_from_balance, decimals, margin_token_price)?;
    q.add_initial_margin_usd_from_portfolio(fpu)?;
    q.add_position_size(increase_size)?;
    let cf = mul_rate_u(increase_size, market.config.close_fee_rate)?;
    q.add_close_fee_in_usd(cf)?;
    q.add_open_fee(fee)?;
    let fee_usd = token_to_usd_u(fee, decimals, margin_token_price)?;
    q.add_open_fee_in_usd(fee_usd)?;
    let fee_usd_again = token_to_usd_u(fee, decimals, margin_token_price)?;
    let fee_usd_i = cast_to_i(fee_usd_again)?;
    q.add_realized_pnl(-fee_usd_i)?;
    q.set_last_update(now)?;
    q.add_hold_pool_amount(increase_hold)?;
    let mm = q.get_position_mm(market, state)?;
    q.set_mm_usd(mm)?;
    *p = q;
    Ok(())
}


/// `ms` with every entry of the market `m`'s symbol holding `m` itself.
pub open spec fn refreshed_markets(ms: Seq<PoolMarketInput>, m: Market) -> Seq<PoolMarketInput> {
    Seq::new(
        ms.len(),
        |i: int|
            if ms[i].market.symbol@ == m.symbol@ {
                PoolMarketInput { market: m, ..ms[i] }
            } else {
                ms[i]
            },
    )
}

/// The markets with `market` in its current state (see
/// `refreshed_markets`).
fn refresh_markets(markets: &Vec<PoolMarketInput>, market: &Market) -> (r: Vec<PoolMarketInput>)
    ensures
        r@ == refreshed_markets(markets@, *market),
{
    let mut r: Vec<PoolMarketInput> = Vec::new();
    let mut i: usize = 0;
    while i < markets.len()
        invariant
            i <= markets.len(),
            r@ == refreshed_markets(markets@, *market).subrange(0, i as int),
        decreases markets.len() - i,
    {
        let mut entry = markets[i];
        if key_eq(&entry.market.symbol, &market.symbol) {
            entry.market = *market;
        }
        r.push(entry);
        i = i + 1;
        assert(r@ =~= refreshed_markets(markets@, *market).subrange(0, i as int));
    }
    assert(r@ =~= refreshed_markets(markets@, *market));
    r
}

/// Outcome of `increase_position`: `(position slots, market, base token
/// pool, stable pool)`. The position is keyed by the derived address of the
/// user, the market and the margin mode; it is taken from its slot, or a
/// free slot is taken for it. An empty position is opened (see
/// `opened_position_spec`); a position with size keeps its leverage and its
/// side, has its fees settled at the margin token's price and grows (see
/// `grown_position_spec`). The market's open interest grows and the pool of
/// the side holds the borrowed amount (see `hold_pool_amount_spec`).
#[verifier::opaque]
pub open spec fn increase_position_spec(
    u: User,
    market: Market,
    base: Pool,
    stable: Pool,
    base_decimals: int,
    stable_decimals: int,
    program_id: Seq<u8>,
    order: UserOrder,
    order_margin: int,
    order_margin_from_balance: int,
    execute_price: int,
    margin_price: int,
    fee: int,
    markets: Seq<PoolMarketInput>,
    pool_token_price: int,
    state: State,
    now: i64,
) -> Result<([UserPosition; 8], Market, Pool, Pool), BumpErrorCode> {
    let mode = seq![if order.is_portfolio_margin { 1u8 } else { 0u8 }];
    match program_address(seq![u.user_key@, market.symbol@, mode], program_id) {
        None => Err(BumpErrorCode::ProgramAddressNotFound),
        Some((key, _)) => {
            let existing = has_position(u, key);
            if !existing && !has_free_position_slot(u) {
                Err(BumpErrorCode::AmountNotEnough)
            } else {
                let slot = if existing {
                    position_slot(u, key)
                } else {
                    free_position_slot(u)
                };
                let p0 = if existing {
                    u.user_positions@[slot]
                } else {
                    blank_position_spec(key, u.user_key)
                };
                let is_long = order.order_side == OrderSide::LONG;
                let decimals = if is_long {
                    base_decimals
                } else {
                    stable_decimals
                };
                if p0.position_size != 0 && p0.leverage != order.leverage {
                    Err(BumpErrorCode::LeverageIsNotAllowed)
                } else {
                    match increase_amounts_spec(
                        order,
                        order_margin,
                        order_margin_from_balance,
                        fee,
                        decimals,
                        margin_price,
                    ) {
                        None => Err(BumpErrorCode::MathError),
                        Some(amounts) => {
                            let side = if is_long {
                                base
                            } else {
                                stable
                            };
                            let grown: Result<(UserPosition, Market, Pool), BumpErrorCode> =
                                if p0.position_size == 0 {
                                match opened_position_spec(
                                    p0,
                                    order,
                                    market,
                                    side,
                                    state,
                                    amounts,
                                    execute_price,
                                    margin_price,
                                    fee,
                                    decimals,
                                    now,
                                ) {
                                    Some(p1) => Ok((p1, market, side)),
                                    None => Err(BumpErrorCode::MathError),
                                }
                            } else if is_long != p0.is_long {
                                Err(BumpErrorCode::OnlyOneDirectionPositionIsAllowed)
                            } else {
                                match borrowing_settle_spec(p0, side, margin_price, decimals) {
                                    None => Err(BumpErrorCode::MathError),
                                    Some((pa, s1)) => match funding_settle_spec(
                                        pa,
                                        market,
                                        s1,
                                        margin_price,
                                        decimals,
                                    ) {
                                        None => Err(BumpErrorCode::MathError),
                                        Some((pb, m1, s2)) => match grown_position_spec(
                                            pb,
                                            m1,
                                            state,
                                            amounts,
                                            execute_price,
                                            margin_price,
                                            fee,
                                            decimals,
                                            now,
                                        ) {
                                            Some(p1) => Ok((p1, m1, s2)),
                                            None => Err(BumpErrorCode::MathError),
                                        },
                                    },
                                }
                            };
                            match grown {
                                Err(e) => Err(e),
                                Ok((p1, m1, s1)) => {
                                    let oi = UpdateOIParams {
                                        margin_token: order.margin_mint_key,
                                        size: amounts.2 as u128,
                                        is_long,
                                        entry_price: execute_price as u128,
                                        token_decimal: decimals as u16,
                                    };
                                    match oi_update_spec(m1, true, oi) {
                                        None => Err(BumpErrorCode::MathError),
                                        Some(side_oi) => {
                                            let m2 = with_side(m1, is_long, side_oi);
                                            let (e, s2) = hold_pool_amount_spec(
                                                s1,
                                                refreshed_markets(markets, m2),
                                                decimals,
                                                pool_token_price,
                                                m2.config.max_pool_liquidity_share_rate as int,
                                                amounts.3,
                                            );
                                            match e {
                                                Err(e) => Err(e),
                                                Ok(_) => Ok(
                                                    (
                                                        spec_array_update(u.user_positions, slot, p1),
                                                        m2,
                                                        if is_long {
                                                            s2
                                                        } else {
                                                            base
                                                        },
                                                        if is_long {
                                                            stable
                                                        } else {
                                                            s2
                                                        },
                                                    ),
                                                ),
                                            }
                                        },
                                    }
                                },
                            }
                        },
                    }
                }
            }
        },
    }
}

/// Opens or grows the user's position in `market` with an order's margin
/// (see `increase_position_spec`): `order_margin` tokens of which
/// `order_margin_from_balance` came from the balance, `fee` the open fee
/// already charged, at `execute_price` with the margin token at
/// `margin_token_price`. `trade_token` and `stable_trade_token` are the
/// market's tokens, `markets` all markets and `pool_token_price` the price
/// of the token of the side's pool. On failure nothing changes.
#[verifier::rlimit(80)]
#[verifier::spinoff_prover]
pub fn increase_position(
    user: &mut User,
    market: &mut Market,
    base_token_pool: &mut Pool,
    stable_pool: &mut Pool,
    trade_token: &TradeToken,
    stable_trade_token: &TradeToken,
    program_id: &Pubkey,
    order: &UserOrder,
    order_margin: u128,
    order_margin_from_balance: u128,
    execute_price: u128,
    margin_token_price: u128,
    fee: u128,
    markets: &Vec<PoolMarketInput>,
    pool_token_price: u128,
    state: &State,
    now: i64,
) -> (r: BumpResult)
    ensures
        increase_position_spec(
            *old(user),
            *old(market),
            *old(base_token_pool),
            *old(stable_pool),
            trade_token.decimals as int,
            stable_trade_token.decimals as int,
            program_id@,
            *order,
            order_margin as int,
            order_margin_from_balance as int,
            execute_price as int,
            margin_token_price as int,
            fee as int,
            markets@,
            pool_token_price as int,
            *state,
            now,
        ) matches Err(e) ==> r == Err::<(), BumpErrorCode>(e) && *final(user) == *old(user)
            && *final(market) == *old(market) && *final(base_token_pool) == *old(base_token_pool)
            && *final(stable_pool) == *old(stable_pool),
        increase_position_spec(
            *old(user),
            *old(market),
            *old(base_token_pool),
            *old(stable_pool),
            trade_token.decimals as int,
            stable_trade_token.decimals as int,
            program_id@,
            *order,
            order_margin as int,
            order_margin_from_balance as int,
            execute_price as int,
            margin_token_price as int,
            fee as int,
            markets@,
            pool_token_price as int,
            *state,
            now,
        ) matches Ok((arr, m, b, s)) ==> r == Ok::<(), BumpErrorCode>(()) && *final(user) == (User {
            user_positions: arr,
            ..*old(user)
        }) && *final(market) == m && *final(base_token_pool) == b && *final(stable_pool) == s,
{
    reveal(increase_position_spec);
    let position_key = generate_position_key(
        &user.user_key,
        market.symbol,
        order.is_portfolio_margin,
        program_id,
    )?;
    let mut u = *user;
    let mut m = *market;
    let mut base = *base_token_pool;
    let mut stable = *stable_pool;
    let ghost u0 = u;
    let idx = match u.get_user_position_index(&position_key) {
        Ok(i) => {
            proof {
                lemma_position_slot(u0, position_key@, i as int);
            }
            i
        },
        Err(_) => {
            let i = u.add_user_position(&position_key)?;
            proof {
                lemma_free_position_slot(u0, i as int);
                lemma_blank_position_unique(u.user_positions@[i as int], position_key@, u0.user_key);
            }
            i
        },
    };
    let mut p = u.user_positions[idx];
    let is_long = order.order_side == OrderSide::LONG;
    if p.position_size != 0u128 && p.leverage != order.leverage {
        return Err(BumpErrorCode::LeverageIsNotAllowed);
    }
    let decimal = if is_long {
        trade_token.decimals
    } else {
        stable_trade_token.decimals
    };
    let amounts = increase_amounts(
        order,
        order_margin,
        order_margin_from_balance,
        fee,
        decimal,
        margin_token_price,
    )?;
    let mut side = if is_long {
        base
    } else {
        stable
    };
    if p.position_size == 0u128 {
        open_position(
            &mut p,
            order,
            &m,
            &side,
            state,
            amounts,
            execute_price,
            margin_token_price,
            fee,
            decimal,
            now,
        )?;
    } else {
        if is_long != p.is_long {
            return Err(BumpErrorCode::OnlyOneDirectionPositionIsAllowed);
        }
        let side_token = if is_long {
            trade_token
        } else {
            stable_trade_token
        };
        update_borrowing_fee(&mut p, &mut side, margin_token_price, side_token)?;
        update_funding_fee(&mut p, &mut m, &mut side, margin_token_price, side_token)?;
        grow_position(
            &mut p,
            &m,
            state,
            amounts,
            execute_price,
            margin_token_price,
            fee,
            decimal,
            now,
        )?;
    }
    u.user_positions[idx] = p;
    m.update_oi(
        true,
        UpdateOIParams {
            margin_token: order.margin_mint_key,
            size: amounts.2,
            is_long,
            entry_price: execute_price,
            token_decimal: decimal,
        },
    )?;
    let current_markets = refresh_markets(markets, &m);
    side.hold_pool_amount(
        amounts.3,
        &current_markets,
        decimal,
        pool_token_price,
        m.config.max_pool_liquidity_share_rate,
    )?;
    if is_long {
        base = side;
    } else {
        stable = side;
    }
    proof {
        let a1 = spec_array_update(u0.user_positions, idx as int, p);
        assert(a1@ == u0.user_positions@.update(idx as int, p));
        assert(u.user_positions@ =~= a1@);
        assert(u.user_positions =~= a1);
    }
    *user = u;
    *market = m;
    *base_token_pool = base;
    *stable_pool = stable;
    Ok(())
}

// ---------------------------------------------------------------------------
// Executing orders
// ---------------------------------------------------------------------------

/// USD margin of a cross-margin order: its margin, less the account's
/// deficit when the available value is negative; nothing left is refused.
pub open spec fn cross_order_margin_usd_spec(available: int, order_margin: int) -> Result<int, BumpErrorCode> {
    if available < 0 {
        if !fits_i(order_margin) || !fits_i(order_margin + available) {
            Err(BumpErrorCode::MathError)
        } else if order_margin + available > 0 {
            Ok(order_margin + available)
        } else {
            Err(BumpErrorCode::BalanceNotEnough)
        }
    } else {
        Ok(order_margin)
    }
}

/// What a cross-margin order's margin becomes before it is used:
/// `(margin in tokens, account with the order's hold released)`.
pub open spec fn cross_order_margin_spec(
    u: User,
    tokens: Seq<TokenPrice>,
    order: UserOrder,
    decimals: int,
    margin_price: int,
) -> Result<(int, User), BumpErrorCode> {
    match available_value_spec(u, tokens) {
        Err(e) => Err(e),
        Ok(available) => match cross_order_margin_usd_spec(available, order.order_margin as int) {
            Err(e) => Err(e),
            Ok(usd) => if u.hold < order.order_margin {
                Err(BumpErrorCode::AmountNotEnough)
            } else {
                match usd_to_token_spec(usd, decimals, margin_price) {
                    None => Err(BumpErrorCode::MathError),
                    Some(amount) => Ok(
                        (amount, User { hold: (u.hold - order.order_margin) as u128, ..u }),
                    ),
                }
            },
        },
    }
}

/// Margin of an order about to open or grow a position: `(margin, part
/// from the balance)` in tokens. A cross-margin order's USD margin (see
/// `cross_order_margin_spec`) is converted at the margin token's price and
/// used from the balance of `margin_token`; an isolated order's margin must
/// be worth the minimum order margin. On failure nothing changes.
pub fn execute_increase_order_margin(
    order: &UserOrder,
    margin_token: &Pubkey,
    decimals: u16,
    user: &mut User,
    margin_token_price: u128,
    tokens: &Vec<TokenPrice>,
    state: &State,
) -> (r: BumpResult<(u128, u128)>)
    ensures
        order_margin_result(
            *old(user),
            tokens@,
            *order,
            *margin_token,
            decimals as int,
            margin_token_price as int,
            *state,
        ) matches Err(e) ==> r == Err::<(u128, u128), BumpErrorCode>(e) && *final(user) == *old(user),
        order_margin_result(
            *old(user),
            tokens@,
            *order,
            *margin_token,
            decimals as int,
            margin_token_price as int,
            *state,
        ) matches Ok((om, from_balance, toks, hold)) ==> r == Ok::<(u128, u128), BumpErrorCode>(
            (om as u128, from_balance as u128),
        ) && *final(user) == (User { user_tokens: toks, hold, ..*old(user) }),
{
    if order.is_portfolio_margin {
        let mut u = *user;
        let available_value = u.get_available_value(tokens)?;
        let order_margin_temp;
        if available_value < 0i128 {
            let om = cast_to_i(order.order_margin)?;
            let fix_order_margin_in_usd = safe_add_i(om, available_value)?;
            if !(fix_order_margin_in_usd > 0i128) {
                return Err(BumpErrorCode::BalanceNotEnough);
            }
            u.sub_order_hold_in_usd(order.order_margin)?;
            order_margin_temp = abs_to_u(fix_order_margin_in_usd)?;
        } else {
            order_margin_temp = order.order_margin;
            u.sub_order_hold_in_usd(order.order_margin)?;
        }
        let order_margin = usd_to_token_u(order_margin_temp, decimals, margin_token_price)?;
        let ghost u1 = u;
        let order_margin_from_balance = u.use_token(
            margin_token,
            order_margin,
            &order.user_token_account,
            false,
        )?;
        proof {
            if has_token(u1, margin_token@) {
                lemma_has_token_slot(u1, margin_token@);
            } else {
                lemma_has_free_token_slot(u1);
            }
            let i = if has_token(u1, margin_token@) {
                token_slot(u1, margin_token@)
            } else {
                free_token_slot(u1)
            };
            if !has_token(u1, margin_token@) {
                assert(u.user_tokens@[i].token_mint_key =~= *margin_token);
                assert(u.user_tokens@[i].user_token_account_key =~= order.user_token_account);
            }
            let a = spec_array_update(u1.user_tokens, i, u.user_tokens@[i]);
            assert(a@ == u1.user_tokens@.update(i, u.user_tokens@[i]));
            assert(u.user_tokens@ =~= a@);
            assert(u.user_tokens =~= a);
        }
        *user = u;
        Ok((order_margin, order_margin_from_balance))
    } else {
        let order_margin_in_usd = token_to_usd_u(order.order_margin, decimals, margin_token_price)?;
        if !(order_margin_in_usd >= state.minimum_order_margin_usd) {
            return Err(BumpErrorCode::OrderMarginUSDTooSmall);
        }
        Ok((order.order_margin, order.order_margin))
    }
}

/// First steps of executing an order: its leverage and price are checked
/// (see `validate_execute_order` and `price_allowed_spec`), the token that
/// margins it is chosen (see `use_base_token_spec`), and the market's
/// funding and the margin pool's borrowing fee are brought up to `now`.
/// Returns `(execution price, margined in the base token, margin token
/// price, market, base token pool, stable pool)`.
pub open spec fn execute_prelude_spec(
    order: UserOrder,
    market: Market,
    base: Pool,
    stable: Pool,
    state: State,
    index_price: int,
    base_token_price: int,
    stable_token_price: int,
    now: i64,
) -> Result<(int, bool, int, Market, Pool, Pool), BumpErrorCode> {
    if order.leverage > market.config.maximum_leverage || order.leverage
        < market.config.minimum_leverage {
        Err(BumpErrorCode::LeverageIsNotAllowed)
    } else if !price_allowed_spec(index_price, order) {
        Err(BumpErrorCode::PriceIsNotAllowed)
    } else {
        match use_base_token_spec(order.position_side, order.order_side) {
            None => Err(BumpErrorCode::InvalidParam),
            Some(use_base) => {
                let price = if use_base {
                    base_token_price
                } else {
                    stable_token_price
                };
                let (e1, m1) = market_funding_update_spec(market, state, price, now);
                match e1 {
                    Err(e) => Err(e),
                    Ok(_) => {
                        let side = if use_base {
                            base
                        } else {
                            stable
                        };
                        let (e2, f) = borrowing_fee_update_spec(
                            side.borrowing_fee,
                            side.balance,
                            side.config.borrowing_interest_rate as int,
                            now,
                        );
                        match e2 {
                            Err(e) => Err(e),
                            Ok(_) => {
                                let side2 = Pool { borrowing_fee: f, ..side };
                                Ok(
                                    (
                                        index_price,
                                        use_base,
                                        price,
                                        m1,
                                        if use_base {
                                            side2
                                        } else {
                                            base
                                        },
                                        if use_base {
                                            stable
                                        } else {
                                            side2
                                        },
                                    ),
                                )
                            },
                        }
                    },
                }
            },
        }
    }
}

/// First steps of executing an order (see `execute_prelude_spec`); returns
/// `(execution price, margined in the base token, margin token price)`. On
/// failure nothing changes.
fn execute_prelude(
    order: &UserOrder,
    market: &mut Market,
    base_token_pool: &mut Pool,
    stable_pool: &mut Pool,
    state: &State,
    index_price: u128,
    base_token_price: u128,
    stable_token_price: u128,
    now: i64,
) -> (r: BumpResult<(u128, bool, u128)>)
    ensures
        execute_prelude_spec(
            *order,
            *old(market),
            *old(base_token_pool),
            *old(stable_pool),
            *state,
            index_price as int,
            base_token_price as int,
            stable_token_price as int,
            now,
        ) matches Err(e) ==> r == Err::<(u128, bool, u128), BumpErrorCode>(e) && *final(market)
            == *old(market) && *final(base_token_pool) == *old(base_token_pool) && *final(stable_pool)
            == *old(stable_pool),
        execute_prelude_spec(
            *order,
            *old(market),
            *old(base_token_pool),
            *old(stable_pool),
            *state,
            index_price as int,
            base_token_price as int,
            stable_token_price as int,
            now,
        ) matches Ok((exec, use_base, price, m, b, s)) ==> r == Ok::<(u128, bool, u128), BumpErrorCode>(
            (exec as u128, use_base, price as u128),
        ) && *final(market) == m && *final(base_token_pool) == b && *final(stable_pool) == s,
{
    validate_execute_order(order, market)?;
    let execute_price = get_execution_price(index_price, order)?;
    let use_base = use_base_token(&order.position_side, &order.order_side)?;
    let margin_token_price = if use_base {
        base_token_price
    } else {
        stable_token_price
    };
    let mut m = *market;
    m.update_market_funding_fee_rate(state, margin_token_price, now)?;
    if use_base {
        let mut b = *base_token_pool;
        b.update_pool_borrowing_fee_rate(now)?;
        *base_token_pool = b;
    } else {
        let mut st = *stable_pool;
        st.update_pool_borrowing_fee_rate(now)?;
        *stable_pool = st;
    }
    *market = m;
    Ok((execute_price, use_base, margin_token_price))
}

/// The account's balance slots and order hold after an order's margin is
/// taken (see `execute_increase_order_margin`): `(margin, margin from the
/// balance, token slots, hold)`.
pub open spec fn order_margin_result(
    u: User,
    tokens: Seq<TokenPrice>,
    order: UserOrder,
    margin_token: Pubkey,
    decimals: int,
    margin_price: int,
    state: State,
) -> Result<(int, int, [UserToken; 12], u128), BumpErrorCode> {
    if !order.is_portfolio_margin {
        match token_to_usd_spec(order.order_margin as int, decimals, margin_price) {
            None => Err(BumpErrorCode::MathError),
            Some(usd) => if usd >= state.minimum_order_margin_usd {
                Ok((order.order_margin as int, order.order_margin as int, u.user_tokens, u.hold))
            } else {
                Err(BumpErrorCode::OrderMarginUSDTooSmall)
            },
        }
    } else {
        match cross_order_margin_spec(u, tokens, order, decimals, margin_price) {
            Err(e) => Err(e),
            Ok((amount, u1)) => if has_token(u1, margin_token@) {
                let i = token_slot(u1, margin_token@);
                let (er, t) = use_token_spec(u1.user_tokens@[i], amount, false);
                match er {
                    Ok(from_balance) => Ok(
                        (amount, from_balance as int, spec_array_update(u1.user_tokens, i, t), u1.hold),
                    ),
                    Err(e) => Err(e),
                }
            } else if !has_free_token_slot(u1) {
                Err(BumpErrorCode::NoMoreUserTokenSpace)
            } else {
                let i = free_token_slot(u1);
                let t = UserToken {
                    amount: 0,
                    used_amount: amount as u128,
                    liability_amount: 0,
                    token_mint_key: margin_token,
                    user_token_account_key: order.user_token_account,
                    user_token_status: UserTokenStatus::USING,
                };
                Ok((amount, 0, spec_array_update(u1.user_tokens, i, t), u1.hold))
            },
        }
    }
}


/// The portfolio-margin account and the tokens after an open fee of `fee`
/// is taken from the balance of the order's margin token: the fee is
/// released from use, then debited, possibly into debt recorded on the
/// token of the order's side (see `debit_with_liability_spec`). Isolated
/// orders change nothing.
pub open spec fn open_fee_debit_spec(
    u: User,
    tt: TradeToken,
    stt: TradeToken,
    order: UserOrder,
    fee: int,
    is_long: bool,
) -> Result<(User, TradeToken, TradeToken), BumpErrorCode> {
    let mint = order.margin_mint_key@;
    if !order.is_portfolio_margin {
        Ok((u, tt, stt))
    } else if !has_token(u, mint) {
        Err(BumpErrorCode::CouldNotFindUserToken)
    } else {
        let i = token_slot(u, mint);
        let t = u.user_tokens@[i];
        if t.used_amount <= fee {
            Err(BumpErrorCode::AmountNotEnough)
        } else {
            let t1 = UserToken { used_amount: (t.used_amount - fee) as u128, ..t };
            let (ed, t2, side_tt) = debit_with_liability_spec(
                t1,
                if is_long {
                    tt
                } else {
                    stt
                },
                fee,
            );
            match ed {
                Err(e) => Err(e),
                Ok(_) => Ok(
                    (
                        User { user_tokens: spec_array_update(u.user_tokens, i, t2), ..u },
                        if is_long {
                            side_tt
                        } else {
                            tt
                        },
                        if is_long {
                            stt
                        } else {
                            side_tt
                        },
                    ),
                ),
            }
        }
    }
}

/// Takes an open fee from a portfolio-margin account (see
/// `open_fee_debit_spec`); on failure nothing changes.
fn debit_open_fee(
    user: &mut User,
    trade_token: &mut TradeToken,
    stable_trade_token: &mut TradeToken,
    order: &UserOrder,
    fee: u128,
    is_long: bool,
) -> (r: BumpResult)
    ensures
        open_fee_debit_spec(
            *old(user),
            *old(trade_token),
            *old(stable_trade_token),
            *order,
            fee as int,
            is_long,
        ) matches Err(e) ==> r == Err::<(), BumpErrorCode>(e) && *final(user) == *old(user) && *final(trade_token) == *old(trade_token) && *final(stable_trade_token) == *old(stable_trade_token),
        open_fee_debit_spec(
            *old(user),
            *old(trade_token),
            *old(stable_trade_token),
            *order,
            fee as int,
            is_long,
        ) matches Ok((u, tt, stt)) ==> r == Ok::<(), BumpErrorCode>(()) && *final(user) == u && *final(trade_token) == tt && *final(stable_trade_token) == stt,
{
    if !order.is_portfolio_margin {
        return Ok(());
    }
    let mut u = *user;
    let mut tt = *trade_token;
    let mut stt = *stable_trade_token;
    let ghost u1 = u;
    proof {
        if has_token(u1, order.margin_mint_key@) {
            lemma_has_token_slot(u1, order.margin_mint_key@);
        }
    }
    u.un_use_token(&order.margin_mint_key, fee)?;
    proof {
        let i = token_slot(u1, order.margin_mint_key@);
        assert(is_first_token(u, order.margin_mint_key@, i));
        lemma_token_slot(u, order.margin_mint_key@, i);
    }
    if is_long {
        u.sub_token_with_liability(
            &order.margin_mint_key,
            &mut tt,
            fee,
            &UserTokenUpdateReason::SettleFee,
        )?;
    } else {
        u.sub_token_with_liability(
            &order.margin_mint_key,
            &mut stt,
            fee,
            &UserTokenUpdateReason::SettleFee,
        )?;
    }
    proof {
        let i = token_slot(u1, order.margin_mint_key@);
        let a = spec_array_update(u1.user_tokens, i, u.user_tokens@[i]);
        assert(a@ == u1.user_tokens@.update(i, u.user_tokens@[i]));
        assert(u.user_tokens@ =~= a@);
        assert(u.user_tokens =~= a);
    }
    *user = u;
    *trade_token = tt;
    *stable_trade_token = stt;
    Ok(())
}

/// Outcome of executing an increasing order once its prelude has run (see
/// `execute_prelude_spec`): the margin is taken (see
/// `order_margin_result`), the open fee is charged on margin times leverage
/// to the pool of the order's side (see `collect_open_position_fee`) and,
/// for portfolio margin, debited from the balance of the order's margin
/// token (released from use, then debited possibly into debt, see
/// `debit_with_liability_spec`); then the position opens or grows (see
/// `increase_position_spec`). Returns `(account, market, base token pool,
/// stable pool, trade token, stable trade token)` before the order is
/// removed.
pub open spec fn increase_order_spec(
    u: User,
    market: Market,
    base: Pool,
    stable: Pool,
    tt: TradeToken,
    stt: TradeToken,
    state: State,
    program_id: Seq<u8>,
    order: UserOrder,
    execute_price: int,
    use_base: bool,
    margin_price: int,
    tokens: Seq<TokenPrice>,
    markets: Seq<PoolMarketInput>,
    base_token_price: int,
    stable_token_price: int,
    now: i64,
) -> Result<(User, Market, Pool, Pool, TradeToken, TradeToken), BumpErrorCode> {
    let margin_token = if use_base {
        market.pool_mint_key
    } else {
        market.stable_pool_mint_key
    };
    let decimals = if use_base {
        tt.decimals as int
    } else {
        stt.decimals as int
    };
    let is_long = order.order_side == OrderSide::LONG;
    match order_margin_result(u, tokens, order, margin_token, decimals, margin_price, state) {
        Err(e) => Err(e),
        Ok((om, omfb, toks, hold)) => {
            let u1 = User { user_tokens: toks, hold, ..u };
            match mul_div_spec(om, order.leverage as int, RATE_PRECISION as int) {
                None => Err(BumpErrorCode::MathError),
                Some(leveraged) => match mul_div_spec(
                    leveraged,
                    market.config.open_fee_rate as int,
                    RATE_PRECISION as int,
                ) {
                    None => Err(BumpErrorCode::MathError),
                    Some(fee) => {
                        let side = if is_long {
                            base
                        } else {
                            stable
                        };
                        let (ef, side1) = book_fee_spec(side, fee, order.is_portfolio_margin);
                        let b1 = if is_long {
                            side1
                        } else {
                            base
                        };
                        let s1 = if is_long {
                            stable
                        } else {
                            side1
                        };
                        let debited = open_fee_debit_spec(u1, tt, stt, order, fee, is_long);
                        match ef {
                            Err(e) => Err(e),
                            Ok(_) => match debited {
                                Err(e) => Err(e),
                                Ok((u2, tt2, stt2)) => match increase_position_spec(
                                    u2,
                                    market,
                                    b1,
                                    s1,
                                    tt2.decimals as int,
                                    stt2.decimals as int,
                                    program_id,
                                    order,
                                    om,
                                    omfb,
                                    execute_price,
                                    margin_price,
                                    fee,
                                    markets,
                                    if is_long {
                                        base_token_price
                                    } else {
                                        stable_token_price
                                    },
                                    state,
                                    now,
                                ) {
                                    Err(e) => Err(e),
                                    Ok((arr, m3, b3, s3)) => Ok(
                                        (User { user_positions: arr, ..u2 }, m3, b3, s3, tt2, stt2),
                                    ),
                                },
                            },
                        }
                    },
                },
            }
        },
    }
}

/// Executes an increasing order once its prelude has run (see
/// `increase_order_spec`); the order is not removed. On failure nothing
/// changes.
#[verifier::rlimit(100)]
#[verifier::spinoff_prover]
fn execute_increase_order(
    user: &mut User,
    market: &mut Market,
    base_token_pool: &mut Pool,
    stable_pool: &mut Pool,
    trade_token: &mut TradeToken,
    stable_trade_token: &mut TradeToken,
    state: &State,
    program_id: &Pubkey,
    order: &UserOrder,
    execute_price: u128,
    use_base: bool,
    margin_token_price: u128,
    tokens: &Vec<TokenPrice>,
    markets: &Vec<PoolMarketInput>,
    base_token_price: u128,
    stable_token_price: u128,
    now: i64,
) -> (r: BumpResult)
    ensures
        increase_order_spec(
            *old(user),
            *old(market),
            *old(base_token_pool),
            *old(stable_pool),
            *old(trade_token),
            *old(stable_trade_token),
            *state,
            program_id@,
            *order,
            execute_price as int,
            use_base,
            margin_token_price as int,
            tokens@,
            markets@,
            base_token_price as int,
            stable_token_price as int,
            now,
        ) matches Err(e) ==> r == Err::<(), BumpErrorCode>(e) && *final(user) == *old(user) && *final(market) == *old(market) && *final(base_token_pool) == *old(base_token_pool) && *final(stable_pool)
            == *old(stable_pool) && *final(trade_token) == *old(trade_token) && *final(stable_trade_token) == *old(stable_trade_token),
        increase_order_spec(
            *old(user),
            *old(market),
            *old(base_token_pool),
            *old(stable_pool),
            *old(trade_token),
            *old(stable_trade_token),
            *state,
            program_id@,
            *order,
            execute_price as int,
            use_base,
            margin_token_price as int,
            tokens@,
            markets@,
            base_token_price as int,
            stable_token_price as int,
            now,
        ) matches Ok((u, m, b, s, tt, stt)) ==> r == Ok::<(), BumpErrorCode>(()) && *final(user) == u
            && *final(market) == m && *final(base_token_pool) == b && *final(stable_pool) == s
            && *final(trade_token) == tt && *final(stable_trade_token) == stt,
{
    let mut u = *user;
    let mut m = *market;
    let mut base = *base_token_pool;
    let mut stable = *stable_pool;
    let mut tt = *trade_token;
    let mut stt = *stable_trade_token;
    let margin_token = if use_base {
        m.pool_mint_key
    } else {
        m.stable_pool_mint_key
    };
    let decimals = if use_base {
        tt.decimals
    } else {
        stt.decimals
    };
    let (order_margin, order_margin_from_balance) = execute_increase_order_margin(
        order,
        &margin_token,
        decimals,
        &mut u,
        margin_token_price,
        tokens,
        state,
    )?;
    let is_long = order.order_side == OrderSide::LONG;
    let leveraged = mul_rate_u(order_margin, order.leverage as u128)?;
    let fee = if is_long {
        collect_open_position_fee(&m, &mut base, leveraged, order.is_portfolio_margin)?
    } else {
        collect_open_position_fee(&m, &mut stable, leveraged, order.is_portfolio_margin)?
    };
    debit_open_fee(&mut u, &mut tt, &mut stt, order, fee, is_long)?;
    increase_position(
        &mut u,
        &mut m,
        &mut base,
        &mut stable,
        &tt,
        &stt,
        program_id,
        order,
        order_margin,
        order_margin_from_balance,
        execute_price,
        margin_token_price,
        fee,
        markets,
        if is_long {
            base_token_price
        } else {
            stable_token_price
        },
        state,
        now,
    )?;
    *user = u;
    *market = m;
    *base_token_pool = base;
    *stable_pool = stable;
    *trade_token = tt;
    *stable_trade_token = stt;
    Ok(())
}

/// The request that a decreasing order makes of the position `p`: not a
/// liquidation, closing the order's size (at most the position's size) at
/// the execution price.
pub open spec fn decrease_order_params(order: UserOrder, p: UserPosition, execute_price: int) -> DecreasePositionParams {
    DecreasePositionParams {
        order_id: order.order_id,
        is_liquidation: false,
        is_portfolio_margin: false,
        margin_token: order.margin_mint_key,
        decrease_size: if p.position_size < order.order_size {
            p.position_size
        } else {
            order.order_size
        },
        execute_price: execute_price as u128,
    }
}

/// Outcome of executing a decreasing order once its prelude has run: the
/// position keyed `key` must have size and lie on the other side of the
/// order; it closes by the order's size (see `decrease_position_spec`)
/// with the margin token chosen by the prelude. Returns `(token slots,
/// position slots, market, base token pool, stable pool, trade token,
/// stable trade token, vault movement, position before the close)`.
#[verifier::opaque]
pub open spec fn decrease_order_spec(
    u: User,
    market: Market,
    base: Pool,
    stable: Pool,
    tt: TradeToken,
    stt: TradeToken,
    state: State,
    order: UserOrder,
    execute_price: int,
    use_base: bool,
    margin_price: int,
    key: Seq<u8>,
    now: i64,
    has_user_token_account: bool,
) -> Result<
    (
        Seq<UserToken>,
        Seq<UserPosition>,
        Seq<UserOrder>,
        Market,
        Pool,
        Pool,
        TradeToken,
        TradeToken,
        TokenTransfer,
        UserPosition,
    ),
    BumpErrorCode,
> {
    let is_long = order.order_side == OrderSide::LONG;
    if !has_position(u, key) {
        Err(BumpErrorCode::CouldNotFindUserPosition)
    } else {
        let p = u.user_positions@[position_slot(u, key)];
        if p.position_size == 0 {
            Err(BumpErrorCode::CouldNotFindUserPosition)
        } else if p.is_long == is_long {
            Err(BumpErrorCode::InvalidParam)
        } else {
            match decrease_position_spec(
                u,
                market,
                base,
                stable,
                state,
                if use_base {
                    tt
                } else {
                    stt
                },
                decrease_order_params(order, p, execute_price),
                margin_price,
                key,
                now,
                has_user_token_account,
            ) {
                Err(e) => Err(e),
                Ok((toks, ps, os, m, b, s, t2, transfer, pre)) => Ok(
                    (
                        toks,
                        ps,
                        os,
                        m,
                        b,
                        s,
                        if use_base {
                            t2
                        } else {
                            tt
                        },
                        if use_base {
                            stt
                        } else {
                            t2
                        },
                        transfer,
                        pre,
                    ),
                ),
            }
        }
    }
}

/// Address of the order's position in `market` (see `generate_position_key`).
pub open spec fn order_position_address(u: User, market: Market, order: UserOrder, program_id: Seq<u8>) -> Option<
    (Seq<u8>, u8),
> {
    program_address(
        seq![u.user_key@, market.symbol@, seq![if order.is_portfolio_margin { 1u8 } else { 0u8 }]],
        program_id,
    )
}

/// Executing the order does not stop on an unwrapped conversion of a close
/// fee (see `close_defined`).
pub open spec fn execute_order_defined(
    u: User,
    market: Market,
    base: Pool,
    stable: Pool,
    tt: TradeToken,
    stt: TradeToken,
    state: State,
    program_id: Seq<u8>,
    order: UserOrder,
    index_price: int,
    base_token_price: int,
    stable_token_price: int,
    now: i64,
) -> bool {
    match execute_prelude_spec(
        order,
        market,
        base,
        stable,
        state,
        index_price,
        base_token_price,
        stable_token_price,
        now,
    ) {
        Ok((exec, use_base, price, m1, b1, s1)) => match order_position_address(
            u,
            m1,
            order,
            program_id,
        ) {
            Some((key, _)) => (order.position_side == PositionSide::DECREASE && has_position(u, key))
                ==> close_defined(
                u,
                m1,
                b1,
                s1,
                if use_base {
                    tt.decimals as int
                } else {
                    stt.decimals as int
                },
                decrease_order_params(order, u.user_positions@[position_slot(u, key)], exec),
                price,
                key,
            ),
            None => true,
        },
        Err(_) => true,
    }
}

/// `v` is `u` with the pending order `order_id` removed.
pub open spec fn order_removed(u: User, v: User, order_id: u64) -> bool {
    let k = order_slot(u, order_id);
    &&& is_empty_order(v.user_orders@[k])
    &&& v.user_orders@ == u.user_orders@.update(k, v.user_orders@[k])
    &&& same_but_orders(u, v)
    &&& v.hold == u.hold
}

/// Executes a decreasing order once its prelude has run (see
/// `decrease_order_spec`); the order is not removed. On failure nothing
/// changes.
fn execute_decrease_order(
    user: &mut User,
    market: &mut Market,
    base_token_pool: &mut Pool,
    stable_pool: &mut Pool,
    trade_token: &mut TradeToken,
    stable_trade_token: &mut TradeToken,
    state: &State,
    order: &UserOrder,
    execute_price: u128,
    use_base: bool,
    margin_token_price: u128,
    position_key: &Pubkey,
    now: i64,
    has_user_token_account: bool,
) -> (r: BumpResult<(TokenTransfer, UserPosition)>)
    requires
        has_position(*old(user), position_key@) ==> close_defined(
            *old(user),
            *old(market),
            *old(base_token_pool),
            *old(stable_pool),
            if use_base {
                old(trade_token).decimals as int
            } else {
                old(stable_trade_token).decimals as int
            },
            decrease_order_params(
                *order,
                old(user).user_positions@[position_slot(*old(user), position_key@)],
                execute_price as int,
            ),
            margin_token_price as int,
            position_key@,
        ),
    ensures
        decrease_order_spec(
            *old(user),
            *old(market),
            *old(base_token_pool),
            *old(stable_pool),
            *old(trade_token),
            *old(stable_trade_token),
            *state,
            *order,
            execute_price as int,
            use_base,
            margin_token_price as int,
            position_key@,
            now,
            has_user_token_account,
        ) matches Err(e) ==> r == Err::<(TokenTransfer, UserPosition), BumpErrorCode>(e) && *final(user) == *old(user) && *final(market) == *old(market) && *final(base_token_pool) == *old(base_token_pool) && *final(stable_pool) == *old(stable_pool) && *final(trade_token) == *old(trade_token)
            && *final(stable_trade_token) == *old(stable_trade_token),
        decrease_order_spec(
            *old(user),
            *old(market),
            *old(base_token_pool),
            *old(stable_pool),
            *old(trade_token),
            *old(stable_trade_token),
            *state,
            *order,
            execute_price as int,
            use_base,
            margin_token_price as int,
            position_key@,
            now,
            has_user_token_account,
        ) matches Ok((toks, ps, os, m, b, s, tt, stt, transfer, pre)) ==> r == Ok::<
            (TokenTransfer, UserPosition),
            BumpErrorCode,
        >((transfer, pre)) && final(user).user_tokens@ == toks && final(user).user_positions@ == ps
            && final(user).user_orders@ == os && final(user).hold == old(user).hold
            && final(user).user_stakes == old(user).user_stakes && final(user).user_key == old(
            user,
        ).user_key && final(user).authority == old(user).authority && final(user).next_order_id
            == old(user).next_order_id && final(user).next_liquidation_id == old(
            user,
        ).next_liquidation_id && *final(market) == m && *final(base_token_pool) == b
            && *final(stable_pool) == s && *final(trade_token) == tt && *final(stable_trade_token)
            == stt,
{
    reveal(decrease_order_spec);
    let is_long = order.order_side == OrderSide::LONG;
    let p = *user.get_user_position_ref(position_key)?;
    proof {
        let i = choose|i: int| is_first_position(*user, position_key@, i) && p == user.user_positions@[i];
        lemma_position_slot(*user, position_key@, i);
    }
    if p.position_size == 0u128 {
        return Err(BumpErrorCode::CouldNotFindUserPosition);
    }
    if p.is_long == is_long {
        return Err(BumpErrorCode::InvalidParam);
    }
    let params = DecreasePositionParams {
        order_id: order.order_id,
        is_liquidation: false,
        is_portfolio_margin: false,
        margin_token: order.margin_mint_key,
        decrease_size: if p.position_size < order.order_size {
            p.position_size
        } else {
            order.order_size
        },
        execute_price,
    };
    let transfer = if use_base {
        decrease_position(
            params,
            user,
            market,
            base_token_pool,
            stable_pool,
            state,
            trade_token,
            margin_token_price,
            position_key,
            now,
            has_user_token_account,
        )?
    } else {
        decrease_position(
            params,
            user,
            market,
            base_token_pool,
            stable_pool,
            state,
            stable_trade_token,
            margin_token_price,
            position_key,
            now,
            has_user_token_account,
        )?
    };
    Ok((transfer, p))
}


/// `r` and the final states are the outcome of executing the decreasing
/// order and removing it (see `decrease_order_spec`).
pub open spec fn decrease_order_outcome(
    u: User,
    market: Market,
    base: Pool,
    stable: Pool,
    tt: TradeToken,
    stt: TradeToken,
    state: State,
    order: UserOrder,
    execute_price: int,
    use_base: bool,
    margin_price: int,
    key: Seq<u8>,
    now: i64,
    has_user_token_account: bool,
    r: BumpResult<TokenTransfer>,
    uf: User,
    market_f: Market,
    base_f: Pool,
    stable_f: Pool,
    tt_f: TradeToken,
    stt_f: TradeToken,
) -> bool {
        {
            match decrease_order_spec(
                u,
                market,
                base,
                stable,
                tt,
                stt,
                state,
                order,
                execute_price,
                use_base,
                margin_price,
                key,
                now,
                has_user_token_account,
            ) {
                Err(e) => r == Err::<TokenTransfer, BumpErrorCode>(e),
                Ok((toks, ps, os, m2, b2, s2, tt2, stt2, transfer, pre)) => match remove_pending(
                    os,
                    order.order_id,
                ) {
                    None => r == Err::<TokenTransfer, BumpErrorCode>(
                        BumpErrorCode::CouldNotFindUserOrder,
                    ),
                    Some(os2) => {
                        &&& r == Ok::<TokenTransfer, BumpErrorCode>(transfer)
                        &&& uf.user_tokens@ == toks
                        &&& uf.user_positions@ == ps
                        &&& uf.user_orders@ == os2
                        &&& uf.hold == u.hold
                        &&& uf.user_stakes == u.user_stakes
                        &&& uf.user_key == u.user_key
                        &&& uf.authority == u.authority
                        &&& uf.next_order_id == u.next_order_id
                        &&& uf.next_liquidation_id == u.next_liquidation_id
                        &&& market_f == m2
                        &&& base_f == b2
                        &&& stable_f == s2
                        &&& tt_f == tt2
                        &&& stt_f == stt2
                    },
                },
            }
        }
}


/// Executes a decreasing order once its prelude has run and removes it
/// (see `decrease_order_spec`); on failure nothing changes.
#[verifier::rlimit(100)]
#[verifier::spinoff_prover]
fn execute_decrease_order_and_remove(
    user: &mut User,
    market: &mut Market,
    base_token_pool: &mut Pool,
    stable_pool: &mut Pool,
    trade_token: &mut TradeToken,
    stable_trade_token: &mut TradeToken,
    state: &State,
    order: &UserOrder,
    execute_price: u128,
    use_base: bool,
    margin_token_price: u128,
    position_key: &Pubkey,
    now: i64,
    has_user_token_account: bool,
) -> (r: BumpResult<TokenTransfer>)
    requires
        has_position(*old(user), position_key@) ==> close_defined(
            *old(user),
            *old(market),
            *old(base_token_pool),
            *old(stable_pool),
            if use_base {
                old(trade_token).decimals as int
            } else {
                old(stable_trade_token).decimals as int
            },
            decrease_order_params(
                *order,
                old(user).user_positions@[position_slot(*old(user), position_key@)],
                execute_price as int,
            ),
            margin_token_price as int,
            position_key@,
        ),
    ensures
        decrease_order_outcome(
            *old(user),
            *old(market),
            *old(base_token_pool),
            *old(stable_pool),
            *old(trade_token),
            *old(stable_trade_token),
            *state,
            *order,
            execute_price as int,
            use_base,
            margin_token_price as int,
            position_key@,
            now,
            has_user_token_account,
            r,
            *final(user),
            *final(market),
            *final(base_token_pool),
            *final(stable_pool),
            *final(trade_token),
            *final(stable_trade_token),
        ),
        r is Err ==> *final(user) == *old(user) && *final(market) == *old(market) && *final(base_token_pool) == *old(base_token_pool) && *final(stable_pool) == *old(stable_pool) && *final(trade_token)
            == *old(trade_token) && *final(stable_trade_token) == *old(stable_trade_token),
{
    let mut u = *user;
    let mut m = *market;
    let mut base = *base_token_pool;
    let mut stable = *stable_pool;
    let mut tt = *trade_token;
    let mut stt = *stable_trade_token;
    let (transfer, _pre) = execute_decrease_order(
        &mut u,
        &mut m,
        &mut base,
        &mut stable,
        &mut tt,
        &mut stt,
        state,
        order,
        execute_price,
        use_base,
        margin_token_price,
        position_key,
        now,
        has_user_token_account,
    )?;
    u.delete_order(order.order_id)?;
    *user = u;
    *market = m;
    *base_token_pool = base;
    *stable_pool = stable;
    *trade_token = tt;
    *stable_trade_token = stt;
    Ok(transfer)
}


/// Executes an increasing order once its prelude has run and removes it
/// (see `increase_order_spec`); on failure nothing changes.
#[verifier::rlimit(60)]
fn execute_increase_order_and_remove(
    user: &mut User,
    market: &mut Market,
    base_token_pool: &mut Pool,
    stable_pool: &mut Pool,
    trade_token: &mut TradeToken,
    stable_trade_token: &mut TradeToken,
    state: &State,
    program_id: &Pubkey,
    order: &UserOrder,
    execute_price: u128,
    use_base: bool,
    margin_token_price: u128,
    tokens: &Vec<TokenPrice>,
    markets: &Vec<PoolMarketInput>,
    base_token_price: u128,
    stable_token_price: u128,
    now: i64,
) -> (r: BumpResult)
    ensures
        ({
            let unchanged = *final(user) == *old(user) && *final(market) == *old(market) && *final(base_token_pool) == *old(base_token_pool) && *final(stable_pool) == *old(stable_pool) && *final(trade_token) == *old(trade_token) && *final(stable_trade_token) == *old(stable_trade_token);
            match increase_order_spec(
                *old(user),
                *old(market),
                *old(base_token_pool),
                *old(stable_pool),
                *old(trade_token),
                *old(stable_trade_token),
                *state,
                program_id@,
                *order,
                execute_price as int,
                use_base,
                margin_token_price as int,
                tokens@,
                markets@,
                base_token_price as int,
                stable_token_price as int,
                now,
            ) {
                Err(e) => r == Err::<(), BumpErrorCode>(e) && unchanged,
                Ok((u2, m2, b2, s2, tt2, stt2)) => if !has_order(u2, order.order_id) {
                    r == Err::<(), BumpErrorCode>(BumpErrorCode::CouldNotFindUserOrder) && unchanged
                } else {
                    r == Ok::<(), BumpErrorCode>(()) && order_removed(u2, *final(user), order.order_id)
                        && *final(market) == m2 && *final(base_token_pool) == b2 && *final(stable_pool)
                        == s2 && *final(trade_token) == tt2 && *final(stable_trade_token) == stt2
                },
            }
        }),
{
    let mut u = *user;
    let mut m = *market;
    let mut base = *base_token_pool;
    let mut stable = *stable_pool;
    let mut tt = *trade_token;
    let mut stt = *stable_trade_token;
    execute_increase_order(
        &mut u,
        &mut m,
        &mut base,
        &mut stable,
        &mut tt,
        &mut stt,
        state,
        program_id,
        order,
        execute_price,
        use_base,
        margin_token_price,
        tokens,
        markets,
        base_token_price,
        stable_token_price,
        now,
    )?;
    u.delete_order(order.order_id)?;
    *user = u;
    *market = m;
    *base_token_pool = base;
    *stable_pool = stable;
    *trade_token = tt;
    *stable_trade_token = stt;
    Ok(())
}

/// Executes a user's pending order against its market (see
/// `execute_prelude_spec`): an increasing order opens or grows the
/// position (see `increase_order_spec`), a decreasing one closes it by the
/// order's size and cancels the position's other stop orders (see
/// `decrease_order_spec`); then the order is removed. `trade_token` and
/// `stable_trade_token` are the market's base and stable tokens,
/// `index_price`, `base_token_price` and `stable_token_price` their
/// oracle prices, `tokens` the prices of every token the account holds and
/// `markets` all markets with the prices of their tokens. Returns the vault
/// movement to perform; on failure nothing changes.
#[verifier::rlimit(100)]
#[verifier::spinoff_prover]
pub fn handle_execute_order(
    user: &mut User,
    market: &mut Market,
    base_token_pool: &mut Pool,
    stable_pool: &mut Pool,
    trade_token: &mut TradeToken,
    stable_trade_token: &mut TradeToken,
    state: &State,
    program_id: &Pubkey,
    user_order: &UserOrder,
    index_price: u128,
    base_token_price: u128,
    stable_token_price: u128,
    tokens: &Vec<TokenPrice>,
    markets: &Vec<PoolMarketInput>,
    now: i64,
    has_user_token_account: bool,
) -> (r: BumpResult<TokenTransfer>)
    requires
        execute_order_defined(
            *old(user),
            *old(market),
            *old(base_token_pool),
            *old(stable_pool),
            *old(trade_token),
            *old(stable_trade_token),
            *state,
            program_id@,
            *user_order,
            index_price as int,
            base_token_price as int,
            stable_token_price as int,
            now,
        ),
    ensures
        ({
            let unchanged = *final(user) == *old(user) && *final(market) == *old(market) && *final(base_token_pool) == *old(base_token_pool) && *final(stable_pool) == *old(stable_pool) && *final(trade_token) == *old(trade_token) && *final(stable_trade_token) == *old(stable_trade_token);
            match execute_prelude_spec(
                *user_order,
                *old(market),
                *old(base_token_pool),
                *old(stable_pool),
                *state,
                index_price as int,
                base_token_price as int,
                stable_token_price as int,
                now,
            ) {
                Err(e) => r == Err::<TokenTransfer, BumpErrorCode>(e) && unchanged,
                Ok((exec, use_base, price, m1, b1, s1)) => match order_position_address(
                    *old(user),
                    m1,
                    *user_order,
                    program_id@,
                ) {
                    None => r == Err::<TokenTransfer, BumpErrorCode>(
                        BumpErrorCode::ProgramAddressNotFound,
                    ) && unchanged,
                    Some((key, _)) => if user_order.position_side == PositionSide::INCREASE {
                        match increase_order_spec(
                            *old(user),
                            m1,
                            b1,
                            s1,
                            *old(trade_token),
                            *old(stable_trade_token),
                            *state,
                            program_id@,
                            *user_order,
                            exec,
                            use_base,
                            price,
                            tokens@,
                            markets@,
                            base_token_price as int,
                            stable_token_price as int,
                            now,
                        ) {
                            Err(e) => r == Err::<TokenTransfer, BumpErrorCode>(e) && unchanged,
                            Ok((u2, m2, b2, s2, tt2, stt2)) => if !has_order(u2, user_order.order_id) {
                                r == Err::<TokenTransfer, BumpErrorCode>(
                                    BumpErrorCode::CouldNotFindUserOrder,
                                ) && unchanged
                            } else {
                                r == Ok::<TokenTransfer, BumpErrorCode>(TokenTransfer::NoTransfer)
                                    && order_removed(u2, *final(user), user_order.order_id) && *final(market) == m2 && *final(base_token_pool) == b2 && *final(stable_pool) == s2
                                    && *final(trade_token) == tt2 && *final(stable_trade_token) == stt2
                            },
                        }
                    } else {
                        decrease_order_outcome(
                            *old(user),
                            m1,
                            b1,
                            s1,
                            *old(trade_token),
                            *old(stable_trade_token),
                            *state,
                            *user_order,
                            exec,
                            use_base,
                            price,
                            key,
                            now,
                            has_user_token_account,
                            r,
                            *final(user),
                            *final(market),
                            *final(base_token_pool),
                            *final(stable_pool),
                            *final(trade_token),
                            *final(stable_trade_token),
                        ) && (r is Err ==> unchanged)
                    },
                },
            }
        }),
{
    let mut u = *user;
    let mut m = *market;
    let mut base = *base_token_pool;
    let mut stable = *stable_pool;
    let mut tt = *trade_token;
    let mut stt = *stable_trade_token;
    let (execute_price, use_base, margin_token_price) = execute_prelude(
        user_order,
        &mut m,
        &mut base,
        &mut stable,
        state,
        index_price,
        base_token_price,
        stable_token_price,
        now,
    )?;
    let position_key = generate_position_key(
        &u.user_key,
        m.symbol,
        user_order.is_portfolio_margin,
        program_id,
    )?;
    let transfer = match user_order.position_side {
        PositionSide::NONE => {
            return Err(BumpErrorCode::PositionSideNotSupport);
        },
        PositionSide::INCREASE => {
            execute_increase_order_and_remove(
                &mut u,
                &mut m,
                &mut base,
                &mut stable,
                &mut tt,
                &mut stt,
                state,
                program_id,
                user_order,
                execute_price,
                use_base,
                margin_token_price,
                tokens,
                markets,
                base_token_price,
                stable_token_price,
                now,
            )?;
            TokenTransfer::NoTransfer
        },
        PositionSide::DECREASE => {
            let transfer = execute_decrease_order_and_remove(
                &mut u,
                &mut m,
                &mut base,
                &mut stable,
                &mut tt,
                &mut stt,
                state,
                user_order,
                execute_price,
                use_base,
                margin_token_price,
                &position_key,
                now,
                has_user_token_account,
            )?;
            *user = u;
            *market = m;
            *base_token_pool = base;
            *stable_pool = stable;
            *trade_token = tt;
            *stable_trade_token = stt;
            return Ok(transfer);
        },
    };
    *user = u;
    *market = m;
    *base_token_pool = base;
    *stable_pool = stable;
    *trade_token = tt;
    *stable_trade_token = stt;
    Ok(transfer)
}

// ---------------------------------------------------------------------------
// Changing the leverage of a position
// ---------------------------------------------------------------------------

/// `a` if it is at most `b`, `b` otherwise.
pub open spec fn min_spec(a: int, b: int) -> int {
    if a <= b {
        a
    } else {
        b
    }
}

/// Outcome of `update_cross_leverage` on a cross-margin position keyed
/// `key`: `(position slots, token slots, market, base token pool, stable
/// pool)`. A position without size is left alone. Lowering the leverage
/// adds the missing USD margin, size / leverage less the margin, as tokens
/// at the margin token's entry price: the addition must stay below the
/// account's available value (see `available_value_spec`), is used from the
/// balance of the side's token, and counts as portfolio margin as far as
/// the free balance covers it (see `add_margin_spec`). Otherwise the margin
/// beyond size / leverage is taken (see `reduce_margin_spec`) and released
/// from use in the position's margin token.
/// The lowering branch of `cross_leverage_spec` (position `key` in use,
/// with size).
pub open spec fn cross_leverage_add_spec(
    u: User,
    market: Market,
    base: Pool,
    stable: Pool,
    base_tt: TradeToken,
    stable_tt: TradeToken,
    state: State,
    key: Seq<u8>,
    leverage: u32,
    tokens: Seq<TokenPrice>,
    markets: Seq<PoolMarketInput>,
    pool_token_price: int,
) -> Result<([UserPosition; 8], [UserToken; 12], Market, Pool, Pool), BumpErrorCode> {
    let pi = position_slot(u, key);
    let p = u.user_positions@[pi];
    let p1 = UserPosition { leverage, ..p };
    let side = if p.is_long {
        base
    } else {
        stable
    };
    let decimals = if p.is_long {
        base_tt.decimals as int
    } else {
        stable_tt.decimals as int
    };
        let mint = if p.is_long {
            base_tt.mint_key@
        } else {
            stable_tt.mint_key@
        };
        if !has_token(u, mint) {
            Err(BumpErrorCode::CouldNotFindUserToken)
        } else {
            let ti = token_slot(u, mint);
            let t = u.user_tokens@[ti];
            let available_amount = if t.amount > t.used_amount {
                t.amount - t.used_amount
            } else {
                0
            };
            match mul_div_spec(p.position_size as int, RATE_PRECISION as int, leverage as int) {
                None => Err(BumpErrorCode::MathError),
                Some(new_margin_usd) => {
                    let add_usd = if new_margin_usd > p.initial_margin_usd {
                        new_margin_usd - p.initial_margin_usd
                    } else {
                        0
                    };
                    let u1 = User { user_positions: spec_array_update(u.user_positions, pi, p1), ..u };
                    match available_value_spec(u1, tokens) {
                        Err(e) => Err(e),
                        Ok(available) => if !fits_i(add_usd) {
                            Err(BumpErrorCode::MathError)
                        } else if add_usd >= available {
                            Err(BumpErrorCode::UserAvailableValueNotEnough)
                        } else {
                            match usd_to_token_spec(add_usd, decimals, p.margin_token_entry_price as int) {
                                None => Err(BumpErrorCode::MathError),
                                Some(add_amount) => match token_to_usd_spec(
                                    min_spec(add_amount, available_amount),
                                    decimals,
                                    p.margin_token_entry_price as int,
                                ) {
                                    None => Err(BumpErrorCode::MathError),
                                    Some(from_portfolio) => {
                                        let (er, t2) = use_token_spec(t, add_amount, false);
                                        match er {
                                            Err(e) => Err(e),
                                            Ok(_) => match add_margin_spec(
                                                UpdatePositionMarginParams {
                                                    position_key: p.position_key,
                                                    is_add: true,
                                                    update_margin_amount: add_amount as u128,
                                                    add_initial_margin_from_portfolio: from_portfolio as u128,
                                                },
                                                decimals,
                                                side,
                                                market,
                                                p1,
                                            ) {
                                                Err(e) => Err(e),
                                                Ok((p2, side2, m2)) => Ok(
                                                    (
                                                        spec_array_update(u.user_positions, pi, p2),
                                                        spec_array_update(u.user_tokens, ti, t2),
                                                        m2,
                                                        if p.is_long {
                                                            side2
                                                        } else {
                                                            base
                                                        },
                                                        if p.is_long {
                                                            stable
                                                        } else {
                                                            side2
                                                        },
                                                    ),
                                                ),
                                            },
                                        }
                                    },
                                },
                            }
                        },
                    }
                },
            }
        }
}

/// The other branch of `cross_leverage_spec` (position `key` in use, with
/// size).
pub open spec fn cross_leverage_reduce_spec(
    u: User,
    market: Market,
    base: Pool,
    stable: Pool,
    base_tt: TradeToken,
    stable_tt: TradeToken,
    state: State,
    key: Seq<u8>,
    leverage: u32,
    tokens: Seq<TokenPrice>,
    markets: Seq<PoolMarketInput>,
    pool_token_price: int,
) -> Result<([UserPosition; 8], [UserToken; 12], Market, Pool, Pool), BumpErrorCode> {
    let pi = position_slot(u, key);
    let p = u.user_positions@[pi];
    let p1 = UserPosition { leverage, ..p };
    let side = if p.is_long {
        base
    } else {
        stable
    };
    let decimals = if p.is_long {
        base_tt.decimals as int
    } else {
        stable_tt.decimals as int
    };
        match mul_div_spec(p.position_size as int, RATE_PRECISION as int, leverage as int) {
            None => Err(BumpErrorCode::MathError),
            Some(needed) => match ck_u(p.initial_margin_usd - needed) {
                None => Err(BumpErrorCode::MathError),
                Some(reduce) => match reduce_margin_spec(
                    reduce,
                    false,
                    decimals,
                    side,
                    markets,
                    pool_token_price,
                    market,
                    state,
                    p1,
                ) {
                    Err(e) => Err(e),
                    Ok((p2, side2, taken)) => {
                        let mint = p.margin_mint_key@;
                        if !has_token(u, mint) {
                            Err(BumpErrorCode::CouldNotFindUserToken)
                        } else {
                            let ti = token_slot(u, mint);
                            let t = u.user_tokens@[ti];
                            if t.used_amount <= taken {
                                Err(BumpErrorCode::AmountNotEnough)
                            } else {
                                Ok(
                                    (
                                        spec_array_update(u.user_positions, pi, p2),
                                        spec_array_update(
                                            u.user_tokens,
                                            ti,
                                            UserToken { used_amount: (t.used_amount - taken) as u128, ..t },
                                        ),
                                        market,
                                        if p.is_long {
                                            side2
                                        } else {
                                            base
                                        },
                                        if p.is_long {
                                            stable
                                        } else {
                                            side2
                                        },
                                    ),
                                )
                            }
                        }
                    },
                },
            },
        }
}

pub open spec fn cross_leverage_spec(
    u: User,
    market: Market,
    base: Pool,
    stable: Pool,
    base_tt: TradeToken,
    stable_tt: TradeToken,
    state: State,
    key: Seq<u8>,
    leverage: u32,
    tokens: Seq<TokenPrice>,
    markets: Seq<PoolMarketInput>,
    pool_token_price: int,
) -> Result<([UserPosition; 8], [UserToken; 12], Market, Pool, Pool), BumpErrorCode> {
    if !has_position(u, key) {
        Err(BumpErrorCode::CouldNotFindUserPosition)
    } else {
        let p = u.user_positions@[position_slot(u, key)];
        if p.position_size == 0 {
            Ok((u.user_positions, u.user_tokens, market, base, stable))
        } else if p.leverage > leverage {
            cross_leverage_add_spec(
                u,
                market,
                base,
                stable,
                base_tt,
                stable_tt,
                state,
                key,
                leverage,
                tokens,
                markets,
                pool_token_price,
            )
        } else {
            cross_leverage_reduce_spec(
                u,
                market,
                base,
                stable,
                base_tt,
                stable_tt,
                state,
                key,
                leverage,
                tokens,
                markets,
                pool_token_price,
            )
        }
    }
}

/// Changes the leverage of a cross-margin position (see
/// `cross_leverage_spec`); `base_trade_token` and `stable_trade_token` are
/// the market's tokens, `tokens` the prices of the account's tokens,
/// `markets` all markets and `pool_token_price` the price of the token of
/// the position's pool. On failure nothing changes.
#[verifier::rlimit(100)]
#[verifier::spinoff_prover]
pub fn update_cross_leverage(
    params: UpdatePositionLeverageParams,
    position_key: &Pubkey,
    user: &mut User,
    base_token_pool: &mut Pool,
    stable_pool: &mut Pool,
    state: &State,
    market: &mut Market,
    base_trade_token: &TradeToken,
    stable_trade_token: &TradeToken,
    tokens: &Vec<TokenPrice>,
    markets: &Vec<PoolMarketInput>,
    pool_token_price: u128,
) -> (r: BumpResult)
    ensures
        cross_leverage_spec(
            *old(user),
            *old(market),
            *old(base_token_pool),
            *old(stable_pool),
            *base_trade_token,
            *stable_trade_token,
            *state,
            position_key@,
            params.leverage,
            tokens@,
            markets@,
            pool_token_price as int,
        ) matches Err(e) ==> r == Err::<(), BumpErrorCode>(e) && *final(user) == *old(user) && *final(market) == *old(market) && *final(base_token_pool) == *old(base_token_pool) && *final(stable_pool)
            == *old(stable_pool),
        cross_leverage_spec(
            *old(user),
            *old(market),
            *old(base_token_pool),
            *old(stable_pool),
            *base_trade_token,
            *stable_trade_token,
            *state,
            position_key@,
            params.leverage,
            tokens@,
            markets@,
            pool_token_price as int,
        ) matches Ok((ps, ts, m, b, s)) ==> r == Ok::<(), BumpErrorCode>(()) && *final(user) == (User {
            user_positions: ps,
            user_tokens: ts,
            ..*old(user)
        }) && *final(market) == m && *final(base_token_pool) == b && *final(stable_pool) == s,
{
    let idx = user.get_user_position_index(position_key)?;
    proof {
        lemma_position_slot(*user, position_key@, idx as int);
    }
    let position = user.user_positions[idx];
    if position.position_size == 0u128 {
        return Ok(());
    }
    if position.leverage > params.leverage {
        lower_cross_leverage(
            params,
            position_key,
            user,
            base_token_pool,
            stable_pool,
            state,
            market,
            base_trade_token,
            stable_trade_token,
            tokens,
            markets,
            pool_token_price,
        )
    } else {
        raise_cross_leverage(
            params,
            position_key,
            user,
            base_token_pool,
            stable_pool,
            state,
            market,
            base_trade_token,
            stable_trade_token,
            tokens,
            markets,
            pool_token_price,
        )
    }
}

/// Lowers the leverage of a cross-margin position (see
/// `cross_leverage_add_spec`); on failure nothing changes.
#[verifier::rlimit(100)]
#[verifier::spinoff_prover]
fn lower_cross_leverage(
    params: UpdatePositionLeverageParams,
    position_key: &Pubkey,
    user: &mut User,
    base_token_pool: &mut Pool,
    stable_pool: &mut Pool,
    state: &State,
    market: &mut Market,
    base_trade_token: &TradeToken,
    stable_trade_token: &TradeToken,
    tokens: &Vec<TokenPrice>,
    markets: &Vec<PoolMarketInput>,
    pool_token_price: u128,
) -> (r: BumpResult)
    requires
        has_position(*old(user), position_key@),
        old(user).user_positions@[position_slot(*old(user), position_key@)].position_size != 0,
    ensures
        cross_leverage_add_spec(
            *old(user),
            *old(market),
            *old(base_token_pool),
            *old(stable_pool),
            *base_trade_token,
            *stable_trade_token,
            *state,
            position_key@,
            params.leverage,
            tokens@,
            markets@,
            pool_token_price as int,
        ) matches Err(e) ==> r == Err::<(), BumpErrorCode>(e) && *final(user) == *old(user) && *final(market) == *old(market) && *final(base_token_pool) == *old(base_token_pool) && *final(stable_pool)
            == *old(stable_pool),
        cross_leverage_add_spec(
            *old(user),
            *old(market),
            *old(base_token_pool),
            *old(stable_pool),
            *base_trade_token,
            *stable_trade_token,
            *state,
            position_key@,
            params.leverage,
            tokens@,
            markets@,
            pool_token_price as int,
        ) matches Ok((ps, ts, m, b, s)) ==> r == Ok::<(), BumpErrorCode>(()) && *final(user) == (User {
            user_positions: ps,
            user_tokens: ts,
            ..*old(user)
        }) && *final(market) == m && *final(base_token_pool) == b && *final(stable_pool) == s,
{
    let mut u = *user;
    let mut m = *market;
    let mut base = *base_token_pool;
    let mut stable = *stable_pool;
    let ghost u0 = u;
    let idx = u.get_user_position_index(position_key)?;
    proof {
        lemma_position_slot(u0, position_key@, idx as int);
    }
    let position = u.user_positions[idx];
    let decimals = if position.is_long {
        base_trade_token.decimals
    } else {
        stable_trade_token.decimals
    };
    let mut p = position;
    p.set_leverage(params.leverage)?;
    u.user_positions[idx] = p;
    let mint = if position.is_long {
        base_trade_token.mint_key
    } else {
        stable_trade_token.mint_key
    };
    let ti = u.get_user_token_index(&mint)?;
    proof {
        lemma_token_slot(u0, mint@, ti as int);
    }
    let available_amount = u.user_tokens[ti].get_token_available_amount()?;
    let new_initial_margin_in_usd = div_rate_u(p.position_size, p.leverage as u128)?;
    let add_margin_in_usd = if new_initial_margin_in_usd > position.initial_margin_usd {
        safe_sub_u(new_initial_margin_in_usd, position.initial_margin_usd)?
    } else {
        0u128
    };
    proof {
        let a1 = spec_array_update(u0.user_positions, idx as int, p);
        assert(a1@ == u0.user_positions@.update(idx as int, p));
        assert(u.user_positions@ =~= a1@);
        assert(u.user_positions =~= a1);
    }
    let cross_available_value = u.get_available_value(tokens)?;
    let add_usd_i = cast_to_i(add_margin_in_usd)?;
    if !(add_usd_i < cross_available_value) {
        return Err(BumpErrorCode::UserAvailableValueNotEnough);
    }
    let add_margin_amount = usd_to_token_u(
        add_margin_in_usd,
        decimals,
        p.margin_token_entry_price,
    )?;
    let covered = if add_margin_amount <= available_amount {
        add_margin_amount
    } else {
        available_amount
    };
    let add_initial_margin_from_portfolio = token_to_usd_u(
        covered,
        decimals,
        p.margin_token_entry_price,
    )?;
    u.use_token(&mint, add_margin_amount, &p.user_token_account, false)?;
    proof {
        assert(is_first_token(u, mint@, ti as int));
        lemma_token_slot(u, mint@, ti as int);
    }
    let mut side = if position.is_long {
        base
    } else {
        stable
    };
    let margin_params = UpdatePositionMarginParams {
        position_key: *position_key,
        is_add: true,
        update_margin_amount: add_margin_amount,
        add_initial_margin_from_portfolio,
    };
    let side_token = if position.is_long {
        base_trade_token
    } else {
        stable_trade_token
    };
    execute_add_position_margin(&margin_params, side_token, &mut side, &mut m, &mut p)?;
    u.user_positions[idx] = p;
    if position.is_long {
        base = side;
    } else {
        stable = side;
    }
    proof {
        let a1 = spec_array_update(u0.user_positions, idx as int, p);
        assert(a1@ == u0.user_positions@.update(idx as int, p));
        assert(u.user_positions@ =~= a1@);
        assert(u.user_positions =~= a1);
        let a2 = spec_array_update(u0.user_tokens, ti as int, u.user_tokens@[ti as int]);
        assert(a2@ == u0.user_tokens@.update(ti as int, u.user_tokens@[ti as int]));
        assert(u.user_tokens@ =~= a2@);
        assert(u.user_tokens =~= a2);
    }
    *user = u;
    *market = m;
    *base_token_pool = base;
    *stable_pool = stable;
    Ok(())
}

/// Keeps or raises the leverage of a cross-margin position (see
/// `cross_leverage_reduce_spec`); on failure nothing changes.
#[verifier::rlimit(100)]
#[verifier::spinoff_prover]
fn raise_cross_leverage(
    params: UpdatePositionLeverageParams,
    position_key: &Pubkey,
    user: &mut User,
    base_token_pool: &mut Pool,
    stable_pool: &mut Pool,
    state: &State,
    market: &mut Market,
    base_trade_token: &TradeToken,
    stable_trade_token: &TradeToken,
    tokens: &Vec<TokenPrice>,
    markets: &Vec<PoolMarketInput>,
    pool_token_price: u128,
) -> (r: BumpResult)
    requires
        has_position(*old(user), position_key@),
        old(user).user_positions@[position_slot(*old(user), position_key@)].position_size != 0,
    ensures
        cross_leverage_reduce_spec(
            *old(user),
            *old(market),
            *old(base_token_pool),
            *old(stable_pool),
            *base_trade_token,
            *stable_trade_token,
            *state,
            position_key@,
            params.leverage,
            tokens@,
            markets@,
            pool_token_price as int,
        ) matches Err(e) ==> r == Err::<(), BumpErrorCode>(e) && *final(user) == *old(user) && *final(market) == *old(market) && *final(base_token_pool) == *old(base_token_pool) && *final(stable_pool)
            == *old(stable_pool),
        cross_leverage_reduce_spec(
            *old(user),
            *old(market),
            *old(base_token_pool),
            *old(stable_pool),
            *base_trade_token,
            *stable_trade_token,
            *state,
            position_key@,
            params.leverage,
            tokens@,
            markets@,
            pool_token_price as int,
        ) matches Ok((ps, ts, m, b, s)) ==> r == Ok::<(), BumpErrorCode>(()) && *final(user) == (User {
            user_positions: ps,
            user_tokens: ts,
            ..*old(user)
        }) && *final(market) == m && *final(base_token_pool) == b && *final(stable_pool) == s,
{
    let mut u = *user;
    let mut m = *market;
    let mut base = *base_token_pool;
    let mut stable = *stable_pool;
    let ghost u0 = u;
    let idx = u.get_user_position_index(position_key)?;
    proof {
        lemma_position_slot(u0, position_key@, idx as int);
    }
    let position = u.user_positions[idx];
    let decimals = if position.is_long {
        base_trade_token.decimals
    } else {
        stable_trade_token.decimals
    };
    let mut p = position;
    p.set_leverage(params.leverage)?;
    let needed = div_rate_u(p.position_size, p.leverage as u128)?;
    let reduce_margin = safe_sub_u(p.initial_margin_usd, needed)?;
    let margin_params = UpdatePositionMarginParams {
        position_key: *position_key,
        is_add: false,
        update_margin_amount: reduce_margin,
        add_initial_margin_from_portfolio: 0,
    };
    let reduce_margin_amount = execute_reduce_position_margin(
        &margin_params,
        false,
        base_trade_token,
        stable_trade_token,
        &mut base,
        &mut stable,
        &m,
        state,
        &mut p,
        markets,
        pool_token_price,
    )?;
    u.user_positions[idx] = p;
    let margin_mint_key = p.margin_mint_key;
    let ghost u1 = u;
    proof {
        if has_token(u0, margin_mint_key@) {
            lemma_has_token_slot(u0, margin_mint_key@);
            let i0 = token_slot(u0, margin_mint_key@);
            assert(is_first_token(u1, margin_mint_key@, i0));
            lemma_token_slot(u1, margin_mint_key@, i0);
        }
        assert(has_token(u1, margin_mint_key@) == has_token(u0, margin_mint_key@));
    }
    u.un_use_token(&margin_mint_key, reduce_margin_amount)?;
    proof {
        let a1 = spec_array_update(u0.user_positions, idx as int, p);
        assert(a1@ == u0.user_positions@.update(idx as int, p));
        assert(u.user_positions@ =~= a1@);
        assert(u.user_positions =~= a1);
        let ti = token_slot(u1, margin_mint_key@);
        let a2 = spec_array_update(u0.user_tokens, ti, u.user_tokens@[ti]);
        assert(a2@ == u0.user_tokens@.update(ti, u.user_tokens@[ti]));
        assert(u.user_tokens@ =~= a2@);
        assert(u.user_tokens =~= a2);
    }
    *user = u;
    *market = m;
    *base_token_pool = base;
    *stable_pool = stable;
    Ok(())
}

/// Outcome of `update_isolate_leverage` on an isolated position keyed
/// `key`: `(position slots, market, base token pool, stable pool, vault
/// movement)`. A position without size is left alone. Lowering the
/// leverage adds the missing USD margin, size / leverage less the margin,
/// as tokens at the margin token's entry price (see `add_margin_spec`),
/// paid by the trader into the pool's vault; otherwise the margin beyond
/// size / leverage is taken (see `reduce_margin_spec`) and paid back.
pub open spec fn isolate_leverage_spec(
    u: User,
    market: Market,
    base: Pool,
    stable: Pool,
    base_tt: TradeToken,
    stable_tt: TradeToken,
    state: State,
    key: Seq<u8>,
    leverage: u32,
    markets: Seq<PoolMarketInput>,
    pool_token_price: int,
) -> Result<([UserPosition; 8], Market, Pool, Pool, TokenTransfer), BumpErrorCode> {
    if !has_position(u, key) {
        Err(BumpErrorCode::CouldNotFindUserPosition)
    } else {
        let pi = position_slot(u, key);
        let p = u.user_positions@[pi];
        let p1 = UserPosition { leverage, ..p };
        let side = if p.is_long {
            base
        } else {
            stable
        };
        let decimals = if p.is_long {
            base_tt.decimals as int
        } else {
            stable_tt.decimals as int
        };
        if p.position_size == 0 {
            Ok((u.user_positions, market, base, stable, TokenTransfer::NoTransfer))
        } else {
            match mul_div_spec(p.position_size as int, RATE_PRECISION as int, leverage as int) {
                None => Err(BumpErrorCode::MathError),
                Some(new_margin_usd) => if p.leverage > leverage {
                    let add_usd = if new_margin_usd > p.initial_margin_usd {
                        new_margin_usd - p.initial_margin_usd
                    } else {
                        0
                    };
                    match usd_to_token_spec(add_usd, decimals, p.margin_token_entry_price as int) {
                        None => Err(BumpErrorCode::MathError),
                        Some(add_amount) => match add_margin_spec(
                            UpdatePositionMarginParams {
                                position_key: p.position_key,
                                is_add: true,
                                update_margin_amount: add_amount as u128,
                                add_initial_margin_from_portfolio: add_amount as u128,
                            },
                            decimals,
                            side,
                            market,
                            p1,
                        ) {
                            Err(e) => Err(e),
                            Ok((p2, side2, m2)) => Ok(
                                (
                                    spec_array_update(u.user_positions, pi, p2),
                                    m2,
                                    if p.is_long {
                                        side2
                                    } else {
                                        base
                                    },
                                    if p.is_long {
                                        stable
                                    } else {
                                        side2
                                    },
                                    TokenTransfer::UserToPool(add_amount as u128),
                                ),
                            ),
                        },
                    }
                } else {
                    match ck_u(p.initial_margin_usd - new_margin_usd) {
                        None => Err(BumpErrorCode::MathError),
                        Some(reduce) => match reduce_margin_spec(
                            reduce,
                            false,
                            decimals,
                            side,
                            markets,
                            pool_token_price,
                            market,
                            state,
                            p1,
                        ) {
                            Err(e) => Err(e),
                            Ok((p2, side2, taken)) => Ok(
                                (
                                    spec_array_update(u.user_positions, pi, p2),
                                    market,
                                    if p.is_long {
                                        side2
                                    } else {
                                        base
                                    },
                                    if p.is_long {
                                        stable
                                    } else {
                                        side2
                                    },
                                    TokenTransfer::PoolToUser(taken as u128),
                                ),
                            ),
                        },
                    }
                },
            }
        }
    }
}

/// Changes the leverage of an isolated position (see
/// `isolate_leverage_spec`); `markets` are all markets and
/// `pool_token_price` the price of the token of the position's pool.
/// Returns the vault movement to perform; on failure nothing changes.
#[verifier::rlimit(100)]
#[verifier::spinoff_prover]
pub fn update_isolate_leverage(
    params: UpdatePositionLeverageParams,
    position_key: &Pubkey,
    user: &mut User,
    base_token_pool: &mut Pool,
    stable_pool: &mut Pool,
    state: &State,
    market: &mut Market,
    base_trade_token: &TradeToken,
    stable_trade_token: &TradeToken,
    markets: &Vec<PoolMarketInput>,
    pool_token_price: u128,
) -> (r: BumpResult<TokenTransfer>)
    ensures
        isolate_leverage_spec(
            *old(user),
            *old(market),
            *old(base_token_pool),
            *old(stable_pool),
            *base_trade_token,
            *stable_trade_token,
            *state,
            position_key@,
            params.leverage,
            markets@,
            pool_token_price as int,
        ) matches Err(e) ==> r == Err::<TokenTransfer, BumpErrorCode>(e) && *final(user) == *old(user)
            && *final(market) == *old(market) && *final(base_token_pool) == *old(base_token_pool)
            && *final(stable_pool) == *old(stable_pool),
        isolate_leverage_spec(
            *old(user),
            *old(market),
            *old(base_token_pool),
            *old(stable_pool),
            *base_trade_token,
            *stable_trade_token,
            *state,
            position_key@,
            params.leverage,
            markets@,
            pool_token_price as int,
        ) matches Ok((ps, m, b, s, transfer)) ==> r == Ok::<TokenTransfer, BumpErrorCode>(transfer)
            && *final(user) == (User { user_positions: ps, ..*old(user) }) && *final(market) == m
            && *final(base_token_pool) == b && *final(stable_pool) == s,
{
    let mut u = *user;
    let mut m = *market;
    let mut base = *base_token_pool;
    let mut stable = *stable_pool;
    let ghost u0 = u;
    let idx = u.get_user_position_index(position_key)?;
    proof {
        lemma_position_slot(u0, position_key@, idx as int);
    }
    let position = u.user_positions[idx];
    if position.position_size == 0u128 {
        return Ok(TokenTransfer::NoTransfer);
    }
    let decimals = if position.is_long {
        base_trade_token.decimals
    } else {
        stable_trade_token.decimals
    };
    let mut p = position;
    p.set_leverage(params.leverage)?;
    let new_initial_margin_in_usd = div_rate_u(p.position_size, p.leverage as u128)?;
    let transfer;
    if position.leverage > params.leverage {
        let add_margin_in_usd = if new_initial_margin_in_usd > position.initial_margin_usd {
            safe_sub_u(new_initial_margin_in_usd, position.initial_margin_usd)?
        } else {
            0u128
        };
        let add_margin_amount = usd_to_token_u(
            add_margin_in_usd,
            decimals,
            p.margin_token_entry_price,
        )?;
        let margin_params = UpdatePositionMarginParams {
            position_key: *position_key,
            is_add: true,
            update_margin_amount: add_margin_amount,
            add_initial_margin_from_portfolio: add_margin_amount,
        };
        let side_token = if position.is_long {
            base_trade_token
        } else {
            stable_trade_token
        };
        let mut side = if position.is_long {
            base
        } else {
            stable
        };
        execute_add_position_margin(&margin_params, side_token, &mut side, &mut m, &mut p)?;
        if position.is_long {
            base = side;
        } else {
            stable = side;
        }
        transfer = TokenTransfer::UserToPool(add_margin_amount);
    } else {
        let reduce_margin = safe_sub_u(p.initial_margin_usd, new_initial_margin_in_usd)?;
        let margin_params = UpdatePositionMarginParams {
            position_key: *position_key,
            is_add: false,
            update_margin_amount: reduce_margin,
            add_initial_margin_from_portfolio: 0,
        };
        let reduce_margin_amount = execute_reduce_position_margin(
            &margin_params,
            false,
            base_trade_token,
            stable_trade_token,
            &mut base,
            &mut stable,
            &m,
            state,
            &mut p,
            markets,
            pool_token_price,
        )?;
        transfer = TokenTransfer::PoolToUser(reduce_margin_amount);
    }
    u.user_positions[idx] = p;
    proof {
        let a1 = spec_array_update(u0.user_positions, idx as int, p);
        assert(a1@ == u0.user_positions@.update(idx as int, p));
        assert(u.user_positions@ =~= a1@);
        assert(u.user_positions =~= a1);
    }
    *user = u;
    *market = m;
    *base_token_pool = base;
    *stable_pool = stable;
    Ok(transfer)
}

} // verus!
