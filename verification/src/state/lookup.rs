//! The accounts an instruction was given, as lists, and their lookup by
//! key: trade tokens with their oracle prices, markets and pools.
use vstd::prelude::*;

use crate::errors::{BumpErrorCode, BumpResult};
use crate::pubkey::{key_eq, Pubkey};
use crate::state::market::Market;
use crate::state::pool::Pool;
use crate::state::trade_token::TradeToken;

verus! {

/// A trade token with the current price of its oracle.
#[derive(Clone, Copy, Debug)]
pub struct TokenPrice {
    pub trade_token: TradeToken,
    pub price: u128,
}

/// The first entry from `i` on whose token has mint `mint`.
pub open spec fn token_price_from(ts: Seq<TokenPrice>, mint: Seq<u8>, i: int) -> Option<TokenPrice>
    decreases ts.len() - i,
{
    if i < 0 || i >= ts.len() {
        None
    } else if ts[i].trade_token.mint_key@ == mint {
        Some(ts[i])
    } else {
        token_price_from(ts, mint, i + 1)
    }
}

/// The first market from `i` on with symbol `symbol`.
pub open spec fn market_from(ms: Seq<Market>, symbol: Seq<u8>, i: int) -> Option<Market>
    decreases ms.len() - i,
{
    if i < 0 || i >= ms.len() {
        None
    } else if ms[i].symbol@ == symbol {
        Some(ms[i])
    } else {
        market_from(ms, symbol, i + 1)
    }
}

/// The first pool from `i` on with key `key`.
pub open spec fn pool_from(ps: Seq<Pool>, key: Seq<u8>, i: int) -> Option<Pool>
    decreases ps.len() - i,
{
    if i < 0 || i >= ps.len() {
        None
    } else if ps[i].key@ == key {
        Some(ps[i])
    } else {
        pool_from(ps, key, i + 1)
    }
}

/// The trade token of mint `mint` and its price.
pub fn find_token_price(tokens: &Vec<TokenPrice>, mint: &Pubkey) -> (r: BumpResult<TokenPrice>)
    ensures
        token_price_from(tokens@, mint@, 0) matches Some(t) ==> r == Ok::<TokenPrice, BumpErrorCode>(t),
        token_price_from(tokens@, mint@, 0) is None ==> r == Err::<TokenPrice, BumpErrorCode>(
            BumpErrorCode::TradeTokenNotFind,
        ),
{
    let mut i: usize = 0;
    while i < tokens.len()
        invariant
            i <= tokens.len(),
            token_price_from(tokens@, mint@, 0) == token_price_from(tokens@, mint@, i as int),
        decreases tokens.len() - i,
    {
        if key_eq(&tokens[i].trade_token.mint_key, mint) {
            return Ok(tokens[i]);
        }
        i = i + 1;
    }
    Err(BumpErrorCode::TradeTokenNotFind)
}

/// The market of symbol `symbol`.
pub fn find_market(markets: &Vec<Market>, symbol: &[u8; 32]) -> (r: BumpResult<Market>)
    ensures
        market_from(markets@, symbol@, 0) matches Some(m) ==> r == Ok::<Market, BumpErrorCode>(m),
        market_from(markets@, symbol@, 0) is None ==> r == Err::<Market, BumpErrorCode>(
            BumpErrorCode::MarketNotFind,
        ),
{
    let mut i: usize = 0;
    while i < markets.len()
        invariant
            i <= markets.len(),
            market_from(markets@, symbol@, 0) == market_from(markets@, symbol@, i as int),
        decreases markets.len() - i,
    {
        if key_eq(&markets[i].symbol, symbol) {
            return Ok(markets[i]);
        }
        i = i + 1;
    }
    Err(BumpErrorCode::MarketNotFind)
}

/// The pool of key `key`.
pub fn find_pool(pools: &Vec<Pool>, key: &Pubkey) -> (r: BumpResult<Pool>)
    ensures
        pool_from(pools@, key@, 0) matches Some(p) ==> r == Ok::<Pool, BumpErrorCode>(p),
        pool_from(pools@, key@, 0) is None ==> r == Err::<Pool, BumpErrorCode>(
            BumpErrorCode::CouldNotLoadPoolData,
        ),
{
    let mut i: usize = 0;
    while i < pools.len()
        invariant
            i <= pools.len(),
            pool_from(pools@, key@, 0) == pool_from(pools@, key@, i as int),
        decreases pools.len() - i,
    {
        if key_eq(&pools[i].key, key) {
            return Ok(pools[i]);
        }
        i = i + 1;
    }
    Err(BumpErrorCode::CouldNotLoadPoolData)
}

} // verus!
