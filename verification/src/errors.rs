use vstd::prelude::*;

verus! {

/// The errors that the trading library reports.
#[derive(Clone, Copy, Debug, PartialEq, Eq, Structural)]
pub enum BumpErrorCode {
    MathError,
    AmountNotEnough,
    SubPoolAmountBiggerThanAmount,
    SubHoldPoolBiggerThanHold,
    PoolSubUnsettleNotEnough,
    PoolAvailableLiquidityNotEnough,
    CouldNotFindUserToken,
    CouldNotFindUserStake,
    CouldNotFindUserOrder,
    CouldNotFindUserPosition,
    NoMoreOrderSpace,
    NoMoreUserTokenSpace,
    PositionSideNotSupport,
    InvalidParam,
    PriceIsNotAllowed,
    LeverageIsNotAllowed,
    PositionShouldBeLiquidation,
    OnlyOneDirectionPositionIsAllowed,
    InvalidOracle,
    OrderMarginUSDTooSmall,
    BalanceNotEnough,
    UserAvailableValueNotEnough,
    UnStakeTooSmall,
    StakeToSmall,
    UnStakeWithAmountNotEnough,
    PoolUnsettleSmallThanTokenLiability,
    RebalanceMarketStableLossIgnore,
    MarketNumberNotEqual2Pool,
    UserNotEnoughValue,
    TradeTokenNotFind,
    MarketNotFind,
    CouldNotLoadPoolData,
    ProgramAddressNotFound,
    PythOffline,
    OracleNotFound,
    TimestampNotFound,
}

/// Result type of every fallible operation of the library.
pub type BumpResult<T = ()> = Result<T, BumpErrorCode>;

} // verus!
