pub mod fee_processor;
pub mod pool_processor;
pub mod position_processor;
pub mod re_balance_processor;
pub mod rebalance_processor;
pub mod stake_processor;
pub mod user_processor;
