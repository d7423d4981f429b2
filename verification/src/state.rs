pub mod dao_rewards;
pub mod infrastructure;
pub mod market;
pub mod oracle;
pub mod oracle_map;
pub mod pool;
pub mod pool_rewards;
pub mod rewards;
pub mod state;
pub mod trade_token;
pub mod user;
pub mod user_margin;
pub mod lookup;
pub mod user_value;
