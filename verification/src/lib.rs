pub mod calculator;
pub mod errors;
pub mod math;
pub mod processor;
pub mod pubkey;
pub mod state;
pub mod utils;
