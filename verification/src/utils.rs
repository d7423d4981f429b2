pub mod pda;
pub mod signer;
