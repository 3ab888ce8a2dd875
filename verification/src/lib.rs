pub mod account;
pub mod bytes;
pub mod counter;
pub mod effect;
pub mod error;
pub mod escrow;
pub mod fundraiser;
pub mod pda;
