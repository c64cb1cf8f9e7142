//! Quoting and swap planning for a constant-product liquidity pool.
pub mod address;
pub mod curve;
pub mod bytes;
pub mod error;
pub mod state;
pub mod transfer_fee;
pub mod accounts;
pub mod pool;
pub mod quote;
pub mod plan;
