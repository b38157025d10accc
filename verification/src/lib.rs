//! Verified logic of a protocol for capped continuous payoff Markets on Solana: Market lifecycle,
//! Collateral custody and Trade Execution, Resolution, Claims and Refunds.

pub mod address;
pub mod market;
pub mod settlement;
pub mod signed_order;
pub mod token;
pub mod vault;
