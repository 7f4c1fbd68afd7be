//! Pricing, fee splitting and reward-index accounting for a constant-product
//! purchase/stake/buyback protocol.
use vstd::prelude::*;

pub mod admin;
pub mod blacklist;
pub mod buyback;
pub mod calculator;
pub mod constant_product;
pub mod error;
pub mod fees;
pub mod pricer;
pub mod purchase;
pub mod redeem;
pub mod rewards;
pub mod states;

verus! {

/// Fixed-point scale of the reward-per-stake indices.
pub const PRECISION: u128 = 1_000_000_000;

} // verus!
