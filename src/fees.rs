//! Fee amounts charged on a trade, and their inverses.
use vstd::prelude::*;

verus! {

/// Denominator of every fee and bonus rate.
pub const FEE_RATE_DENOMINATOR_VALUE: u64 = 1_000_000;

/// `ceil(amount * numerator / denominator)`, computed as
/// `(amount * numerator + denominator - 1) / denominator`; `None` when the
/// denominator is zero or `amount * numerator + denominator` leaves `u128`.
pub open spec fn ceil_div_spec(amount: int, numerator: int, denominator: int) -> Option<int> {
    if denominator == 0 || amount * numerator + denominator > u128::MAX {
        None
    } else {
        Some((amount * numerator + denominator - 1) / denominator)
    }
}

/// `floor(amount * numerator / denominator)`; `None` when the product leaves
/// `u128` or the denominator is zero.
pub open spec fn floor_div_spec(amount: int, numerator: int, denominator: int) -> Option<int> {
    if denominator == 0 || amount * numerator > u128::MAX {
        None
    } else {
        Some(amount * numerator / denominator)
    }
}

/// The amount that, less a fee of `rate` parts per denominator rounded up,
/// leaves at least `post_fee_amount`: `ceil(post * D / (D - rate))`.
pub open spec fn pre_fee_amount_spec(post_fee_amount: int, rate: int) -> Option<int> {
    if rate == 0 {
        Some(post_fee_amount)
    } else if rate > FEE_RATE_DENOMINATOR_VALUE || post_fee_amount * FEE_RATE_DENOMINATOR_VALUE
        > u128::MAX {
        None
    } else {
        ceil_div_spec(
            post_fee_amount,
            FEE_RATE_DENOMINATOR_VALUE as int,
            FEE_RATE_DENOMINATOR_VALUE - rate,
        )
    }
}

/// Lifts an optional `u128` result to an optional integer.
pub open spec fn opt_int(r: Option<u128>) -> Option<int> {
    match r {
        Some(v) => Some(v as int),
        None => None,
    }
}

fn ceil_div(amount: u128, numerator: u128, denominator: u128) -> (r: Option<u128>)
    ensures
        opt_int(r) == ceil_div_spec(amount as int, numerator as int, denominator as int),
{
    let product = amount.checked_mul(numerator)?;
    let padded = product.checked_add(denominator)?;
    if denominator == 0 {
        return None;
    }
    Some((padded - 1) / denominator)
}

fn floor_div(amount: u128, numerator: u128, denominator: u128) -> (r: Option<u128>)
    ensures
        opt_int(r) == floor_div_spec(amount as int, numerator as int, denominator as int),
{
    let product = amount.checked_mul(numerator)?;
    product.checked_div(denominator)
}

/// Fee arithmetic of the market; every rate is in parts per
/// `FEE_RATE_DENOMINATOR_VALUE`.
pub struct Fees {}

impl Fees {
    /// Trading fee on `amount`, rounded up.
    pub fn trading_fee(amount: u128, trade_fee_rate: u64) -> (r: Option<u128>)
        ensures
            opt_int(r) == ceil_div_spec(
                amount as int,
                trade_fee_rate as int,
                FEE_RATE_DENOMINATOR_VALUE as int,
            ),
    {
        ceil_div(amount, trade_fee_rate as u128, FEE_RATE_DENOMINATOR_VALUE as u128)
    }

    /// Protocol share of a trading fee, rounded down.
    pub fn protocol_fee(amount: u128, protocol_fee_rate: u64) -> (r: Option<u128>)
        ensures
            opt_int(r) == floor_div_spec(
                amount as int,
                protocol_fee_rate as int,
                FEE_RATE_DENOMINATOR_VALUE as int,
            ),
    {
        floor_div(amount, protocol_fee_rate as u128, FEE_RATE_DENOMINATOR_VALUE as u128)
    }

    /// Fund share of a trading fee, rounded down.
    pub fn fund_fee(amount: u128, fund_fee_rate: u64) -> (r: Option<u128>)
        ensures
            opt_int(r) == floor_div_spec(
                amount as int,
                fund_fee_rate as int,
                FEE_RATE_DENOMINATOR_VALUE as int,
            ),
    {
        floor_div(amount, fund_fee_rate as u128, FEE_RATE_DENOMINATOR_VALUE as u128)
    }

    /// Creator fee on `amount`, rounded up.
    pub fn creator_fee(amount: u128, creator_fee_rate: u64) -> (r: Option<u128>)
        ensures
            opt_int(r) == ceil_div_spec(
                amount as int,
                creator_fee_rate as int,
                FEE_RATE_DENOMINATOR_VALUE as int,
            ),
    {
        ceil_div(amount, creator_fee_rate as u128, FEE_RATE_DENOMINATOR_VALUE as u128)
    }

    /// Creator part of a combined trade-plus-creator fee, in proportion to the
    /// two rates, rounded down; `None` when the rates sum to zero or leave `u64`.
    pub fn split_creator_fee(total_fee: u128, trade_fee_rate: u64, creator_fee_rate: u64) -> (r:
        Option<u128>)
        ensures
            opt_int(r) == (if trade_fee_rate + creator_fee_rate > u64::MAX {
                None
            } else {
                floor_div_spec(
                    total_fee as int,
                    creator_fee_rate as int,
                    trade_fee_rate + creator_fee_rate,
                )
            }),
    {
        let rate_sum = trade_fee_rate.checked_add(creator_fee_rate)?;
        floor_div(total_fee, creator_fee_rate as u128, rate_sum as u128)
    }

    /// Smallest gross amount whose fee-free part is at least `post_fee_amount`.
    pub fn calculate_pre_fee_amount(post_fee_amount: u128, trade_fee_rate: u64) -> (r: Option<
        u128,
    >)
        ensures
            opt_int(r) == pre_fee_amount_spec(post_fee_amount as int, trade_fee_rate as int),
    {
        if trade_fee_rate == 0 {
            Some(post_fee_amount)
        } else {
            let numerator = post_fee_amount.checked_mul(FEE_RATE_DENOMINATOR_VALUE as u128)?;
            let denominator = (FEE_RATE_DENOMINATOR_VALUE as u128).checked_sub(
                trade_fee_rate as u128,
            )?;
            let padded = numerator.checked_add(denominator)?;
            if denominator == 0 {
                return None;
            }
            Some((padded - 1) / denominator)
        }
    }
}

} // verus!
