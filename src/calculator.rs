//! Trade pricing with fees on top of the constant-product curve.
use vstd::prelude::*;

use crate::constant_product::{
    lp_share_spec, swap_input_spec, swap_output_spec, ConstantProductCurve,
};
use crate::error::ErrorCode;
use crate::fees::{
    ceil_div_spec, floor_div_spec, opt_int, pre_fee_amount_spec, Fees, FEE_RATE_DENOMINATOR_VALUE,
};

verus! {

/// `None` for zero, the value otherwise.
pub fn map_zero_to_none(x: u128) -> (r: Option<u128>)
    ensures
        r == (if x == 0 {
            None
        } else {
            Some(x)
        }),
{
    if x == 0 {
        None
    } else {
        Some(x)
    }
}

/// The direction of a trade between the two reserves of a market.
#[derive(Clone, Copy, Debug, PartialEq, Eq, Structural)]
pub enum TradeDirection {
    /// Input token 0, output token 1.
    ZeroForOne,
    /// Input token 1, output token 0.
    OneForZero,
}

impl TradeDirection {
    /// The reverse direction.
    pub fn opposite(&self) -> (r: TradeDirection)
        ensures
            r != *self,
    {
        match self {
            TradeDirection::ZeroForOne => TradeDirection::OneForZero,
            TradeDirection::OneForZero => TradeDirection::ZeroForOne,
        }
    }
}

/// The direction to round a pool-share conversion.
#[derive(Clone, Copy, Debug, PartialEq, Eq, Structural)]
pub enum RoundDirection {
    /// Round down.
    Floor,
    /// Round up.
    Ceiling,
}

/// Reserve amounts that a number of pool shares stands for.
#[derive(Debug, PartialEq, Eq, Structural)]
pub struct TradingTokenResult {
    /// Amount of the first reserve.
    pub token_0_amount: u128,
    /// Amount of the second reserve.
    pub token_1_amount: u128,
}

/// Everything a priced trade computes.
#[derive(Debug, PartialEq, Eq, Structural)]
pub struct SwapResult {
    /// New amount of the input reserve, without trade fees.
    pub new_input_vault_amount: u128,
    /// New amount of the output reserve.
    pub new_output_vault_amount: u128,
    /// Input paid by the trader, fees included.
    pub input_amount: u128,
    /// Output handed to the trader.
    pub output_amount: u128,
    /// Trading fee, in input tokens.
    pub trade_fee: u128,
    /// Protocol part of the trading fee.
    pub protocol_fee: u128,
    /// Fund part of the trading fee.
    pub fund_fee: u128,
    /// Creator fee, in input or output tokens.
    pub creator_fee: u128,
}

/// Result of an exact-input trade of `input` against reserves `(x, y)`.
///
/// The trading fee (and, when charged on input, the creator fee) is taken
/// from `input`, the rest is traded along the curve, and a creator fee charged
/// on output is taken from what the curve gives. `None` on any overflow,
/// underflow or division by zero.
pub open spec fn swap_base_input_spec(
    input: int,
    x: int,
    y: int,
    trade_rate: int,
    creator_rate: int,
    protocol_rate: int,
    fund_rate: int,
    on_input: bool,
) -> Option<SwapResult> {
    let d = FEE_RATE_DENOMINATOR_VALUE as int;
    let input_creator_fee = if on_input {
        ceil_div_spec(input, creator_rate, d)
    } else {
        Some(0)
    };
    match (ceil_div_spec(input, trade_rate, d), input_creator_fee) {
        (Some(trade_fee), Some(in_creator_fee)) => {
            let net = input - trade_fee - in_creator_fee;
            match (floor_div_spec(trade_fee, protocol_rate, d), floor_div_spec(trade_fee, fund_rate, d)) {
                (Some(protocol_fee), Some(fund_fee)) => {
                    if net < 0 || net * y > u128::MAX || x + net > u128::MAX || x + net == 0 {
                        None
                    } else {
                        let swapped = swap_input_spec(net, x, y);
                        let out_creator_fee = if on_input {
                            Some(0)
                        } else {
                            ceil_div_spec(swapped, creator_rate, d)
                        };
                        match out_creator_fee {
                            Some(out_fee) => if swapped - out_fee < 0 {
                                None
                            } else {
                                Some(
                                    SwapResult {
                                        new_input_vault_amount: (x + net) as u128,
                                        new_output_vault_amount: (y - swapped) as u128,
                                        input_amount: input as u128,
                                        output_amount: (swapped - out_fee) as u128,
                                        trade_fee: trade_fee as u128,
                                        protocol_fee: protocol_fee as u128,
                                        fund_fee: fund_fee as u128,
                                        creator_fee: (in_creator_fee + out_fee) as u128,
                                    },
                                )
                            },
                            None => None,
                        }
                    }
                },
                _ => None,
            }
        },
        _ => None,
    }
}

/// Result of an exact-output trade of `output` against reserves `(x, y)`.
///
/// A creator fee charged on output grosses `output` up first; the curve then
/// gives the input that takes that amount out, which is grossed up by the
/// trading fee rate (jointly with the creator fee rate when the creator fee
/// is charged on input, the combined fee then split by the two rates). `None`
/// on any overflow, underflow or division by zero.
pub open spec fn swap_base_output_spec(
    output: int,
    x: int,
    y: int,
    trade_rate: int,
    creator_rate: int,
    protocol_rate: int,
    fund_rate: int,
    on_input: bool,
) -> Option<SwapResult> {
    let d = FEE_RATE_DENOMINATOR_VALUE as int;
    let actual_output = if on_input {
        Some(output)
    } else {
        pre_fee_amount_spec(output, creator_rate)
    };
    match actual_output {
        None => None,
        Some(actual_out) => if x * actual_out > u128::MAX || actual_out >= y {
            None
        } else {
            let swapped_in = swap_output_spec(actual_out, x, y);
            let rate = if on_input {
                trade_rate + creator_rate
            } else {
                trade_rate
            };
            if on_input && rate > u64::MAX {
                None
            } else {
                match pre_fee_amount_spec(swapped_in, rate) {
                    None => None,
                    Some(with_fee) => {
                        let total_fee = with_fee - swapped_in;
                        let creator_fee = if on_input {
                            floor_div_spec(total_fee, creator_rate, rate)
                        } else {
                            Some(actual_out - output)
                        };
                        match creator_fee {
                            None => None,
                            Some(creator_fee) => {
                                let trade_fee = if on_input {
                                    total_fee - creator_fee
                                } else {
                                    total_fee
                                };
                                match (
                                    floor_div_spec(trade_fee, protocol_rate, d),
                                    floor_div_spec(trade_fee, fund_rate, d),
                                ) {
                                    (Some(protocol_fee), Some(fund_fee)) => if x + swapped_in
                                        > u128::MAX {
                                        None
                                    } else {
                                        Some(
                                            SwapResult {
                                                new_input_vault_amount: (x + swapped_in) as u128,
                                                new_output_vault_amount: (y - actual_out) as u128,
                                                input_amount: with_fee as u128,
                                                output_amount: output as u128,
                                                trade_fee: trade_fee as u128,
                                                protocol_fee: protocol_fee as u128,
                                                fund_fee: fund_fee as u128,
                                                creator_fee: creator_fee as u128,
                                            },
                                        )
                                    },
                                    _ => None,
                                }
                            },
                        }
                    },
                }
            }
        },
    }
}

/// Pricing of trades against a constant-product market with fees.
#[derive(Clone, Copy, Debug, Default, PartialEq, Eq)]
pub struct CurveCalculator {}

impl CurveCalculator {
    /// Both reserves of a market must be nonempty.
    pub fn validate_supply(token_0_amount: u64, token_1_amount: u64) -> (r: Result<(), ErrorCode>)
        ensures
            r == (if token_0_amount == 0 || token_1_amount == 0 {
                Err(ErrorCode::EmptySupply)
            } else {
                Ok(())
            }),
    {
        if token_0_amount == 0 {
            return Err(ErrorCode::EmptySupply);
        }
        if token_1_amount == 0 {
            return Err(ErrorCode::EmptySupply);
        }
        Ok(())
    }

    /// Takes the fees from `input_amount` and prices what it buys.
    pub fn swap_base_input(
        input_amount: u128,
        input_vault_amount: u128,
        output_vault_amount: u128,
        trade_fee_rate: u64,
        creator_fee_rate: u64,
        protocol_fee_rate: u64,
        fund_fee_rate: u64,
        is_creator_fee_on_input: bool,
    ) -> (r: Option<SwapResult>)
        ensures
            r == swap_base_input_spec(
                input_amount as int,
                input_vault_amount as int,
                output_vault_amount as int,
                trade_fee_rate as int,
                creator_fee_rate as int,
                protocol_fee_rate as int,
                fund_fee_rate as int,
                is_creator_fee_on_input,
            ),
    {
        let mut creator_fee: u128 = 0;
        let trade_fee = Fees::trading_fee(input_amount, trade_fee_rate)?;
        let input_amount_less_fees = if is_creator_fee_on_input {
            creator_fee = Fees::creator_fee(input_amount, creator_fee_rate)?;
            input_amount.checked_sub(trade_fee)?.checked_sub(creator_fee)?
        } else {
            input_amount.checked_sub(trade_fee)?
        };
        let protocol_fee = Fees::protocol_fee(trade_fee, protocol_fee_rate)?;
        let fund_fee = Fees::fund_fee(trade_fee, fund_fee_rate)?;
        input_amount_less_fees.checked_mul(output_vault_amount)?;
        let new_input_vault_amount = input_vault_amount.checked_add(input_amount_less_fees)?;
        if new_input_vault_amount == 0 {
            return None;
        }
        let output_amount_swapped = ConstantProductCurve::swap_base_input_without_fees(
            input_amount_less_fees,
            input_vault_amount,
            output_vault_amount,
        );
        let output_amount = if is_creator_fee_on_input {
            output_amount_swapped
        } else {
            creator_fee = Fees::creator_fee(output_amount_swapped, creator_fee_rate)?;
            output_amount_swapped.checked_sub(creator_fee)?
        };
        Some(
            SwapResult {
                new_input_vault_amount,
                new_output_vault_amount: output_vault_amount - output_amount_swapped,
                input_amount,
                output_amount,
                trade_fee,
                protocol_fee,
                fund_fee,
                creator_fee,
            },
        )
    }

    /// Prices the input, fees included, that takes `output_amount` out.
    pub fn swap_base_output(
        output_amount: u128,
        input_vault_amount: u128,
        output_vault_amount: u128,
        trade_fee_rate: u64,
        creator_fee_rate: u64,
        protocol_fee_rate: u64,
        fund_fee_rate: u64,
        is_creator_fee_on_input: bool,
    ) -> (r: Option<SwapResult>)
        ensures
            r == swap_base_output_spec(
                output_amount as int,
                input_vault_amount as int,
                output_vault_amount as int,
                trade_fee_rate as int,
                creator_fee_rate as int,
                protocol_fee_rate as int,
                fund_fee_rate as int,
                is_creator_fee_on_input,
            ),
    {
        let mut creator_fee: u128 = 0;
        let actual_output_amount = if is_creator_fee_on_input {
            output_amount
        } else {
            let out_amount_with_creator_fee = Fees::calculate_pre_fee_amount(
                output_amount,
                creator_fee_rate,
            )?;
            proof {
                lemma_pre_fee_at_least(output_amount as int, creator_fee_rate as int);
            }
            creator_fee = out_amount_with_creator_fee - output_amount;
            out_amount_with_creator_fee
        };
        input_vault_amount.checked_mul(actual_output_amount)?;
        if actual_output_amount >= output_vault_amount {
            return None;
        }
        let input_amount_swapped = ConstantProductCurve::swap_base_output_without_fees(
            actual_output_amount,
            input_vault_amount,
            output_vault_amount,
        );
        proof {
            lemma_swap_output_nonneg(
                actual_output_amount as int,
                input_vault_amount as int,
                output_vault_amount as int,
            );
        }
        let trade_fee: u128;
        let input_amount = if is_creator_fee_on_input {
            let rate = trade_fee_rate.checked_add(creator_fee_rate)?;
            let input_amount_with_fee = Fees::calculate_pre_fee_amount(input_amount_swapped, rate)?;
            proof {
                lemma_pre_fee_at_least(input_amount_swapped as int, rate as int);
            }
            let total_fee = input_amount_with_fee - input_amount_swapped;
            creator_fee = Fees::split_creator_fee(total_fee, trade_fee_rate, creator_fee_rate)?;
            proof {
                lemma_floor_share_at_most(total_fee as int, creator_fee_rate as int, rate as int);
            }
            trade_fee = total_fee - creator_fee;
            input_amount_with_fee
        } else {
            let input_amount_with_fee = Fees::calculate_pre_fee_amount(
                input_amount_swapped,
                trade_fee_rate,
            )?;
            proof {
                lemma_pre_fee_at_least(input_amount_swapped as int, trade_fee_rate as int);
            }
            trade_fee = input_amount_with_fee - input_amount_swapped;
            input_amount_with_fee
        };
        let protocol_fee = Fees::protocol_fee(trade_fee, protocol_fee_rate)?;
        let fund_fee = Fees::fund_fee(trade_fee, fund_fee_rate)?;
        let new_input_vault_amount = input_vault_amount.checked_add(input_amount_swapped)?;
        Some(
            SwapResult {
                new_input_vault_amount,
                new_output_vault_amount: output_vault_amount - actual_output_amount,
                input_amount,
                output_amount,
                trade_fee,
                protocol_fee,
                fund_fee,
                creator_fee,
            },
        )
    }

    /// Reserve amounts that a number of pool shares stands for.
    pub fn lp_tokens_to_trading_tokens(
        lp_token_amount: u128,
        lp_token_supply: u128,
        token_0_vault_amount: u128,
        token_1_vault_amount: u128,
        round_direction: RoundDirection,
    ) -> (r: Option<TradingTokenResult>)
        ensures
            r is Some <==> lp_token_supply > 0 && lp_token_amount * token_0_vault_amount
                <= u128::MAX && lp_token_amount * token_1_vault_amount <= u128::MAX,
            r matches Some(t) ==> t.token_0_amount == lp_share_spec(
                lp_token_amount as int,
                lp_token_supply as int,
                token_0_vault_amount as int,
                round_direction,
            ) && t.token_1_amount == lp_share_spec(
                lp_token_amount as int,
                lp_token_supply as int,
                token_1_vault_amount as int,
                round_direction,
            ),
    {
        ConstantProductCurve::lp_tokens_to_trading_tokens(
            lp_token_amount,
            lp_token_supply,
            token_0_vault_amount,
            token_1_vault_amount,
            round_direction,
        )
    }
}

/// Grossing an amount up by a fee never makes it smaller.
pub proof fn lemma_pre_fee_at_least(post: int, rate: int)
    requires
        post >= 0,
        rate >= 0,
    ensures
        pre_fee_amount_spec(post, rate) matches Some(pre) ==> pre >= post,
{
    let d = FEE_RATE_DENOMINATOR_VALUE as int;
    if rate != 0 && rate <= d && post * d <= u128::MAX && d - rate > 0 {
        let q = d - rate;
        assert((post * d + q - 1) / q >= post) by (nonlinear_arith)
            requires
                post >= 0,
                0 < q <= d,
        ;
    }
}

/// The fee-free input of an exact-output trade is never negative.
pub proof fn lemma_swap_output_nonneg(dy: int, x: int, y: int)
    requires
        dy >= 0,
        x >= 0,
        dy < y,
    ensures
        swap_output_spec(dy, x, y) >= 0,
{
    assert((x * dy + (y - dy) - 1) / (y - dy) >= 0) by (nonlinear_arith)
        requires
            dy >= 0,
            x >= 0,
            dy < y,
    ;
}

/// A share of `total` by `part / whole`, rounded down, is at most `total`.
pub proof fn lemma_floor_share_at_most(total: int, part: int, whole: int)
    requires
        total >= 0,
        0 <= part <= whole,
        whole > 0,
    ensures
        0 <= total * part / whole <= total,
{
    assert(0 <= total * part / whole <= total) by (nonlinear_arith)
        requires
            total >= 0,
            0 <= part <= whole,
            whole > 0,
    ;
}

} // verus!
