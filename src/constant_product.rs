//! The constant-product invariant `x * y = k`.
use vstd::prelude::*;

use crate::calculator::{RoundDirection, TradingTokenResult};

verus! {

/// Output of an exact-input trade without fees: `floor(dx * y / (x + dx))`.
pub open spec fn swap_input_spec(dx: int, x: int, y: int) -> int {
    dx * y / (x + dx)
}

/// Input of an exact-output trade without fees: `ceil(x * dy / (y - dy))`.
pub open spec fn swap_output_spec(dy: int, x: int, y: int) -> int {
    (x * dy + (y - dy) - 1) / (y - dy)
}

/// Share `lp / supply` of a reserve, rounded down, or rounded up when asked
/// and both the remainder and the rounded-down share are nonzero.
pub open spec fn lp_share_spec(lp: int, supply: int, reserve: int, round: RoundDirection) -> int {
    let floor = lp * reserve / supply;
    match round {
        RoundDirection::Floor => floor,
        RoundDirection::Ceiling => if lp * reserve % supply > 0 && floor > 0 {
            floor + 1
        } else {
            floor
        },
    }
}

/// The constant-product curve.
#[derive(Clone, Copy, Debug, Default, PartialEq, Eq)]
pub struct ConstantProductCurve;

impl ConstantProductCurve {
    /// Amount of the output reserve that `input_amount` buys, without fees.
    pub fn swap_base_input_without_fees(
        input_amount: u128,
        input_vault_amount: u128,
        output_vault_amount: u128,
    ) -> (r: u128)
        requires
            input_amount * output_vault_amount <= u128::MAX,
            input_vault_amount + input_amount <= u128::MAX,
            input_vault_amount + input_amount > 0,
        ensures
            r == swap_input_spec(
                input_amount as int,
                input_vault_amount as int,
                output_vault_amount as int,
            ),
            r <= output_vault_amount,
    {
        let numerator = input_amount * output_vault_amount;
        let denominator = input_vault_amount + input_amount;
        proof {
            lemma_swap_input_bounded(
                input_amount as int,
                input_vault_amount as int,
                output_vault_amount as int,
            );
        }
        numerator / denominator
    }

    /// Amount of the input reserve needed to take `output_amount` out, without
    /// fees.
    pub fn swap_base_output_without_fees(
        output_amount: u128,
        input_vault_amount: u128,
        output_vault_amount: u128,
    ) -> (r: u128)
        requires
            input_vault_amount * output_amount <= u128::MAX,
            output_amount < output_vault_amount,
        ensures
            r == swap_output_spec(
                output_amount as int,
                input_vault_amount as int,
                output_vault_amount as int,
            ),
    {
        let numerator = input_vault_amount * output_amount;
        let denominator = output_vault_amount - output_amount;
        let quotient = numerator / denominator;
        let remainder = numerator % denominator;
        proof {
            lemma_ceil_div(numerator as int, denominator as int);
            lemma_div_le_self(numerator as int, denominator as int);
        }
        if remainder > 0 {
            quotient + 1
        } else {
            quotient
        }
    }

    /// Reserve amounts that `lp_token_amount` pool shares stand for, out of
    /// `lp_token_supply`; `None` on a zero supply or an overflowing product.
    pub fn lp_tokens_to_trading_tokens(
        lp_token_amount: u128,
        lp_token_supply: u128,
        token_0_vault_amount: u128,
        token_1_vault_amount: u128,
        round_direction: RoundDirection,
    ) -> (r: Option<TradingTokenResult>)
        ensures
            r is Some <==> lp_token_supply > 0 && lp_token_amount * token_0_vault_amount
                <= u128::MAX && lp_token_amount * token_1_vault_amount <= u128::MAX,
            r matches Some(t) ==> t.token_0_amount == lp_share_spec(
                lp_token_amount as int,
                lp_token_supply as int,
                token_0_vault_amount as int,
                round_direction,
            ) && t.token_1_amount == lp_share_spec(
                lp_token_amount as int,
                lp_token_supply as int,
                token_1_vault_amount as int,
                round_direction,
            ),
    {
        let token_0_product = lp_token_amount.checked_mul(token_0_vault_amount)?;
        let token_0_amount = token_0_product.checked_div(lp_token_supply)?;
        let token_1_product = lp_token_amount.checked_mul(token_1_vault_amount)?;
        let token_1_amount = token_1_product.checked_div(lp_token_supply)?;
        proof {
            lemma_div_le_self(token_0_product as int, lp_token_supply as int);
            lemma_div_le_self(token_1_product as int, lp_token_supply as int);
        }
        let (token_0_amount, token_1_amount) = match round_direction {
            RoundDirection::Floor => (token_0_amount, token_1_amount),
            RoundDirection::Ceiling => {
                let token_0_remainder = token_0_product % lp_token_supply;
                let token_1_remainder = token_1_product % lp_token_supply;
                let mut token_0_amount = token_0_amount;
                let mut token_1_amount = token_1_amount;
                if token_0_remainder > 0 && token_0_amount > 0 {
                    token_0_amount = token_0_amount + 1;
                }
                if token_1_remainder > 0 && token_1_amount > 0 {
                    token_1_amount = token_1_amount + 1;
                }
                (token_0_amount, token_1_amount)
            },
        };
        Some(TradingTokenResult { token_0_amount, token_1_amount })
    }
}

/// A quotient rounded up from its remainder is the ceiling formula.
pub proof fn lemma_ceil_div(n: int, d: int)
    requires
        n >= 0,
        d > 0,
    ensures
        (n + d - 1) / d == if n % d > 0 {
            n / d + 1
        } else {
            n / d
        },
{
    let q = n / d;
    let m = n % d;
    assert(n == d * q + m) by (nonlinear_arith)
        requires
            q == n / d,
            m == n % d,
            d > 0,
    ;
    if m > 0 {
        assert((n + d - 1) / d == q + 1) by (nonlinear_arith)
            requires
                n == d * q + m,
                0 < m < d,
        ;
    } else {
        assert((n + d - 1) / d == q) by (nonlinear_arith)
            requires
                n == d * q,
                d > 0,
        ;
    }
}

proof fn lemma_div_le_self(n: int, d: int)
    requires
        n >= 0,
        d > 0,
    ensures
        n / d <= n,
        n / d >= 0,
        n % d > 0 ==> n / d < n,
{
    assert(n / d <= n && n / d >= 0) by (nonlinear_arith)
        requires
            n >= 0,
            d > 0,
    ;
    if n % d > 0 {
        assert(n > 0) by {
            if n == 0 {
                assert(0int % d == 0);
            }
        }
        assert(d >= 2) by {
            if d == 1 {
                assert(n % 1 == 0);
            }
        }
        assert(n / d < n) by (nonlinear_arith)
            requires
                n > 0,
                d >= 2,
        ;
    }
}

/// The output of an exact-input trade never exceeds the output reserve.
pub proof fn lemma_swap_input_bounded(dx: int, x: int, y: int)
    requires
        dx >= 0,
        x >= 0,
        y >= 0,
        x + dx > 0,
    ensures
        0 <= swap_input_spec(dx, x, y) <= y,
{
    assert(0 <= dx * y / (x + dx) <= y) by (nonlinear_arith)
        requires
            dx >= 0,
            x >= 0,
            y >= 0,
            x + dx > 0,
    ;
}

} // verus!
