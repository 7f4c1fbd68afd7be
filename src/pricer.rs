//! Trade pricing followed by the checks every caller owes the market: the
//! constant product must not decrease and the fixed side must come out exact.
use vstd::prelude::*;

use crate::calculator::{
    lemma_swap_output_nonneg, swap_base_input_spec, swap_base_output_spec, CurveCalculator,
    SwapResult, TradeDirection,
};
use crate::fees::{pre_fee_amount_spec, FEE_RATE_DENOMINATOR_VALUE};
use crate::constant_product::{lemma_swap_input_bounded, swap_input_spec, swap_output_spec};
use crate::error::ErrorCode;

verus! {

/// Trading fee rate that the market charges.
pub const TRADE_FEE_RATE: u64 = 2500;

/// Protocol share of the market's trading fee.
pub const PROTOCOL_FEE_RATE: u64 = 120000;

/// Fund share of the market's trading fee.
pub const FUND_FEE_RATE: u64 = 40000;

/// Creator fee rate of the market, when its creator fee is enabled.
pub const CREATOR_FEE_RATE: u64 = 500;

/// What the protocol reads of the external market before a trade: reserves
/// on the input and output side, net of the market's own fee balances, and
/// how the market charges its creator fee.
#[derive(Clone, Copy, Debug, PartialEq, Eq)]
pub struct MarketState {
    /// Reserve of the token paid in.
    pub total_input_token_amount: u64,
    /// Reserve of the token taken out.
    pub total_output_token_amount: u64,
    /// Whether the market charges a creator fee at all.
    pub enable_creator_fee: bool,
    /// Whether the creator fee is taken from the input (else the output).
    pub is_creator_fee_on_input: bool,
}

impl MarketState {
    /// The creator fee rate in force: `CREATOR_FEE_RATE`, or zero when the
    /// market charges none.
    pub open spec fn creator_fee_rate_spec(&self) -> u64 {
        if self.enable_creator_fee {
            CREATOR_FEE_RATE
        } else {
            0
        }
    }

    /// The creator fee rate in force.
    pub fn creator_fee_rate(&self) -> (r: u64)
        ensures
            r == self.creator_fee_rate_spec(),
    {
        if self.enable_creator_fee {
            CREATOR_FEE_RATE
        } else {
            0
        }
    }

    /// Outcome of buying with exactly `amount_in` on this market.
    pub open spec fn buy_exact_input_spec(&self, amount_in: int) -> Result<SwapResult, ErrorCode> {
        price_exact_input_spec(
            amount_in,
            self.total_input_token_amount as int,
            self.total_output_token_amount as int,
            TRADE_FEE_RATE as int,
            self.creator_fee_rate_spec() as int,
            PROTOCOL_FEE_RATE as int,
            FUND_FEE_RATE as int,
            self.is_creator_fee_on_input,
        )
    }

    /// Outcome of buying exactly `amount_out` on this market.
    pub open spec fn buy_exact_output_spec(&self, amount_out: int) -> Result<SwapResult, ErrorCode> {
        price_exact_output_spec(
            amount_out,
            self.total_input_token_amount as int,
            self.total_output_token_amount as int,
            TRADE_FEE_RATE as int,
            self.creator_fee_rate_spec() as int,
            PROTOCOL_FEE_RATE as int,
            FUND_FEE_RATE as int,
            self.is_creator_fee_on_input,
        )
    }

    /// Prices buying with exactly `amount_in` on this market, at its fees.
    pub fn buy_exact_input(&self, amount_in: u64) -> (r: Result<SwapResult, ErrorCode>)
        ensures
            r == self.buy_exact_input_spec(amount_in as int),
    {
        price_exact_input(
            amount_in,
            self.total_input_token_amount,
            self.total_output_token_amount,
            TRADE_FEE_RATE,
            self.creator_fee_rate(),
            PROTOCOL_FEE_RATE,
            FUND_FEE_RATE,
            self.is_creator_fee_on_input,
        )
    }

    /// Prices buying exactly `amount_out` on this market, at its fees.
    pub fn buy_exact_output(&self, amount_out: u64) -> (r: Result<SwapResult, ErrorCode>)
        ensures
            r == self.buy_exact_output_spec(amount_out as int),
    {
        price_exact_output(
            amount_out,
            self.total_input_token_amount,
            self.total_output_token_amount,
            TRADE_FEE_RATE,
            self.creator_fee_rate(),
            PROTOCOL_FEE_RATE,
            FUND_FEE_RATE,
            self.is_creator_fee_on_input,
        )
    }
}

/// Outcome of `price_exact_input`, over the pricing it performs.
pub open spec fn price_exact_input_spec(
    amount_in: int,
    reserve_in: int,
    reserve_out: int,
    trade_rate: int,
    creator_rate: int,
    protocol_rate: int,
    fund_rate: int,
    on_input: bool,
) -> Result<SwapResult, ErrorCode> {
    match swap_base_input_spec(
        amount_in,
        reserve_in,
        reserve_out,
        trade_rate,
        creator_rate,
        protocol_rate,
        fund_rate,
        on_input,
    ) {
        None => Err(ErrorCode::ZeroTradingTokens),
        Some(r) => if r.new_input_vault_amount * r.new_output_vault_amount > u128::MAX {
            Err(ErrorCode::MathOverflow)
        } else {
            Ok(r)
        },
    }
}

/// Outcome of `price_exact_output`, over the pricing it performs.
pub open spec fn price_exact_output_spec(
    amount_out: int,
    reserve_in: int,
    reserve_out: int,
    trade_rate: int,
    creator_rate: int,
    protocol_rate: int,
    fund_rate: int,
    on_input: bool,
) -> Result<SwapResult, ErrorCode> {
    match swap_base_output_spec(
        amount_out,
        reserve_in,
        reserve_out,
        trade_rate,
        creator_rate,
        protocol_rate,
        fund_rate,
        on_input,
    ) {
        None => Err(ErrorCode::ZeroTradingTokens),
        Some(r) => if r.new_input_vault_amount * r.new_output_vault_amount > u128::MAX {
            Err(ErrorCode::MathOverflow)
        } else {
            Ok(r)
        },
    }
}

/// Prices an exact-input trade of `amount_in` against reserves
/// `(reserve_in, reserve_out)` and checks it against the market invariant.
pub fn price_exact_input(
    amount_in: u64,
    reserve_in: u64,
    reserve_out: u64,
    trade_fee_rate: u64,
    creator_fee_rate: u64,
    protocol_fee_rate: u64,
    fund_fee_rate: u64,
    is_creator_fee_on_input: bool,
) -> (r: Result<SwapResult, ErrorCode>)
    ensures
        r == price_exact_input_spec(
            amount_in as int,
            reserve_in as int,
            reserve_out as int,
            trade_fee_rate as int,
            creator_fee_rate as int,
            protocol_fee_rate as int,
            fund_fee_rate as int,
            is_creator_fee_on_input,
        ),
        r matches Ok(s) ==> s.input_amount == amount_in && s.new_input_vault_amount
            * s.new_output_vault_amount >= reserve_in * reserve_out,
{
    let result = match CurveCalculator::swap_base_input(
        amount_in as u128,
        reserve_in as u128,
        reserve_out as u128,
        trade_fee_rate,
        creator_fee_rate,
        protocol_fee_rate,
        fund_fee_rate,
        is_creator_fee_on_input,
    ) {
        Some(result) => result,
        None => return Err(ErrorCode::ZeroTradingTokens),
    };
    proof {
        lemma_swap_base_input_keeps_product(
            amount_in as int,
            reserve_in as int,
            reserve_out as int,
            trade_fee_rate as int,
            creator_fee_rate as int,
            protocol_fee_rate as int,
            fund_fee_rate as int,
            is_creator_fee_on_input,
        );
    }
    proof {
        lemma_u64_product_fits(reserve_in, reserve_out);
    }
    let constant_before = (reserve_in as u128) * (reserve_out as u128);
    let constant_after = match result.new_input_vault_amount.checked_mul(
        result.new_output_vault_amount,
    ) {
        Some(c) => c,
        None => return Err(ErrorCode::MathOverflow),
    };
    if result.input_amount != amount_in as u128 {
        return Err(ErrorCode::RequireEqViolated);
    }
    if constant_after < constant_before {
        return Err(ErrorCode::RequireGteViolated);
    }
    Ok(result)
}

/// Prices the input needed to take exactly `amount_out` out of reserves
/// `(reserve_in, reserve_out)` and checks it against the market invariant.
pub fn price_exact_output(
    amount_out: u64,
    reserve_in: u64,
    reserve_out: u64,
    trade_fee_rate: u64,
    creator_fee_rate: u64,
    protocol_fee_rate: u64,
    fund_fee_rate: u64,
    is_creator_fee_on_input: bool,
) -> (r: Result<SwapResult, ErrorCode>)
    ensures
        r == price_exact_output_spec(
            amount_out as int,
            reserve_in as int,
            reserve_out as int,
            trade_fee_rate as int,
            creator_fee_rate as int,
            protocol_fee_rate as int,
            fund_fee_rate as int,
            is_creator_fee_on_input,
        ),
        r matches Ok(s) ==> s.output_amount == amount_out && s.new_input_vault_amount
            * s.new_output_vault_amount >= reserve_in * reserve_out,
{
    let result = match CurveCalculator::swap_base_output(
        amount_out as u128,
        reserve_in as u128,
        reserve_out as u128,
        trade_fee_rate,
        creator_fee_rate,
        protocol_fee_rate,
        fund_fee_rate,
        is_creator_fee_on_input,
    ) {
        Some(result) => result,
        None => return Err(ErrorCode::ZeroTradingTokens),
    };
    proof {
        lemma_swap_base_output_keeps_product(
            amount_out as int,
            reserve_in as int,
            reserve_out as int,
            trade_fee_rate as int,
            creator_fee_rate as int,
            protocol_fee_rate as int,
            fund_fee_rate as int,
            is_creator_fee_on_input,
        );
    }
    proof {
        lemma_u64_product_fits(reserve_in, reserve_out);
    }
    let constant_before = (reserve_in as u128) * (reserve_out as u128);
    let constant_after = match result.new_input_vault_amount.checked_mul(
        result.new_output_vault_amount,
    ) {
        Some(c) => c,
        None => return Err(ErrorCode::MathOverflow),
    };
    if result.output_amount != amount_out as u128 {
        return Err(ErrorCode::RequireEqViolated);
    }
    if constant_after < constant_before {
        return Err(ErrorCode::RequireGteViolated);
    }
    Ok(result)
}

proof fn lemma_u64_product_fits(a: u64, b: u64)
    ensures
        a * b <= u128::MAX,
{
    assert(a * b <= u64::MAX * u64::MAX) by (nonlinear_arith)
        requires
            a <= u64::MAX,
            b <= u64::MAX,
    ;
}

/// An exact-input trade never decreases the constant product of the
/// reserves it is priced against, and charges exactly the given input.
pub proof fn lemma_swap_base_input_keeps_product(
    input: int,
    x: int,
    y: int,
    trade_rate: int,
    creator_rate: int,
    protocol_rate: int,
    fund_rate: int,
    on_input: bool,
)
    requires
        input >= 0,
        0 <= x <= u128::MAX,
        0 <= y <= u128::MAX,
        trade_rate >= 0,
        creator_rate >= 0,
        input <= u128::MAX,
    ensures
        swap_base_input_spec(input, x, y, trade_rate, creator_rate, protocol_rate, fund_rate, on_input)
            matches Some(r) ==> r.new_input_vault_amount * r.new_output_vault_amount >= x * y
            && r.input_amount == input,
{
    if let Some(r) = swap_base_input_spec(
        input,
        x,
        y,
        trade_rate,
        creator_rate,
        protocol_rate,
        fund_rate,
        on_input,
    ) {
        let net = r.new_input_vault_amount - x;
        let q = swap_input_spec(net, x, y);
        lemma_swap_input_bounded(net, x, y);
        assert(r.new_output_vault_amount == y - q);
        assert((x + net) * (y - q) >= x * y) by (nonlinear_arith)
            requires
                net >= 0,
                x >= 0,
                y >= 0,
                x + net > 0,
                q == net * y / (x + net),
        ;
    }
}

/// An exact-output trade never decreases the constant product of the
/// reserves it is priced against, and hands out exactly the given output.
pub proof fn lemma_swap_base_output_keeps_product(
    output: int,
    x: int,
    y: int,
    trade_rate: int,
    creator_rate: int,
    protocol_rate: int,
    fund_rate: int,
    on_input: bool,
)
    requires
        output >= 0,
        0 <= x <= u128::MAX,
        0 <= y <= u128::MAX,
        output <= u128::MAX,
    ensures
        swap_base_output_spec(output, x, y, trade_rate, creator_rate, protocol_rate, fund_rate, on_input)
            matches Some(r) ==> r.new_input_vault_amount * r.new_output_vault_amount >= x * y
            && r.output_amount == output,
{
    if let Some(r) = swap_base_output_spec(
        output,
        x,
        y,
        trade_rate,
        creator_rate,
        protocol_rate,
        fund_rate,
        on_input,
    ) {
        let dy = y - r.new_output_vault_amount;
        let c = r.new_input_vault_amount - x;
        assert(c == swap_output_spec(dy, x, y));
        assert((x + c) * (y - dy) >= x * y) by (nonlinear_arith)
            requires
                0 <= dy < y,
                x >= 0,
                c == (x * dy + (y - dy) - 1) / (y - dy),
        ;
    }
}

/// One trade of a simulated sequence on a reserve pair.
#[derive(Clone, Copy, Debug, PartialEq, Eq, Structural)]
pub struct SimulatedTrade {
    /// Which reserve is paid in.
    pub direction: TradeDirection,
    /// Whether `amount` is the output (else the input) of the trade.
    pub exact_output: bool,
    /// The fixed side of the trade.
    pub amount: u64,
}

/// Reserves `(r0, r1)` after trade `t`, priced at the given fees; `None`
/// where the pricing fails.
pub open spec fn apply_trade_spec(
    r0: int,
    r1: int,
    t: SimulatedTrade,
    trade_rate: int,
    creator_rate: int,
    protocol_rate: int,
    fund_rate: int,
    on_input: bool,
) -> Option<(int, int)> {
    let zero_for_one = t.direction == TradeDirection::ZeroForOne;
    let x = if zero_for_one {
        r0
    } else {
        r1
    };
    let y = if zero_for_one {
        r1
    } else {
        r0
    };
    let priced = if t.exact_output {
        swap_base_output_spec(
            t.amount as int,
            x,
            y,
            trade_rate,
            creator_rate,
            protocol_rate,
            fund_rate,
            on_input,
        )
    } else {
        swap_base_input_spec(
            t.amount as int,
            x,
            y,
            trade_rate,
            creator_rate,
            protocol_rate,
            fund_rate,
            on_input,
        )
    };
    match priced {
        None => None,
        Some(r) => if zero_for_one {
            Some((r.new_input_vault_amount as int, r.new_output_vault_amount as int))
        } else {
            Some((r.new_output_vault_amount as int, r.new_input_vault_amount as int))
        },
    }
}

/// Reserves `(r0, r1)` after the trades of `trades` in order; `None` where a
/// pricing fails.
pub open spec fn simulate_trades_spec(
    r0: int,
    r1: int,
    trades: Seq<SimulatedTrade>,
    trade_rate: int,
    creator_rate: int,
    protocol_rate: int,
    fund_rate: int,
    on_input: bool,
) -> Option<(int, int)>
    decreases trades.len(),
{
    if trades.len() == 0 {
        Some((r0, r1))
    } else {
        match apply_trade_spec(
            r0,
            r1,
            trades[0],
            trade_rate,
            creator_rate,
            protocol_rate,
            fund_rate,
            on_input,
        ) {
            None => None,
            Some((a, b)) => simulate_trades_spec(
                a,
                b,
                trades.drop_first(),
                trade_rate,
                creator_rate,
                protocol_rate,
                fund_rate,
                on_input,
            ),
        }
    }
}

/// Across any sequence of priced trades, in either direction and either
/// mode, the constant product of a reserve pair never decreases.
pub proof fn lemma_simulated_trades_keep_product(
    r0: int,
    r1: int,
    trades: Seq<SimulatedTrade>,
    trade_rate: int,
    creator_rate: int,
    protocol_rate: int,
    fund_rate: int,
    on_input: bool,
)
    requires
        0 <= r0 <= u128::MAX,
        0 <= r1 <= u128::MAX,
        trade_rate >= 0,
        creator_rate >= 0,
    ensures
        simulate_trades_spec(
            r0,
            r1,
            trades,
            trade_rate,
            creator_rate,
            protocol_rate,
            fund_rate,
            on_input,
        ) matches Some((a, b)) ==> a * b >= r0 * r1,
    decreases trades.len(),
{
    if trades.len() > 0 {
        let t = trades[0];
        let zero_for_one = t.direction == TradeDirection::ZeroForOne;
        let x = if zero_for_one {
            r0
        } else {
            r1
        };
        let y = if zero_for_one {
            r1
        } else {
            r0
        };
        lemma_swap_base_input_keeps_product(
            t.amount as int,
            x,
            y,
            trade_rate,
            creator_rate,
            protocol_rate,
            fund_rate,
            on_input,
        );
        lemma_swap_base_output_keeps_product(
            t.amount as int,
            x,
            y,
            trade_rate,
            creator_rate,
            protocol_rate,
            fund_rate,
            on_input,
        );
        if let Some((a, b)) = apply_trade_spec(
            r0,
            r1,
            t,
            trade_rate,
            creator_rate,
            protocol_rate,
            fund_rate,
            on_input,
        ) {
            assert(a * b >= r0 * r1) by (nonlinear_arith)
                requires
                    x * y == r0 * r1,
                    zero_for_one ==> a * b >= x * y,
                    !zero_for_one ==> b * a >= x * y,
            ;
            lemma_simulated_trades_keep_product(
                a,
                b,
                trades.drop_first(),
                trade_rate,
                creator_rate,
                protocol_rate,
                fund_rate,
                on_input,
            );
            if let Some((c, d)) = simulate_trades_spec(
                a,
                b,
                trades.drop_first(),
                trade_rate,
                creator_rate,
                protocol_rate,
                fund_rate,
                on_input,
            ) {
                assert(c * d >= r0 * r1);
            }
        }
    }
}

proof fn lemma_ceil_times_ge(n: int, d: int)
    requires
        n >= 0,
        d > 0,
    ensures
        ((n + d - 1) / d) * d >= n,
{
    assert(((n + d - 1) / d) * d >= n) by (nonlinear_arith)
        requires
            n >= 0,
            d > 0,
    ;
}

proof fn lemma_ceil_le(n: int, d: int, q: int)
    requires
        n >= 0,
        d > 0,
        n <= q * d,
    ensures
        (n + d - 1) / d <= q,
{
    assert((n + d - 1) / d <= q) by (nonlinear_arith)
        requires
            n >= 0,
            d > 0,
            n <= q * d,
    ;
}

proof fn lemma_floor_times_le(n: int, d: int)
    requires
        n >= 0,
        d > 0,
    ensures
        (n / d) * d <= n,
{
    assert((n / d) * d <= n) by (nonlinear_arith)
        requires
            n >= 0,
            d > 0,
    ;
}

/// Grossing `inner` up by `rate` stays within `outer` when `inner * D <=
/// outer * (D - rate)`.
proof fn lemma_pre_fee_within(inner: int, outer: int, rate: int)
    requires
        inner >= 0,
        outer >= 0,
        rate >= 0,
        inner * (FEE_RATE_DENOMINATOR_VALUE as int) <= outer * (FEE_RATE_DENOMINATOR_VALUE
            - rate),
    ensures
        pre_fee_amount_spec(inner, rate) matches Some(v) ==> v <= outer,
{
    let d = FEE_RATE_DENOMINATOR_VALUE as int;
    if rate == 0 {
        assert(inner <= outer) by (nonlinear_arith)
            requires
                inner * d <= outer * d,
                d > 0,
        ;
    } else if rate < d {
        lemma_ceil_le(inner * d, d - rate, outer);
    }
}

/// Buying with `a` and then asking to buy exactly what that gave, on the
/// same reserves and at the same fees, never asks for more than `a`.
pub proof fn lemma_round_trip_never_asks_more(
    a: int,
    x: int,
    y: int,
    trade_rate: int,
    creator_rate: int,
    protocol_rate: int,
    fund_rate: int,
    on_input: bool,
)
    requires
        0 <= a <= u128::MAX,
        0 <= x <= u128::MAX,
        0 <= y <= u128::MAX,
        trade_rate >= 0,
        creator_rate >= 0,
    ensures
        swap_base_input_spec(a, x, y, trade_rate, creator_rate, protocol_rate, fund_rate, on_input)
            matches Some(r) ==> (swap_base_output_spec(
            r.output_amount as int,
            x,
            y,
            trade_rate,
            creator_rate,
            protocol_rate,
            fund_rate,
            on_input,
        ) matches Some(r2) ==> r2.input_amount <= a),
{
    let d = FEE_RATE_DENOMINATOR_VALUE as int;
    if let Some(r) = swap_base_input_spec(
        a,
        x,
        y,
        trade_rate,
        creator_rate,
        protocol_rate,
        fund_rate,
        on_input,
    ) {
        if let Some(r2) = swap_base_output_spec(
            r.output_amount as int,
            x,
            y,
            trade_rate,
            creator_rate,
            protocol_rate,
            fund_rate,
            on_input,
        ) {
            let tf = (a * trade_rate + d - 1) / d;
            let icf = if on_input {
                (a * creator_rate + d - 1) / d
            } else {
                0
            };
            let net = a - tf - icf;
            let swapped = net * y / (x + net);
            let o = r.output_amount as int;
            lemma_swap_input_bounded(net, x, y);
            assert(r.new_input_vault_amount == x + net);
            // The net traded is at most `a` less the fee rates.
            lemma_ceil_times_ge(a * trade_rate, d);
            let rate = if on_input {
                trade_rate + creator_rate
            } else {
                trade_rate
            };
            if on_input {
                lemma_ceil_times_ge(a * creator_rate, d);
                assert(net * d <= a * (d - rate)) by (nonlinear_arith)
                    requires
                        net == a - tf - icf,
                        tf * d >= a * trade_rate,
                        icf * d >= a * creator_rate,
                        rate == trade_rate + creator_rate,
                ;
            } else {
                assert(net * d <= a * (d - rate)) by (nonlinear_arith)
                    requires
                        net == a - tf,
                        tf * d >= a * trade_rate,
                        rate == trade_rate,
                ;
            }
            // The curve gave `swapped` for `net`.
            lemma_floor_times_le(net * y, x + net);
            assert(x * swapped <= net * (y - swapped)) by (nonlinear_arith)
                requires
                    swapped * (x + net) <= net * y,
            ;
            // What the reverse trade must take out is at most `swapped`.
            let actual = if on_input {
                o
            } else {
                pre_fee_amount_spec(o, creator_rate)->0
            };
            if on_input {
                assert(o == swapped);
            } else {
                let ocf = (swapped * creator_rate + d - 1) / d;
                lemma_ceil_times_ge(swapped * creator_rate, d);
                assert(o == swapped - ocf);
                assert(o * d <= swapped * (d - creator_rate)) by (nonlinear_arith)
                    requires
                        o == swapped - ocf,
                        ocf * d >= swapped * creator_rate,
                ;
                lemma_pre_fee_within(o, swapped, creator_rate);
            }
            assert(actual <= swapped);
            assert(actual < y);
            // The fee-free input of the reverse trade is at most `net`.
            let back = swap_output_spec(actual, x, y);
            assert(x * actual <= net * (y - actual)) by (nonlinear_arith)
                requires
                    0 <= actual <= swapped,
                    x >= 0,
                    net >= 0,
                    x * swapped <= net * (y - swapped),
            ;
            lemma_ceil_le(x * actual, y - actual, net);
            assert(back <= net);
            assert(back * d <= a * (d - rate)) by (nonlinear_arith)
                requires
                    0 <= back <= net,
                    d > 0,
                    net * d <= a * (d - rate),
            ;
            lemma_swap_output_nonneg(actual, x, y);
            lemma_pre_fee_within(back, a, rate);
        }
    }
}

/// Without fees, where the curve divides exactly (`a * y` a multiple of
/// `x + a`), buying with `a` and then asking to buy exactly what that gave
/// asks for exactly `a`.
pub proof fn lemma_round_trip_exact_without_fees(
    a: int,
    x: int,
    y: int,
    protocol_rate: int,
    fund_rate: int,
    on_input: bool,
)
    requires
        0 <= a <= u128::MAX,
        0 <= x <= u128::MAX,
        0 <= y <= u128::MAX,
        x + a > 0,
        (a * y) % (x + a) == 0,
    ensures
        swap_base_input_spec(a, x, y, 0, 0, protocol_rate, fund_rate, on_input) matches Some(r)
            ==> (swap_base_output_spec(
            r.output_amount as int,
            x,
            y,
            0,
            0,
            protocol_rate,
            fund_rate,
            on_input,
        ) matches Some(r2) ==> r2.input_amount == a),
{
    let d = FEE_RATE_DENOMINATOR_VALUE as int;
    if let Some(r) = swap_base_input_spec(a, x, y, 0, 0, protocol_rate, fund_rate, on_input) {
        if let Some(r2) = swap_base_output_spec(
            r.output_amount as int,
            x,
            y,
            0,
            0,
            protocol_rate,
            fund_rate,
            on_input,
        ) {
            assert((a * 0 + d - 1) / d == 0);
            let s = a * y / (x + a);
            lemma_swap_input_bounded(a, x, y);
            assert((s * 0 + d - 1) / d == 0);
            assert(r.output_amount == s);
            assert(s * (x + a) == a * y) by (nonlinear_arith)
                requires
                    s == a * y / (x + a),
                    (a * y) % (x + a) == 0,
                    x + a > 0,
            ;
            assert(x * s == a * (y - s)) by (nonlinear_arith)
                requires
                    s * (x + a) == a * y,
            ;
            assert(s < y);
            assert((x * s + (y - s) - 1) / (y - s) == a) by (nonlinear_arith)
                requires
                    x * s == a * (y - s),
                    y - s > 0,
            ;
        }
    }
}

} // verus!
