use luxor_swap::calculator::{map_zero_to_none, CurveCalculator, RoundDirection, TradeDirection};
use luxor_swap::constant_product::ConstantProductCurve;
use luxor_swap::error::ErrorCode;
use luxor_swap::fees::Fees;
use luxor_swap::pricer::{price_exact_input, price_exact_output, MarketState};

#[test]
fn trading_fee_rounds_up() {
    assert_eq!(Fees::trading_fee(1000, 2500), Some(3));
    assert_eq!(Fees::trading_fee(0, 2500), Some(0));
    assert_eq!(Fees::trading_fee(u128::MAX, 2), None);
}

#[test]
fn protocol_and_fund_fees_round_down() {
    assert_eq!(Fees::protocol_fee(400, 120000), Some(48));
    assert_eq!(Fees::fund_fee(26, 40000), Some(1));
    assert_eq!(Fees::protocol_fee(u128::MAX, 2), None);
}

#[test]
fn creator_fee_rounds_up() {
    assert_eq!(Fees::creator_fee(9876, 500), Some(5));
}

#[test]
fn split_creator_fee_by_rates() {
    assert_eq!(Fees::split_creator_fee(26, 2500, 500), Some(4));
    assert_eq!(Fees::split_creator_fee(26, 0, 0), None);
    assert_eq!(Fees::split_creator_fee(26, u64::MAX, 1), None);
}

#[test]
fn pre_fee_amount_inverts_fee() {
    assert_eq!(Fees::calculate_pre_fee_amount(997500, 2500), Some(1000000));
    assert_eq!(Fees::calculate_pre_fee_amount(10102, 2500), Some(10128));
    assert_eq!(Fees::calculate_pre_fee_amount(77, 0), Some(77));
    assert_eq!(Fees::calculate_pre_fee_amount(5, 1_000_000), None);
    assert_eq!(Fees::calculate_pre_fee_amount(5, 2_000_000), None);
}

#[test]
fn curve_exact_input_floors() {
    assert_eq!(ConstantProductCurve::swap_base_input_without_fees(2_000_000, 1_000_000, 10), 6);
    assert_eq!(ConstantProductCurve::swap_base_input_without_fees(10_000, 1_000_000, 1_000_000), 9900);
}

#[test]
fn curve_exact_output_ceils() {
    assert_eq!(ConstantProductCurve::swap_base_output_without_fees(10_000, 1_000_000, 1_000_000), 10102);
    assert_eq!(ConstantProductCurve::swap_base_output_without_fees(500_000, 1_000_000, 1_000_000), 1_000_000);
}

#[test]
fn lp_conversion_floor_and_ceiling() {
    let floor = ConstantProductCurve::lp_tokens_to_trading_tokens(10, 30, 100, 50, RoundDirection::Floor).unwrap();
    assert_eq!((floor.token_0_amount, floor.token_1_amount), (33, 16));
    let ceil = ConstantProductCurve::lp_tokens_to_trading_tokens(10, 30, 100, 50, RoundDirection::Ceiling).unwrap();
    assert_eq!((ceil.token_0_amount, ceil.token_1_amount), (34, 17));
    // A dust share worth less than one unit is not rounded up.
    let dust = CurveCalculator::lp_tokens_to_trading_tokens(1, 1000, 5, 999, RoundDirection::Ceiling).unwrap();
    assert_eq!((dust.token_0_amount, dust.token_1_amount), (0, 0));
    assert!(ConstantProductCurve::lp_tokens_to_trading_tokens(1, 0, 5, 5, RoundDirection::Floor).is_none());
    assert!(ConstantProductCurve::lp_tokens_to_trading_tokens(u128::MAX, 1, 2, 5, RoundDirection::Floor).is_none());
}

#[test]
fn validate_supply_rejects_empty_reserve() {
    assert_eq!(CurveCalculator::validate_supply(0, 5), Err(ErrorCode::EmptySupply));
    assert_eq!(CurveCalculator::validate_supply(5, 0), Err(ErrorCode::EmptySupply));
    assert_eq!(CurveCalculator::validate_supply(5, 5), Ok(()));
}

#[test]
fn map_zero_and_opposite() {
    assert_eq!(map_zero_to_none(0), None);
    assert_eq!(map_zero_to_none(7), Some(7));
    assert_eq!(TradeDirection::ZeroForOne.opposite(), TradeDirection::OneForZero);
    assert_eq!(TradeDirection::OneForZero.opposite(), TradeDirection::ZeroForOne);
}

#[test]
fn swap_base_input_creator_fee_on_output() {
    let r = CurveCalculator::swap_base_input(10_000, 1_000_000, 1_000_000, 2500, 500, 120000, 40000, false).unwrap();
    assert_eq!(r.input_amount, 10_000);
    assert_eq!(r.output_amount, 9871);
    assert_eq!(r.trade_fee, 25);
    assert_eq!(r.protocol_fee, 3);
    assert_eq!(r.fund_fee, 1);
    assert_eq!(r.creator_fee, 5);
    assert_eq!(r.new_input_vault_amount, 1_009_975);
    assert_eq!(r.new_output_vault_amount, 990_124);
}

#[test]
fn swap_base_input_creator_fee_on_input() {
    let r = CurveCalculator::swap_base_input(10_000, 1_000_000, 1_000_000, 2500, 500, 120000, 40000, true).unwrap();
    assert_eq!(r.output_amount, 9871);
    assert_eq!(r.creator_fee, 5);
    assert_eq!(r.new_input_vault_amount, 1_009_970);
    assert_eq!(r.new_output_vault_amount, 990_129);
}

#[test]
fn swap_base_output_creator_fee_on_output() {
    let r = CurveCalculator::swap_base_output(10_000, 1_000_000, 1_000_000, 2500, 500, 120000, 40000, false).unwrap();
    assert_eq!(r.input_amount, 10_134);
    assert_eq!(r.output_amount, 10_000);
    assert_eq!(r.trade_fee, 26);
    assert_eq!(r.creator_fee, 6);
    assert_eq!(r.new_input_vault_amount, 1_010_108);
    assert_eq!(r.new_output_vault_amount, 989_994);
}

#[test]
fn swap_base_output_creator_fee_on_input() {
    let r = CurveCalculator::swap_base_output(10_000, 1_000_000, 1_000_000, 2500, 500, 120000, 40000, true).unwrap();
    assert_eq!(r.input_amount, 10_133);
    assert_eq!(r.trade_fee, 26);
    assert_eq!(r.creator_fee, 5);
    assert_eq!(r.new_input_vault_amount, 1_010_102);
    assert_eq!(r.new_output_vault_amount, 990_000);
}

#[test]
fn swap_base_output_whole_reserve_fails() {
    assert!(CurveCalculator::swap_base_output(1_000_000, 1_000_000, 1_000_000, 2500, 0, 0, 0, true).is_none());
    assert!(CurveCalculator::swap_base_input(0, 0, 1_000_000, 2500, 0, 0, 0, true).is_none());
}

#[test]
fn exact_output_scenario_keeps_product_and_output() {
    let r = price_exact_output(10_000, 1_000_000, 1_000_000, 2500, 0, 120000, 40000, false).unwrap();
    // ceil(1e6 * 1e4 / 990000) = 10102, grossed up by the trade fee rate.
    assert_eq!(r.input_amount, 10_128);
    assert_eq!(r.output_amount, 10_000);
    assert_eq!(r.trade_fee, 26);
    assert_eq!(r.protocol_fee, 3);
    assert_eq!(r.fund_fee, 1);
    assert_eq!(r.new_input_vault_amount, 1_010_102);
    assert_eq!(r.new_output_vault_amount, 990_000);
    assert!(r.new_input_vault_amount * r.new_output_vault_amount >= 1_000_000u128 * 1_000_000u128);
}

#[test]
fn exact_input_then_exact_output_round_trip() {
    let there = price_exact_input(50_000, 2_000_000, 3_000_000, 2500, 500, 120000, 40000, false).unwrap();
    assert_eq!(there.output_amount, 72_955);
    let back = price_exact_output(72_955, 2_000_000, 3_000_000, 2500, 500, 120000, 40000, false).unwrap();
    assert_eq!(back.input_amount, 50_000);
    let no_fee = price_exact_input(1_000, 1_000, 2_000, 0, 0, 0, 0, false).unwrap();
    assert_eq!(no_fee.output_amount, 1_000);
    let no_fee_back = price_exact_output(1_000, 1_000, 2_000, 0, 0, 0, 0, false).unwrap();
    assert_eq!(no_fee_back.input_amount, 1_000);
    // Splitting a combined fee by two zero rates divides by zero.
    assert_eq!(price_exact_output(1_000, 1_000, 2_000, 0, 0, 0, 0, true), Err(ErrorCode::ZeroTradingTokens));
}

#[test]
fn repeated_trades_never_lower_the_product() {
    let (mut r0, mut r1) = (1_000_000u64, 1_000_000u64);
    let mut product = (r0 as u128) * (r1 as u128);
    for step in 0..20u64 {
        let amount = 1_000 + step * 777;
        let zero_for_one = step % 2 == 0;
        let (x, y) = if zero_for_one { (r0, r1) } else { (r1, r0) };
        let res = if step % 3 == 0 {
            price_exact_output(amount, x, y, 2500, 500, 120000, 40000, step % 4 == 0)
        } else {
            price_exact_input(amount, x, y, 2500, 500, 120000, 40000, step % 4 == 0)
        }
        .unwrap();
        let (nx, ny) = (res.new_input_vault_amount as u64, res.new_output_vault_amount as u64);
        if zero_for_one {
            r0 = nx;
            r1 = ny;
        } else {
            r1 = nx;
            r0 = ny;
        }
        let next = (r0 as u128) * (r1 as u128);
        assert!(next >= product);
        product = next;
    }
}

#[test]
fn pricing_failure_is_zero_trading_tokens() {
    assert_eq!(price_exact_output(10, 5, 10, 2500, 0, 0, 0, true), Err(ErrorCode::ZeroTradingTokens));
    assert_eq!(price_exact_input(10, 0, 0, 2_000_000, 0, 0, 0, true), Err(ErrorCode::ZeroTradingTokens));
}

#[test]
fn market_creator_fee_switch() {
    let on = MarketState { total_input_token_amount: 1_000_000, total_output_token_amount: 1_000_000, enable_creator_fee: true, is_creator_fee_on_input: false };
    let off = MarketState { enable_creator_fee: false, ..on };
    assert_eq!(on.creator_fee_rate(), 500);
    assert_eq!(off.creator_fee_rate(), 0);
    assert_eq!(on.buy_exact_output(10_000).unwrap().input_amount, 10_134);
    assert_eq!(off.buy_exact_output(10_000).unwrap().input_amount, 10_128);
    assert_eq!(on.buy_exact_input(10_000).unwrap().output_amount, 9871);
}

#[test]
fn error_messages() {
    assert_eq!(ErrorCode::BuybackAlreadyRequested.message(), "Buyback has already been requested");
    assert_eq!(ErrorCode::NoRewardsToClaim.message(), "No rewards available to claim");
}
