//! The two-phase buyback: a request sets aside the reserve-asset rewards
//! not yet spent, and a settlement trades what came back for tokens and
//! shares them out through the token index.
use vstd::prelude::*;

use crate::error::ErrorCode;
use crate::fees::FEE_RATE_DENOMINATOR_VALUE;
use crate::pricer::MarketState;
use crate::rewards::{index_increment_spec, observe_sol_spec};
use crate::states::{GlobalConfig, StakeInfo};
use crate::PRECISION;

verus! {

/// Outcome of a buyback request: the new aggregate state and the amount of
/// pooled stake to split off and deactivate.
///
/// Fails when a buyback is already pending, when observing `stake_balance`
/// fails, or when the balance cannot cover the split.
pub open spec fn request_buyback_spec(s: StakeInfo, stake_balance: int, now: u64) -> Result<
    (StakeInfo, u64),
    ErrorCode,
> {
    if s.buyback_requested {
        Err(ErrorCode::BuybackAlreadyRequested)
    } else {
        match observe_sol_spec(s, stake_balance) {
            None => Err(ErrorCode::MathOverflow),
            Some(o) => {
                let available = o.total_sol_rewards_accrued - o.total_sol_used_for_buyback;
                if stake_balance < available {
                    Err(ErrorCode::InsufficientVault)
                } else {
                    Ok(
                        (
                            StakeInfo {
                                last_tracked_sol_balance: (stake_balance - available) as u64,
                                buyback_requested: true,
                                last_update_timestamp: now,
                                ..o
                            },
                            available as u64,
                        ),
                    )
                }
            },
        }
    }
}

/// What a settled buyback moves.
#[derive(Clone, Copy, Debug, PartialEq, Eq, Structural)]
pub struct BuybackSettlement {
    /// Reserve asset withdrawn from the split-off stake.
    pub sol_withdrawn: u64,
    /// Part of it sent to the treasury.
    pub fee_treasury: u64,
    /// Part of it traded on the market.
    pub amount_in: u64,
    /// Tokens bought, sent to the reward vault.
    pub lxr_bought: u64,
}

/// Treasury fee of a buyback of `withdrawn`: `withdrawn * rate / D`.
pub open spec fn treasury_fee_spec(withdrawn: int, rate: int) -> int {
    withdrawn * rate / (FEE_RATE_DENOMINATOR_VALUE as int)
}

/// Outcome of settling a buyback with `withdrawn` reserve asset recovered from
/// the split-off stake, against `market`.
///
/// The treasury fee must be positive and leave a positive amount to trade;
/// the trade is priced and checked by `MarketState::buy_exact_input`; the
/// tokens bought raise the token index by `lxr * PRECISION / total_staked`.
/// The rewards spent may not pass the rewards observed.
pub open spec fn settle_buyback_spec(
    config: GlobalConfig,
    s: StakeInfo,
    withdrawn: int,
    market: MarketState,
    now: u64,
) -> Result<(StakeInfo, BuybackSettlement), ErrorCode> {
    let fee = treasury_fee_spec(withdrawn, config.fee_treasury_rate as int);
    if !s.buyback_requested {
        Err(ErrorCode::NoBuybackRequested)
    } else if fee > withdrawn {
        Err(ErrorCode::MathOverflow)
    } else if fee == 0 {
        Err(ErrorCode::ZeroTradingTokens)
    } else if withdrawn - fee == 0 {
        Err(ErrorCode::RequireGtViolated)
    } else {
        let amount_in = withdrawn - fee;
        match market.buy_exact_input_spec(amount_in) {
            Err(e) => Err(e),
            Ok(trade) => {
                let lxr = trade.output_amount as int;
                let used = s.total_sol_used_for_buyback + amount_in;
                let index = s.reward_per_token_lxr_stored + index_increment_spec(
                    lxr,
                    s.total_staked_sol as int,
                );
                if lxr > u64::MAX || s.total_luxor_rewards_accrued + lxr > u64::MAX {
                    Err(ErrorCode::MathOverflow)
                } else if used > s.total_sol_rewards_accrued {
                    Err(ErrorCode::InsufficientVault)
                } else if s.total_staked_sol == 0 || index > u128::MAX || s.buyback_count
                    == u64::MAX {
                    Err(ErrorCode::MathOverflow)
                } else {
                    Ok(
                        (
                            StakeInfo {
                                total_luxor_rewards_accrued: (s.total_luxor_rewards_accrued
                                    + lxr) as u64,
                                total_sol_used_for_buyback: used as u64,
                                last_buyback_timestamp: now,
                                reward_per_token_lxr_stored: index as u128,
                                buyback_requested: false,
                                buyback_count: (s.buyback_count + 1) as u64,
                                ..s
                            },
                            BuybackSettlement {
                                sol_withdrawn: withdrawn as u64,
                                fee_treasury: fee as u64,
                                amount_in: amount_in as u64,
                                lxr_bought: lxr as u64,
                            },
                        ),
                    )
                }
            },
        }
    }
}

/// Requests a buyback: observes new rewards on the pooled stake (whose
/// balance is `stake_balance`), marks a buyback pending, and returns the
/// rewards not yet spent, which the caller splits off the pooled stake and
/// deactivates. On error nothing changes.
pub fn request_buyback(stake_info: &mut StakeInfo, stake_balance: u64, now: u64) -> (r: Result<
    u64,
    ErrorCode,
>)
    requires
        old(stake_info).wf(),
    ensures
        final(stake_info).wf(),
        match request_buyback_spec(*old(stake_info), stake_balance as int, now) {
            Ok((s, amount)) => *final(stake_info) == s && r == Ok::<u64, ErrorCode>(amount),
            Err(e) => *final(stake_info) == *old(stake_info) && r == Err::<u64, ErrorCode>(e),
        },
{
    if stake_info.buyback_requested {
        return Err(ErrorCode::BuybackAlreadyRequested);
    }
    let mut observed = *stake_info;
    observed.observe_sol_rewards(stake_balance)?;
    let available = observed.total_sol_rewards_accrued - observed.total_sol_used_for_buyback;
    if stake_balance < available {
        return Err(ErrorCode::InsufficientVault);
    }
    observed.last_tracked_sol_balance = stake_balance - available;
    observed.buyback_requested = true;
    observed.last_update_timestamp = now;
    *stake_info = observed;
    Ok(available)
}

/// Settles a pending buyback with `sol_withdrawn` recovered from the
/// split-off stake: takes the treasury fee, prices the purchase of tokens
/// with the rest on `market`, and credits the tokens to the token index.
/// The caller executes the trade and the two transfers that the result
/// names. On error nothing changes.
pub fn settle_buyback(
    config: &GlobalConfig,
    stake_info: &mut StakeInfo,
    sol_withdrawn: u64,
    market: &MarketState,
    now: u64,
) -> (r: Result<BuybackSettlement, ErrorCode>)
    requires
        old(stake_info).wf(),
    ensures
        final(stake_info).wf(),
        match settle_buyback_spec(*config, *old(stake_info), sol_withdrawn as int, *market, now) {
            Ok((s, b)) => *final(stake_info) == s && r == Ok::<BuybackSettlement, ErrorCode>(b),
            Err(e) => *final(stake_info) == *old(stake_info) && r == Err::<
                BuybackSettlement,
                ErrorCode,
            >(e),
        },
{
    if !stake_info.buyback_requested {
        return Err(ErrorCode::NoBuybackRequested);
    }
    proof {
        lemma_fee_fits(sol_withdrawn as int, config.fee_treasury_rate as int);
    }
    let fee = (sol_withdrawn as u128) * (config.fee_treasury_rate as u128) / (
    FEE_RATE_DENOMINATOR_VALUE as u128);
    if fee > sol_withdrawn as u128 {
        return Err(ErrorCode::MathOverflow);
    }
    let fee_treasury = fee as u64;
    if fee_treasury == 0 {
        return Err(ErrorCode::ZeroTradingTokens);
    }
    let amount_in = sol_withdrawn - fee_treasury;
    if amount_in == 0 {
        return Err(ErrorCode::RequireGtViolated);
    }
    let trade = market.buy_exact_input(amount_in)?;
    if trade.output_amount > u64::MAX as u128 {
        return Err(ErrorCode::MathOverflow);
    }
    let lxr_bought = trade.output_amount as u64;
    let lxr_accrued = match stake_info.total_luxor_rewards_accrued.checked_add(lxr_bought) {
        Some(v) => v,
        None => return Err(ErrorCode::MathOverflow),
    };
    if amount_in > stake_info.total_sol_rewards_accrued - stake_info.total_sol_used_for_buyback {
        return Err(ErrorCode::InsufficientVault);
    }
    let used = stake_info.total_sol_used_for_buyback + amount_in;
    if stake_info.total_staked_sol == 0 {
        return Err(ErrorCode::MathOverflow);
    }
    let increment = (lxr_bought as u128) * PRECISION / (stake_info.total_staked_sol as u128);
    let index = match stake_info.reward_per_token_lxr_stored.checked_add(increment) {
        Some(v) => v,
        None => return Err(ErrorCode::MathOverflow),
    };
    let count = match stake_info.buyback_count.checked_add(1) {
        Some(v) => v,
        None => return Err(ErrorCode::MathOverflow),
    };
    stake_info.total_luxor_rewards_accrued = lxr_accrued;
    stake_info.total_sol_used_for_buyback = used;
    stake_info.last_buyback_timestamp = now;
    stake_info.reward_per_token_lxr_stored = index;
    stake_info.buyback_requested = false;
    stake_info.buyback_count = count;
    Ok(BuybackSettlement { sol_withdrawn, fee_treasury, amount_in, lxr_bought })
}

proof fn lemma_fee_fits(withdrawn: int, rate: int)
    requires
        0 <= withdrawn <= u64::MAX,
        0 <= rate <= u64::MAX,
    ensures
        withdrawn * rate <= u128::MAX,
        withdrawn * rate / (FEE_RATE_DENOMINATOR_VALUE as int) >= 0,
{
    assert(withdrawn * rate <= u64::MAX * u64::MAX) by (nonlinear_arith)
        requires
            0 <= withdrawn <= u64::MAX,
            0 <= rate <= u64::MAX,
    ;
    assert(withdrawn * rate >= 0) by (nonlinear_arith)
        requires
            0 <= withdrawn,
            0 <= rate,
    ;
}

} // verus!
