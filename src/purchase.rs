//! Buying tokens at the curve price, adjusted by the bonus and inventory
//! policy, while staking the reserve asset paid.
use vstd::prelude::*;

use crate::error::ErrorCode;
use crate::fees::FEE_RATE_DENOMINATOR_VALUE;
use crate::pricer::MarketState;
use crate::rewards::{accrue_lxr_spec, observe_sol_spec};
use crate::states::{is_default_key, is_default_key_spec, GlobalConfig, Pubkey, StakeInfo, UserStakeInfo};

verus! {

/// Price of a purchase whose curve price is `required`, when `stake_count`
/// purchases were made before it.
///
/// While `stake_count + 1 <= max_stake_count_to_get_bonus` the price is
/// discounted by `bonus_rate / D`; afterwards it is scaled by
/// `treasury_balance / initial_lxr_allocation_vault`. `None` on overflow,
/// on a discount above the price, or on a zero initial allocation.
pub open spec fn purchase_price_spec(
    required: int,
    stake_count: int,
    config: GlobalConfig,
    treasury_balance: int,
) -> Option<int> {
    if stake_count + 1 <= config.max_stake_count_to_get_bonus {
        let discount = required * config.bonus_rate / (FEE_RATE_DENOMINATOR_VALUE as int);
        if required * config.bonus_rate > u64::MAX || discount > required {
            None
        } else {
            Some(required - discount)
        }
    } else {
        if config.initial_lxr_allocation_vault == 0 {
            None
        } else {
            let scaled = required * treasury_balance / (config.initial_lxr_allocation_vault as int);
            if scaled > u64::MAX {
                None
            } else {
                Some(scaled)
            }
        }
    }
}

/// Applies the bonus or inventory scaling to a curve price of `required`.
pub fn apply_purchase_policy(
    required: u64,
    total_stake_count: u64,
    config: &GlobalConfig,
    treasury_lxr_balance: u64,
) -> (r: Option<u64>)
    ensures
        opt_u64(r) == purchase_price_spec(
            required as int,
            total_stake_count as int,
            *config,
            treasury_lxr_balance as int,
        ),
{
    if total_stake_count < config.max_stake_count_to_get_bonus {
        let product = required.checked_mul(config.bonus_rate)?;
        let discount = product / FEE_RATE_DENOMINATOR_VALUE;
        required.checked_sub(discount)
    } else {
        if config.initial_lxr_allocation_vault == 0 {
            return None;
        }
        proof {
            lemma_u64_product(required, treasury_lxr_balance);
        }
        let scaled = (required as u128) * (treasury_lxr_balance as u128) / (
        config.initial_lxr_allocation_vault as u128);
        if scaled > u64::MAX as u128 {
            return None;
        }
        Some(scaled as u64)
    }
}

/// Lifts an optional `u64` to an optional integer.
pub open spec fn opt_u64(r: Option<u64>) -> Option<int> {
    match r {
        Some(v) => Some(v as int),
        None => None,
    }
}

/// What a purchase moves: `sol_amount` from the buyer to the pooled stake,
/// `lxr_amount` from the treasury to the buyer.
#[derive(Clone, Copy, Debug, PartialEq, Eq, Structural)]
pub struct PurchaseReceipt {
    /// Reserve asset paid and staked.
    pub sol_amount: u64,
    /// Tokens bought.
    pub lxr_amount: u64,
}

/// A principal's record when it takes part in a purchase under a global
/// token index of `global_index`: a record without owner is opened for
/// `owner` with its checkpoint at the index; an opened record has its
/// rewards so far settled into its pending balance.
pub open spec fn open_or_accrue_spec(u: UserStakeInfo, owner: Pubkey, global_index: int) -> Option<
    UserStakeInfo,
> {
    if is_default_key_spec(u.owner) {
        Some(UserStakeInfo { owner, lxr_reward_per_token_completed: global_index as u128, ..u })
    } else {
        accrue_lxr_spec(u, global_index)
    }
}

/// Outcome of buying exactly `lxr` tokens for at most `max_sol`.
pub open spec fn purchase_spec(
    config: GlobalConfig,
    s: StakeInfo,
    u: UserStakeInfo,
    owner: Pubkey,
    lxr: int,
    max_sol: int,
    market: MarketState,
    treasury_balance: int,
    stake_balance: int,
    now: u64,
) -> Result<(StakeInfo, UserStakeInfo, PurchaseReceipt), ErrorCode> {
    if !config.purchase_enabled {
        Err(ErrorCode::PurchaseDisabled)
    } else if lxr == 0 {
        Err(ErrorCode::RequireGtViolated)
    } else {
        match market.buy_exact_output_spec(lxr) {
            Err(e) => Err(e),
            Ok(trade) => if trade.input_amount > u64::MAX {
                Err(ErrorCode::MathOverflow)
            } else {
                match purchase_price_spec(
                    trade.input_amount as int,
                    s.total_stake_count as int,
                    config,
                    treasury_balance,
                ) {
                    None => Err(ErrorCode::MathOverflow),
                    Some(sol) => if max_sol < sol {
                        Err(ErrorCode::ExceededSlippage)
                    } else {
                        match observe_sol_spec(s, stake_balance) {
                            None => Err(ErrorCode::MathOverflow),
                            Some(o) => match open_or_accrue_spec(
                                u,
                                owner,
                                s.reward_per_token_lxr_stored as int,
                            ) {
                                None => Err(ErrorCode::MathOverflow),
                                Some(u1) => if o.total_staked_sol + sol > u64::MAX
                                    || o.total_stake_count + 1 > u64::MAX || stake_balance + sol
                                    > u64::MAX || u1.total_staked_sol + sol > u64::MAX
                                    || u1.base_lxr_holdings + lxr > u64::MAX {
                                    Err(ErrorCode::MathOverflow)
                                } else {
                                    Ok(
                                        (
                                            StakeInfo {
                                                total_staked_sol: (o.total_staked_sol + sol) as u64,
                                                total_stake_count: (o.total_stake_count
                                                    + 1) as u64,
                                                last_tracked_sol_balance: (stake_balance
                                                    + sol) as u64,
                                                last_update_timestamp: now,
                                                ..o
                                            },
                                            UserStakeInfo {
                                                total_staked_sol: (u1.total_staked_sol
                                                    + sol) as u64,
                                                base_lxr_holdings: (u1.base_lxr_holdings
                                                    + lxr) as u64,
                                                ..u1
                                            },
                                            PurchaseReceipt {
                                                sol_amount: sol as u64,
                                                lxr_amount: lxr as u64,
                                            },
                                        ),
                                    )
                                },
                            },
                        }
                    },
                }
            },
        }
    }
}

/// Opens `user` for `owner` if it has no owner yet, else settles its token
/// rewards up to `global_index`. On error nothing changes.
pub fn open_or_accrue(user: &mut UserStakeInfo, owner: &Pubkey, global_index: u128) -> (r: Result<
    (),
    ErrorCode,
>)
    ensures
        match open_or_accrue_spec(*old(user), *owner, global_index as int) {
            Some(u) => *final(user) == u && r is Ok,
            None => *final(user) == *old(user) && r == Err::<(), ErrorCode>(
                ErrorCode::MathOverflow,
            ),
        },
{
    if is_default_key(&user.owner) {
        user.owner = *owner;
        user.lxr_reward_per_token_completed = global_index;
        Ok(())
    } else {
        user.accrue_lxr_rewards(global_index)?;
        Ok(())
    }
}

/// Buys exactly `lxr_to_purchase` tokens for at most `max_sol_amount` of the
/// reserve asset and stakes what is paid.
///
/// The price is that of an exact-output trade on `market`, after the bonus
/// or inventory policy (`treasury_lxr_balance` is the treasury's token
/// inventory). New rewards on the pooled stake (balance `stake_balance`
/// before the payment) are observed first. The caller moves the amounts of
/// the receipt. On error nothing changes.
pub fn purchase(
    config: &GlobalConfig,
    stake_info: &mut StakeInfo,
    user_stake_info: &mut UserStakeInfo,
    owner: &Pubkey,
    lxr_to_purchase: u64,
    max_sol_amount: u64,
    market: &MarketState,
    treasury_lxr_balance: u64,
    stake_balance: u64,
    now: u64,
) -> (r: Result<PurchaseReceipt, ErrorCode>)
    requires
        old(stake_info).wf(),
    ensures
        final(stake_info).wf(),
        r is Ok ==> final(user_stake_info).lxr_reward_per_token_completed
            == final(stake_info).reward_per_token_lxr_stored,
        match purchase_spec(
            *config,
            *old(stake_info),
            *old(user_stake_info),
            *owner,
            lxr_to_purchase as int,
            max_sol_amount as int,
            *market,
            treasury_lxr_balance as int,
            stake_balance as int,
            now,
        ) {
            Ok((s, u, receipt)) => *final(stake_info) == s && *final(user_stake_info) == u && r
                == Ok::<PurchaseReceipt, ErrorCode>(receipt),
            Err(e) => *final(stake_info) == *old(stake_info) && *final(user_stake_info) == *old(
                user_stake_info,
            ) && r == Err::<PurchaseReceipt, ErrorCode>(e),
        },
{
    if !config.purchase_enabled {
        return Err(ErrorCode::PurchaseDisabled);
    }
    if lxr_to_purchase == 0 {
        return Err(ErrorCode::RequireGtViolated);
    }
    let trade = market.buy_exact_output(lxr_to_purchase)?;
    if trade.input_amount > u64::MAX as u128 {
        return Err(ErrorCode::MathOverflow);
    }
    let total_sol_needed = match apply_purchase_policy(
        trade.input_amount as u64,
        stake_info.total_stake_count,
        config,
        treasury_lxr_balance,
    ) {
        Some(v) => v,
        None => return Err(ErrorCode::MathOverflow),
    };
    if max_sol_amount < total_sol_needed {
        return Err(ErrorCode::ExceededSlippage);
    }
    let mut observed = *stake_info;
    observed.observe_sol_rewards(stake_balance)?;
    let mut user = *user_stake_info;
    open_or_accrue(&mut user, owner, stake_info.reward_per_token_lxr_stored)?;
    let total_staked = match observed.total_staked_sol.checked_add(total_sol_needed) {
        Some(v) => v,
        None => return Err(ErrorCode::MathOverflow),
    };
    let count = match observed.total_stake_count.checked_add(1) {
        Some(v) => v,
        None => return Err(ErrorCode::MathOverflow),
    };
    let last_balance = match stake_balance.checked_add(total_sol_needed) {
        Some(v) => v,
        None => return Err(ErrorCode::MathOverflow),
    };
    let user_staked = match user.total_staked_sol.checked_add(total_sol_needed) {
        Some(v) => v,
        None => return Err(ErrorCode::MathOverflow),
    };
    let base_holdings = match user.base_lxr_holdings.checked_add(lxr_to_purchase) {
        Some(v) => v,
        None => return Err(ErrorCode::MathOverflow),
    };
    observed.total_staked_sol = total_staked;
    observed.total_stake_count = count;
    observed.last_tracked_sol_balance = last_balance;
    observed.last_update_timestamp = now;
    user.total_staked_sol = user_staked;
    user.base_lxr_holdings = base_holdings;
    *stake_info = observed;
    *user_stake_info = user;
    Ok(PurchaseReceipt { sol_amount: total_sol_needed, lxr_amount: lxr_to_purchase })
}

proof fn lemma_u64_product(a: u64, b: u64)
    ensures
        a * b <= u128::MAX,
        a * b >= 0,
{
    assert(a * b <= u64::MAX * u64::MAX && a * b >= 0) by (nonlinear_arith)
        requires
            a <= u64::MAX,
            b <= u64::MAX,
    ;
}

} // verus!
