//! Administrative operations: setting up and changing the parameters,
//! recording purchases settled elsewhere, and emergency withdrawals.
use vstd::prelude::*;

use crate::error::ErrorCode;
use crate::purchase::{open_or_accrue, open_or_accrue_spec};
use crate::rewards::{accrue_lxr_spec, observe_sol_spec};
use crate::states::{
    is_default_key, is_default_key_spec, GlobalConfig, Pubkey, StakeInfo, UserStakeInfo,
};

verus! {

/// Sets up the parameters and an empty aggregate state whose pooled stake
/// starts at a balance of `stake_balance`.
pub fn initialise_configs(
    admin: Pubkey,
    vote_account: Pubkey,
    bonus_rate: u64,
    max_stake_count_to_get_bonus: u64,
    min_swap_amount: u64,
    max_swap_amount: u64,
    fee_treasury_rate: u64,
    purchase_enabled: bool,
    redeem_enabled: bool,
    initial_lxr_allocation_vault: u64,
    stake_balance: u64,
) -> (r: (GlobalConfig, StakeInfo))
    ensures
        r.0 == (GlobalConfig {
            bump: 0,
            admin,
            vote_account,
            bonus_rate,
            max_stake_count_to_get_bonus,
            min_swap_amount,
            max_swap_amount,
            fee_treasury_rate,
            purchase_enabled,
            redeem_enabled,
            initial_lxr_allocation_vault,
        }),
        r.1 == (StakeInfo {
            bump: 0,
            total_staked_sol: 0,
            total_stake_count: 0,
            total_sol_rewards_accrued: 0,
            last_tracked_sol_balance: stake_balance,
            reward_per_token_sol_stored: 0,
            total_luxor_rewards_accrued: 0,
            total_sol_used_for_buyback: 0,
            last_update_timestamp: 0,
            last_buyback_timestamp: 0,
            reward_per_token_lxr_stored: 0,
            total_lxr_claimed: 0,
            total_lxr_forfeited: 0,
            buyback_count: 0,
            buyback_requested: false,
        }),
        r.1.wf(),
{
    let config = GlobalConfig {
        bump: 0,
        admin,
        vote_account,
        bonus_rate,
        max_stake_count_to_get_bonus,
        min_swap_amount,
        max_swap_amount,
        fee_treasury_rate,
        purchase_enabled,
        redeem_enabled,
        initial_lxr_allocation_vault,
    };
    let stake_info = StakeInfo {
        bump: 0,
        total_staked_sol: 0,
        total_stake_count: 0,
        total_sol_rewards_accrued: 0,
        last_tracked_sol_balance: stake_balance,
        reward_per_token_sol_stored: 0,
        total_luxor_rewards_accrued: 0,
        total_sol_used_for_buyback: 0,
        last_update_timestamp: 0,
        last_buyback_timestamp: 0,
        reward_per_token_lxr_stored: 0,
        total_lxr_claimed: 0,
        total_lxr_forfeited: 0,
        buyback_count: 0,
        buyback_requested: false,
    };
    (config, stake_info)
}

/// The parameters after setting the one that `param` selects to `value`:
/// 0 the administrator (to `new_admin`, which must be given and not all
/// zeros), 1 the minimum and 2 the maximum swap amount, 3 the treasury fee
/// rate, 4 and 5 whether purchases and redemptions are accepted (`value !=
/// 0`), 6 the bonus ceiling. Any other selector is refused.
pub open spec fn update_config_spec(
    c: GlobalConfig,
    param: u8,
    value: u64,
    new_admin: Option<Pubkey>,
) -> Result<GlobalConfig, ErrorCode> {
    if param == 0 {
        match new_admin {
            None => Err(ErrorCode::MissingRemainingAccount),
            Some(k) => if is_default_key_spec(k) {
                Err(ErrorCode::RequireKeysNeqViolated)
            } else {
                Ok(GlobalConfig { admin: k, ..c })
            },
        }
    } else if param == 1 {
        Ok(GlobalConfig { min_swap_amount: value, ..c })
    } else if param == 2 {
        Ok(GlobalConfig { max_swap_amount: value, ..c })
    } else if param == 3 {
        Ok(GlobalConfig { fee_treasury_rate: value, ..c })
    } else if param == 4 {
        Ok(GlobalConfig { purchase_enabled: value != 0, ..c })
    } else if param == 5 {
        Ok(GlobalConfig { redeem_enabled: value != 0, ..c })
    } else if param == 6 {
        Ok(GlobalConfig { max_stake_count_to_get_bonus: value, ..c })
    } else {
        Err(ErrorCode::InvalidParam)
    }
}

/// Sets the parameter that `param` selects (see `update_config_spec`). On
/// error nothing changes.
pub fn update_config(
    global_config: &mut GlobalConfig,
    param: u8,
    value: u64,
    new_admin: Option<Pubkey>,
) -> (r: Result<(), ErrorCode>)
    ensures
        match update_config_spec(*old(global_config), param, value, new_admin) {
            Ok(c) => *final(global_config) == c && r is Ok,
            Err(e) => *final(global_config) == *old(global_config) && r == Err::<(), ErrorCode>(e),
        },
{
    match param {
        0 => {
            let k = match new_admin {
                Some(k) => k,
                None => return Err(ErrorCode::MissingRemainingAccount),
            };
            if is_default_key(&k) {
                return Err(ErrorCode::RequireKeysNeqViolated);
            }
            global_config.admin = k;
        },
        1 => {
            global_config.min_swap_amount = value;
        },
        2 => {
            global_config.max_swap_amount = value;
        },
        3 => {
            global_config.fee_treasury_rate = value;
        },
        4 => {
            global_config.purchase_enabled = value != 0;
        },
        5 => {
            global_config.redeem_enabled = value != 0;
        },
        6 => {
            global_config.max_stake_count_to_get_bonus = value;
        },
        _ => {
            return Err(ErrorCode::InvalidParam);
        },
    }
    Ok(())
}

/// Outcome of recording a purchase of `lxr` tokens for `sol` settled outside
/// the market: rewards on the pooled stake (balance `stake_balance` before
/// the payment) are observed, the payment is staked for principal `u`
/// (opened for `user_key` if it has no owner yet, else with its token
/// rewards settled first). The stake count does not change.
pub open spec fn manual_purchase_spec(
    s: StakeInfo,
    u: UserStakeInfo,
    user_key: Pubkey,
    lxr: int,
    sol: int,
    stake_balance: int,
    now: u64,
) -> Result<(StakeInfo, UserStakeInfo), ErrorCode> {
    match (
        observe_sol_spec(s, stake_balance),
        open_or_accrue_spec(u, user_key, s.reward_per_token_lxr_stored as int),
    ) {
        (Some(o), Some(u1)) => if o.total_staked_sol + sol > u64::MAX || stake_balance + sol
            > u64::MAX || u1.total_staked_sol + sol > u64::MAX || u1.base_lxr_holdings + lxr
            > u64::MAX {
            Err(ErrorCode::MathOverflow)
        } else {
            Ok(
                (
                    StakeInfo {
                        total_staked_sol: (o.total_staked_sol + sol) as u64,
                        last_tracked_sol_balance: (stake_balance + sol) as u64,
                        last_update_timestamp: now,
                        ..o
                    },
                    UserStakeInfo {
                        total_staked_sol: (u1.total_staked_sol + sol) as u64,
                        base_lxr_holdings: (u1.base_lxr_holdings + lxr) as u64,
                        ..u1
                    },
                ),
            )
        },
        _ => Err(ErrorCode::MathOverflow),
    }
}

/// Records a purchase of `lxr_purchased` tokens for `sol_spent` settled
/// outside the market, staking `sol_spent` for the principal. The caller
/// moves `sol_spent` to the pooled stake. On error nothing changes.
pub fn manual_purchase(
    stake_info: &mut StakeInfo,
    user_stake_info: &mut UserStakeInfo,
    user_key: &Pubkey,
    lxr_purchased: u64,
    sol_spent: u64,
    stake_balance: u64,
    now: u64,
) -> (r: Result<(), ErrorCode>)
    ensures
        old(stake_info).wf() ==> final(stake_info).wf(),
        r is Ok ==> final(user_stake_info).lxr_reward_per_token_completed
            == final(stake_info).reward_per_token_lxr_stored,
        match manual_purchase_spec(
            *old(stake_info),
            *old(user_stake_info),
            *user_key,
            lxr_purchased as int,
            sol_spent as int,
            stake_balance as int,
            now,
        ) {
            Ok((s, u)) => *final(stake_info) == s && *final(user_stake_info) == u && r is Ok,
            Err(e) => *final(stake_info) == *old(stake_info) && *final(user_stake_info) == *old(
                user_stake_info,
            ) && r == Err::<(), ErrorCode>(e),
        },
{
    let mut observed = *stake_info;
    let mut user = *user_stake_info;
    let observed_ok = observed.observe_sol_rewards(stake_balance);
    let user_ok = open_or_accrue(&mut user, user_key, stake_info.reward_per_token_lxr_stored);
    if observed_ok.is_err() || user_ok.is_err() {
        return Err(ErrorCode::MathOverflow);
    }
    let total_staked = match observed.total_staked_sol.checked_add(sol_spent) {
        Some(v) => v,
        None => return Err(ErrorCode::MathOverflow),
    };
    let last_balance = match stake_balance.checked_add(sol_spent) {
        Some(v) => v,
        None => return Err(ErrorCode::MathOverflow),
    };
    let user_staked = match user.total_staked_sol.checked_add(sol_spent) {
        Some(v) => v,
        None => return Err(ErrorCode::MathOverflow),
    };
    let base_holdings = match user.base_lxr_holdings.checked_add(lxr_purchased) {
        Some(v) => v,
        None => return Err(ErrorCode::MathOverflow),
    };
    observed.total_staked_sol = total_staked;
    observed.last_tracked_sol_balance = last_balance;
    observed.last_update_timestamp = now;
    user.total_staked_sol = user_staked;
    user.base_lxr_holdings = base_holdings;
    *stake_info = observed;
    *user_stake_info = user;
    Ok(())
}

/// An emergency operation for the caller to carry out.
#[derive(Clone, Copy, Debug, PartialEq, Eq, Structural)]
pub enum EmergencyAction {
    /// Move this many tokens from the chosen token vault to the administrator.
    WithdrawLxr { amount: u64 },
    /// Move this much of the reserve asset from the treasury to the
    /// administrator.
    WithdrawSol { amount: u64 },
    /// Move this many tokens, the administrator record's pending rewards,
    /// from the reward vault to the chosen token vault.
    PayAdminRewards { amount: u64 },
    /// Begin deactivating the pooled stake.
    DeactivateStake,
    /// Withdraw this much from the deactivated pooled stake to the
    /// administrator.
    WithdrawStake { amount: u64 },
}

/// Decides the emergency operation that `param` selects: 0 empty the chosen
/// token vault (balance `lxr_vault_balance`), 1 empty the reserve-asset
/// treasury (balance `sol_treasury_balance`), 2 pay out the administrator
/// record's token rewards (settled up to the global index first, then zeroed),
/// 3 deactivate the pooled stake, 4 withdraw `value` from it. Any other
/// selector is refused. On error nothing changes.
pub fn emergency_withdraw(
    stake_info: &StakeInfo,
    admin_stake_info: &mut UserStakeInfo,
    param: u8,
    value: u64,
    lxr_vault_balance: u64,
    sol_treasury_balance: u64,
) -> (r: Result<EmergencyAction, ErrorCode>)
    ensures
        param != 2 ==> *final(admin_stake_info) == *old(admin_stake_info),
        param == 0 ==> r == Ok::<EmergencyAction, ErrorCode>(
            EmergencyAction::WithdrawLxr { amount: lxr_vault_balance },
        ),
        param == 1 ==> r == Ok::<EmergencyAction, ErrorCode>(
            EmergencyAction::WithdrawSol { amount: sol_treasury_balance },
        ),
        param == 2 ==> match accrue_lxr_spec(
            *old(admin_stake_info),
            stake_info.reward_per_token_lxr_stored as int,
        ) {
            Some(a) => r == Ok::<EmergencyAction, ErrorCode>(
                EmergencyAction::PayAdminRewards { amount: a.lxr_rewards_pending },
            ) && *final(admin_stake_info) == (UserStakeInfo { lxr_rewards_pending: 0, ..a }),
            None => r == Err::<EmergencyAction, ErrorCode>(ErrorCode::MathOverflow)
                && *final(admin_stake_info) == *old(admin_stake_info),
        },
        param == 3 ==> r == Ok::<EmergencyAction, ErrorCode>(EmergencyAction::DeactivateStake),
        param == 4 ==> r == Ok::<EmergencyAction, ErrorCode>(
            EmergencyAction::WithdrawStake { amount: value },
        ),
        param > 4 ==> r == Err::<EmergencyAction, ErrorCode>(ErrorCode::InvalidParam),
{
    match param {
        0 => Ok(EmergencyAction::WithdrawLxr { amount: lxr_vault_balance }),
        1 => Ok(EmergencyAction::WithdrawSol { amount: sol_treasury_balance }),
        2 => {
            admin_stake_info.accrue_lxr_rewards(stake_info.reward_per_token_lxr_stored)?;
            let amount = admin_stake_info.lxr_rewards_pending;
            admin_stake_info.lxr_rewards_pending = 0;
            Ok(EmergencyAction::PayAdminRewards { amount })
        },
        3 => Ok(EmergencyAction::DeactivateStake),
        4 => Ok(EmergencyAction::WithdrawStake { amount: value }),
        _ => Err(ErrorCode::InvalidParam),
    }
}

} // verus!
