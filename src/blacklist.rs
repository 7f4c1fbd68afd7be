//! Moving a blacklisted principal's stake and pending rewards to the
//! administrator's record.
use vstd::prelude::*;

use crate::error::ErrorCode;
use crate::purchase::{open_or_accrue, open_or_accrue_spec};
use crate::rewards::accrue_lxr_spec;
use crate::states::{Pubkey, StakeInfo, UserStakeInfo};

verus! {

/// Outcome of blacklisting principal `u` into the administrator's record
/// `admin` (opened for `admin_key` if it has no owner yet): the new records
/// and the stake moved.
///
/// Both records first settle their token rewards up to the global index.
/// The principal's whole pending balance is counted as forfeited and moved,
/// with its stake, to the administrator; the principal's stake, pending
/// balance and base holdings become zero and the moved stake is added to
/// its blacklisted amount.
pub open spec fn blacklist_spec(
    s: StakeInfo,
    u: UserStakeInfo,
    admin: UserStakeInfo,
    admin_key: Pubkey,
) -> Result<(UserStakeInfo, UserStakeInfo, u64), ErrorCode> {
    let index = s.reward_per_token_lxr_stored as int;
    match (accrue_lxr_spec(u, index), open_or_accrue_spec(admin, admin_key, index)) {
        (Some(u1), Some(a1)) => if u1.total_lxr_forfeited + u1.lxr_rewards_pending > u64::MAX
            || u.blacklisted_sol + u.total_staked_sol > u64::MAX || a1.total_staked_sol
            + u.total_staked_sol > u64::MAX || a1.lxr_rewards_pending + u1.lxr_rewards_pending
            > u64::MAX {
            Err(ErrorCode::MathOverflow)
        } else {
            Ok(
                (
                    UserStakeInfo {
                        total_lxr_forfeited: (u1.total_lxr_forfeited
                            + u1.lxr_rewards_pending) as u64,
                        blacklisted_sol: (u.blacklisted_sol + u.total_staked_sol) as u64,
                        total_staked_sol: 0,
                        lxr_rewards_pending: 0,
                        base_lxr_holdings: 0,
                        ..u1
                    },
                    UserStakeInfo {
                        total_staked_sol: (a1.total_staked_sol + u.total_staked_sol) as u64,
                        lxr_rewards_pending: (a1.lxr_rewards_pending
                            + u1.lxr_rewards_pending) as u64,
                        ..a1
                    },
                    u.total_staked_sol,
                ),
            )
        },
        _ => Err(ErrorCode::MathOverflow),
    }
}

/// Blacklists `user_stake_info`: its stake and pending rewards move to
/// `admin_stake_info`. Returns the stake moved. On error nothing changes.
pub fn blacklist(
    stake_info: &StakeInfo,
    user_stake_info: &mut UserStakeInfo,
    admin_stake_info: &mut UserStakeInfo,
    admin_key: &Pubkey,
) -> (r: Result<u64, ErrorCode>)
    ensures
        r is Ok ==> final(user_stake_info).lxr_reward_per_token_completed
            == stake_info.reward_per_token_lxr_stored
            && final(admin_stake_info).lxr_reward_per_token_completed
            == stake_info.reward_per_token_lxr_stored,
        match blacklist_spec(*stake_info, *old(user_stake_info), *old(admin_stake_info), *admin_key) {
            Ok((u, a, moved)) => *final(user_stake_info) == u && *final(admin_stake_info) == a && r
                == Ok::<u64, ErrorCode>(moved),
            Err(e) => *final(user_stake_info) == *old(user_stake_info) && *final(admin_stake_info)
                == *old(admin_stake_info) && r == Err::<u64, ErrorCode>(e),
        },
{
    let index = stake_info.reward_per_token_lxr_stored;
    let mut user = *user_stake_info;
    let mut admin = *admin_stake_info;
    let user_ok = user.accrue_lxr_rewards(index);
    let admin_ok = open_or_accrue(&mut admin, admin_key, index);
    if user_ok.is_err() || admin_ok.is_err() {
        return Err(ErrorCode::MathOverflow);
    }
    let forfeited = match user.total_lxr_forfeited.checked_add(user.lxr_rewards_pending) {
        Some(v) => v,
        None => return Err(ErrorCode::MathOverflow),
    };
    let sol_blacklisted = user.total_staked_sol;
    let blacklisted = match user.blacklisted_sol.checked_add(sol_blacklisted) {
        Some(v) => v,
        None => return Err(ErrorCode::MathOverflow),
    };
    let admin_staked = match admin.total_staked_sol.checked_add(sol_blacklisted) {
        Some(v) => v,
        None => return Err(ErrorCode::MathOverflow),
    };
    let admin_pending = match admin.lxr_rewards_pending.checked_add(user.lxr_rewards_pending) {
        Some(v) => v,
        None => return Err(ErrorCode::MathOverflow),
    };
    user.total_lxr_forfeited = forfeited;
    user.blacklisted_sol = blacklisted;
    user.total_staked_sol = 0;
    user.lxr_rewards_pending = 0;
    user.base_lxr_holdings = 0;
    admin.total_staked_sol = admin_staked;
    admin.lxr_rewards_pending = admin_pending;
    *user_stake_info = user;
    *admin_stake_info = admin;
    Ok(sol_blacklisted)
}

} // verus!
