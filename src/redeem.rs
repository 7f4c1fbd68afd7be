//! Paying out a principal's token rewards, with the part forfeited when the
//! principal holds fewer tokens than it bought.
use vstd::prelude::*;

use crate::error::ErrorCode;
use crate::rewards::lxr_owed_spec;
use crate::states::{GlobalConfig, StakeInfo, UserStakeInfo};
use crate::PRECISION;

verus! {

/// What a redemption moves: `lxr_collected` to the principal and
/// `lxr_forfeited` to the treasury, both out of the reward vault.
#[derive(Clone, Copy, Debug, PartialEq, Eq, Structural)]
pub struct Redemption {
    /// Tokens paid to the principal.
    pub lxr_collected: u64,
    /// Tokens forfeited to the treasury.
    pub lxr_forfeited: u64,
}

/// The part of `full` that a principal holding `current` of its `base`
/// purchased tokens keeps: all of it when `current >= base`, else
/// `current * full / base`.
pub open spec fn kept_share_spec(full: int, current: int, base: int) -> int {
    if current < base {
        current * full / base
    } else {
        full
    }
}

/// Outcome of a redemption by principal `u`, whose token wallet holds
/// `current` tokens.
///
/// The rewards since the principal's checkpoint must be positive; the part
/// not kept (see `kept_share_spec`) is forfeited; the pending balance is paid
/// on top of the kept part; the checkpoint moves to the global index and the
/// pending balance to zero.
pub open spec fn redeem_spec(config: GlobalConfig, s: StakeInfo, u: UserStakeInfo, current: int) -> Result<
    (StakeInfo, UserStakeInfo, Redemption),
    ErrorCode,
> {
    let delta = s.reward_per_token_lxr_stored - u.lxr_reward_per_token_completed;
    let full = lxr_owed_spec(u.total_staked_sol as int, delta);
    let kept = kept_share_spec(full, current, u.base_lxr_holdings as int);
    let forfeited = full - kept;
    let claim = kept + u.lxr_rewards_pending;
    if !config.redeem_enabled {
        Err(ErrorCode::RedeemDisabled)
    } else if delta <= 0 {
        Err(ErrorCode::NoRewardsToClaim)
    } else if u.total_staked_sol * delta > u128::MAX {
        Err(ErrorCode::MathOverflow)
    } else if full == 0 {
        Err(ErrorCode::NoRewardsToClaim)
    } else if full > u64::MAX || claim > u64::MAX || u.total_lxr_claimed + claim > u64::MAX
        || u.total_lxr_forfeited + forfeited > u64::MAX || s.total_lxr_claimed + claim > u64::MAX
        || s.total_lxr_forfeited + forfeited > u64::MAX {
        Err(ErrorCode::MathOverflow)
    } else {
        Ok(
            (
                StakeInfo {
                    total_lxr_claimed: (s.total_lxr_claimed + claim) as u64,
                    total_lxr_forfeited: (s.total_lxr_forfeited + forfeited) as u64,
                    ..s
                },
                UserStakeInfo {
                    total_lxr_claimed: (u.total_lxr_claimed + claim) as u64,
                    total_lxr_forfeited: (u.total_lxr_forfeited + forfeited) as u64,
                    lxr_reward_per_token_completed: s.reward_per_token_lxr_stored,
                    lxr_rewards_pending: 0,
                    ..u
                },
                Redemption { lxr_collected: claim as u64, lxr_forfeited: forfeited as u64 },
            ),
        )
    }
}

/// Redeems the token rewards of `user_stake_info`, whose token wallet now
/// holds `current_lxr_balance`. The caller moves the amounts of the result.
/// On error nothing changes.
pub fn redeem(
    config: &GlobalConfig,
    stake_info: &mut StakeInfo,
    user_stake_info: &mut UserStakeInfo,
    current_lxr_balance: u64,
) -> (r: Result<Redemption, ErrorCode>)
    ensures
        old(stake_info).wf() ==> final(stake_info).wf(),
        r is Ok ==> final(user_stake_info).lxr_reward_per_token_completed
            == final(stake_info).reward_per_token_lxr_stored,
        match redeem_spec(*config, *old(stake_info), *old(user_stake_info), current_lxr_balance as int) {
            Ok((s, u, out)) => *final(stake_info) == s && *final(user_stake_info) == u && r
                == Ok::<Redemption, ErrorCode>(out),
            Err(e) => *final(stake_info) == *old(stake_info) && *final(user_stake_info) == *old(
                user_stake_info,
            ) && r == Err::<Redemption, ErrorCode>(e),
        },
{
    if !config.redeem_enabled {
        return Err(ErrorCode::RedeemDisabled);
    }
    if stake_info.reward_per_token_lxr_stored <= user_stake_info.lxr_reward_per_token_completed {
        return Err(ErrorCode::NoRewardsToClaim);
    }
    let delta = stake_info.reward_per_token_lxr_stored
        - user_stake_info.lxr_reward_per_token_completed;
    let product = match (user_stake_info.total_staked_sol as u128).checked_mul(delta) {
        Some(v) => v,
        None => return Err(ErrorCode::MathOverflow),
    };
    let full = product / PRECISION / PRECISION;
    if full == 0 {
        return Err(ErrorCode::NoRewardsToClaim);
    }
    if full > u64::MAX as u128 {
        return Err(ErrorCode::MathOverflow);
    }
    let full = full as u64;
    let base = user_stake_info.base_lxr_holdings;
    let kept = if current_lxr_balance < base {
        proof {
            lemma_kept_share_bounded(full as int, current_lxr_balance as int, base as int);
        }
        ((current_lxr_balance as u128) * (full as u128) / (base as u128)) as u64
    } else {
        full
    };
    let forfeited = full - kept;
    let claim = match kept.checked_add(user_stake_info.lxr_rewards_pending) {
        Some(v) => v,
        None => return Err(ErrorCode::MathOverflow),
    };
    let user_claimed = match user_stake_info.total_lxr_claimed.checked_add(claim) {
        Some(v) => v,
        None => return Err(ErrorCode::MathOverflow),
    };
    let user_forfeited = match user_stake_info.total_lxr_forfeited.checked_add(forfeited) {
        Some(v) => v,
        None => return Err(ErrorCode::MathOverflow),
    };
    let total_claimed = match stake_info.total_lxr_claimed.checked_add(claim) {
        Some(v) => v,
        None => return Err(ErrorCode::MathOverflow),
    };
    let total_forfeited = match stake_info.total_lxr_forfeited.checked_add(forfeited) {
        Some(v) => v,
        None => return Err(ErrorCode::MathOverflow),
    };
    user_stake_info.total_lxr_claimed = user_claimed;
    user_stake_info.total_lxr_forfeited = user_forfeited;
    user_stake_info.lxr_reward_per_token_completed = stake_info.reward_per_token_lxr_stored;
    user_stake_info.lxr_rewards_pending = 0;
    stake_info.total_lxr_claimed = total_claimed;
    stake_info.total_lxr_forfeited = total_forfeited;
    Ok(Redemption { lxr_collected: claim, lxr_forfeited: forfeited })
}

/// A share `current / base` of `full`, with `current < base`, is at most
/// `full`.
proof fn lemma_kept_share_bounded(full: int, current: int, base: int)
    requires
        0 <= full <= u64::MAX,
        0 <= current < base,
        base <= u64::MAX,
    ensures
        current * full <= u128::MAX,
        0 <= current * full / base <= full,
{
    assert(current * full <= u64::MAX * u64::MAX) by (nonlinear_arith)
        requires
            0 <= full <= u64::MAX,
            0 <= current <= u64::MAX,
    ;
    assert(0 <= current * full / base <= full) by (nonlinear_arith)
        requires
            0 <= full,
            0 <= current < base,
    ;
}

/// A principal that still holds at least the tokens it bought forfeits
/// nothing when it redeems.
pub proof fn lemma_redeem_full_holdings_forfeit_nothing(
    config: GlobalConfig,
    s: StakeInfo,
    u: UserStakeInfo,
    current: int,
)
    requires
        current >= u.base_lxr_holdings,
    ensures
        redeem_spec(config, s, u, current) matches Ok((_, _, out)) ==> out.lxr_forfeited == 0,
{
}

/// A principal whose token wallet is empty, having bought tokens, forfeits
/// all the rewards earned since its checkpoint and collects only its pending
/// balance.
pub proof fn lemma_redeem_empty_wallet_forfeits_all(
    config: GlobalConfig,
    s: StakeInfo,
    u: UserStakeInfo,
)
    requires
        u.base_lxr_holdings > 0,
    ensures
        redeem_spec(config, s, u, 0) matches Ok((_, _, out)) ==> out.lxr_forfeited == lxr_owed_spec(
            u.total_staked_sol as int,
            s.reward_per_token_lxr_stored - u.lxr_reward_per_token_completed,
        ) && out.lxr_collected == u.lxr_rewards_pending,
{
    let full = lxr_owed_spec(
        u.total_staked_sol as int,
        s.reward_per_token_lxr_stored - u.lxr_reward_per_token_completed,
    );
    assert(0 * full / (u.base_lxr_holdings as int) == 0);
}

} // verus!
