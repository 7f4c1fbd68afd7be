//! Reward-per-stake indices: observing new rewards into the global indices
//! and settling what a principal is owed.
use vstd::prelude::*;

use crate::error::ErrorCode;
use crate::states::{StakeInfo, UserStakeInfo};
use crate::PRECISION;

verus! {

/// Index increment for `amount` new rewards shared over `total_staked`.
pub open spec fn index_increment_spec(amount: int, total_staked: int) -> int {
    amount * (PRECISION as int) / total_staked
}

/// Reserve-asset rewards owed for `staked` over an index delta: the index is
/// scaled once by `PRECISION`.
pub open spec fn sol_owed_spec(staked: int, delta: int) -> int {
    staked * delta / (PRECISION as int)
}

/// Token rewards owed for `staked` over an index delta. The result is divided
/// by `PRECISION` twice, so an index delta below `PRECISION * PRECISION /
/// staked` owes nothing.
pub open spec fn lxr_owed_spec(staked: int, delta: int) -> int {
    staked * delta / (PRECISION as int) / (PRECISION as int)
}

/// The aggregate state after observing a pooled-stake balance of `balance`:
/// any increase over the last observation is a reward, added to the reward
/// total and, per staked unit, to the reserve-asset index. `None` when the
/// increase cannot be shared (nothing staked) or a total overflows.
pub open spec fn observe_sol_spec(s: StakeInfo, balance: int) -> Option<StakeInfo> {
    if balance <= s.last_tracked_sol_balance {
        Some(s)
    } else {
        let rewards = balance - s.last_tracked_sol_balance;
        if s.total_staked_sol == 0 || s.total_sol_rewards_accrued + rewards > u64::MAX
            || rewards * PRECISION > u128::MAX || s.reward_per_token_sol_stored
            + index_increment_spec(rewards, s.total_staked_sol as int) > u128::MAX {
            None
        } else {
            Some(
                StakeInfo {
                    total_sol_rewards_accrued: (s.total_sol_rewards_accrued + rewards) as u64,
                    last_tracked_sol_balance: balance as u64,
                    reward_per_token_sol_stored: (s.reward_per_token_sol_stored
                        + index_increment_spec(rewards, s.total_staked_sol as int)) as u128,
                    ..s
                },
            )
        }
    }
}

/// A principal's record after its token rewards up to `global_index` are
/// moved into its pending balance and its checkpoint advanced. `None` when
/// the checkpoint is ahead of the index or an amount overflows.
pub open spec fn accrue_lxr_spec(u: UserStakeInfo, global_index: int) -> Option<UserStakeInfo> {
    let delta = global_index - u.lxr_reward_per_token_completed;
    if delta < 0 || u.total_staked_sol * delta > u128::MAX {
        None
    } else {
        let owed = lxr_owed_spec(u.total_staked_sol as int, delta);
        if u.lxr_rewards_pending + owed > u64::MAX {
            None
        } else {
            Some(
                UserStakeInfo {
                    lxr_rewards_pending: (u.lxr_rewards_pending + owed) as u64,
                    lxr_reward_per_token_completed: global_index as u128,
                    ..u
                },
            )
        }
    }
}

/// Reserve-asset rewards owed to `staked` units between `checkpoint` and
/// `global_index`; `None` when the checkpoint is ahead of the index or an
/// amount overflows.
pub fn sol_rewards_owed(staked: u64, global_index: u128, checkpoint: u128) -> (r: Option<u64>)
    ensures
        r matches Some(v) ==> v == sol_owed_spec(staked as int, global_index - checkpoint),
        r is Some <==> checkpoint <= global_index && staked * (global_index - checkpoint)
            <= u128::MAX && sol_owed_spec(staked as int, global_index - checkpoint) <= u64::MAX,
{
    let delta = global_index.checked_sub(checkpoint)?;
    let product = (staked as u128).checked_mul(delta)?;
    let owed = product / PRECISION;
    if owed > u64::MAX as u128 {
        return None;
    }
    Some(owed as u64)
}

/// Token rewards owed to `staked` units between `checkpoint` and
/// `global_index`; `None` when the checkpoint is ahead of the index or an
/// amount overflows.
pub fn lxr_rewards_owed(staked: u64, global_index: u128, checkpoint: u128) -> (r: Option<u64>)
    ensures
        r matches Some(v) ==> v == lxr_owed_spec(staked as int, global_index - checkpoint),
        r is Some <==> checkpoint <= global_index && staked * (global_index - checkpoint)
            <= u128::MAX && lxr_owed_spec(staked as int, global_index - checkpoint) <= u64::MAX,
{
    let delta = global_index.checked_sub(checkpoint)?;
    let product = (staked as u128).checked_mul(delta)?;
    let owed = product / PRECISION / PRECISION;
    if owed > u64::MAX as u128 {
        return None;
    }
    Some(owed as u64)
}

impl StakeInfo {
    /// Takes any increase of the pooled-stake balance over the last
    /// observation as new reserve-asset rewards and returns their amount.
    /// On error nothing changes.
    pub fn observe_sol_rewards(&mut self, stake_balance: u64) -> (r: Result<u64, ErrorCode>)
        ensures
            match observe_sol_spec(*old(self), stake_balance as int) {
                Some(s) => *final(self) == s && r == Ok::<u64, ErrorCode>(
                    (s.total_sol_rewards_accrued - old(self).total_sol_rewards_accrued) as u64,
                ),
                None => *final(self) == *old(self) && r == Err::<u64, ErrorCode>(
                    ErrorCode::MathOverflow,
                ),
            },
    {
        if stake_balance <= self.last_tracked_sol_balance {
            return Ok(0);
        }
        let rewards = stake_balance - self.last_tracked_sol_balance;
        if self.total_staked_sol == 0 {
            return Err(ErrorCode::MathOverflow);
        }
        let accrued = match self.total_sol_rewards_accrued.checked_add(rewards) {
            Some(v) => v,
            None => return Err(ErrorCode::MathOverflow),
        };
        let scaled = match (rewards as u128).checked_mul(PRECISION) {
            Some(v) => v,
            None => return Err(ErrorCode::MathOverflow),
        };
        let index = match self.reward_per_token_sol_stored.checked_add(
            scaled / (self.total_staked_sol as u128),
        ) {
            Some(v) => v,
            None => return Err(ErrorCode::MathOverflow),
        };
        self.total_sol_rewards_accrued = accrued;
        self.last_tracked_sol_balance = stake_balance;
        self.reward_per_token_sol_stored = index;
        Ok(rewards)
    }
}

impl UserStakeInfo {
    /// Moves the token rewards earned up to `global_index` into the pending
    /// balance, advances the checkpoint to `global_index`, and returns the
    /// amount moved. On error nothing changes.
    pub fn accrue_lxr_rewards(&mut self, global_index: u128) -> (r: Result<u64, ErrorCode>)
        ensures
            match accrue_lxr_spec(*old(self), global_index as int) {
                Some(u) => *final(self) == u && r == Ok::<u64, ErrorCode>(
                    (u.lxr_rewards_pending - old(self).lxr_rewards_pending) as u64,
                ),
                None => *final(self) == *old(self) && r == Err::<u64, ErrorCode>(
                    ErrorCode::MathOverflow,
                ),
            },
    {
        let owed = match lxr_rewards_owed(
            self.total_staked_sol,
            global_index,
            self.lxr_reward_per_token_completed,
        ) {
            Some(v) => v,
            None => return Err(ErrorCode::MathOverflow),
        };
        let pending = match self.lxr_rewards_pending.checked_add(owed) {
            Some(v) => v,
            None => return Err(ErrorCode::MathOverflow),
        };
        self.lxr_rewards_pending = pending;
        self.lxr_reward_per_token_completed = global_index;
        Ok(owed)
    }
}

/// Observing the same balance twice in a row changes nothing the second
/// time: the reserve-asset index does not move.
pub proof fn lemma_observe_twice_is_noop(s: StakeInfo, balance: int)
    requires
        0 <= balance <= u64::MAX,
        observe_sol_spec(s, balance) is Some,
    ensures
        observe_sol_spec(observe_sol_spec(s, balance)->0, balance) == Some(
            observe_sol_spec(s, balance)->0,
        ),
{
}

} // verus!
