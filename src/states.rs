//! The protocol's persistent records.
use vstd::prelude::*;

verus! {

/// A 32-byte account identity; all zeros stands for "not set".
pub type Pubkey = [u8; 32];

/// Whether every byte of `k` is zero.
pub open spec fn is_default_key_spec(k: Pubkey) -> bool {
    forall|i: int| 0 <= i < 32 ==> k@[i] == 0
}

/// Whether `k` is the all-zero key.
pub fn is_default_key(k: &Pubkey) -> (r: bool)
    ensures
        r == is_default_key_spec(*k),
{
    let mut i: usize = 0;
    while i < 32
        invariant
            0 <= i <= 32,
            forall|j: int| 0 <= j < i ==> k@[j] == 0,
        decreases 32 - i,
    {
        if k[i] != 0 {
            return false;
        }
        i = i + 1;
    }
    true
}

/// Protocol-wide parameters; changed only by `update_config`.
#[derive(Clone, Copy, Debug, PartialEq, Eq)]
pub struct GlobalConfig {
    /// Seed bump of the record's address.
    pub bump: u8,
    /// Administrator allowed to change the parameters.
    pub admin: Pubkey,
    /// Validator to which the pooled stake is delegated.
    pub vote_account: Pubkey,
    /// Purchase discount while the stake count is within the bonus ceiling,
    /// in parts per `FEE_RATE_DENOMINATOR_VALUE`.
    pub bonus_rate: u64,
    /// Largest stake count that still receives the bonus.
    pub max_stake_count_to_get_bonus: u64,
    /// Smallest token amount of a swap or purchase.
    pub min_swap_amount: u64,
    /// Largest token amount of a swap or purchase.
    pub max_swap_amount: u64,
    /// Treasury share of a buyback, in parts per `FEE_RATE_DENOMINATOR_VALUE`.
    pub fee_treasury_rate: u64,
    /// Whether purchases are accepted.
    pub purchase_enabled: bool,
    /// Whether redemptions are accepted.
    pub redeem_enabled: bool,
    /// Token inventory of the treasury at launch; purchase prices after the
    /// bonus phase scale by the current inventory over this amount.
    pub initial_lxr_allocation_vault: u64,
}

/// Aggregate staking state and the two global reward indices.
#[derive(Clone, Copy, Debug, PartialEq, Eq)]
pub struct StakeInfo {
    /// Seed bump of the record's address.
    pub bump: u8,
    /// Reserve asset staked by all principals.
    pub total_staked_sol: u64,
    /// Number of purchases made.
    pub total_stake_count: u64,
    /// Reserve-asset rewards observed on the pooled stake since launch.
    pub total_sol_rewards_accrued: u64,
    /// Balance of the pooled stake at the last observation.
    pub last_tracked_sol_balance: u64,
    /// Reserve-asset reward per staked unit, scaled by `PRECISION`.
    pub reward_per_token_sol_stored: u128,
    /// Tokens bought back from rewards since launch.
    pub total_luxor_rewards_accrued: u64,
    /// Rewards spent on buybacks since launch.
    pub total_sol_used_for_buyback: u64,
    /// Time of the last update.
    pub last_update_timestamp: u64,
    /// Time of the last settled buyback.
    pub last_buyback_timestamp: u64,
    /// Token reward per staked unit, scaled by `PRECISION`.
    pub reward_per_token_lxr_stored: u128,
    /// Tokens paid out to principals.
    pub total_lxr_claimed: u64,
    /// Tokens forfeited by principals.
    pub total_lxr_forfeited: u64,
    /// Number of settled buybacks.
    pub buyback_count: u64,
    /// Whether a buyback was requested and not yet settled.
    pub buyback_requested: bool,
}

impl StakeInfo {
    /// Rewards spent on buybacks never exceed the rewards observed.
    pub open spec fn wf(&self) -> bool {
        self.total_sol_rewards_accrued >= self.total_sol_used_for_buyback
    }
}

/// Staking and reward record of one principal.
#[derive(Clone, Copy, Debug, PartialEq, Eq)]
pub struct UserStakeInfo {
    /// Seed bump of the record's address.
    pub bump: u8,
    /// Owner of the record; all zeros until the first purchase.
    pub owner: Pubkey,
    /// Reserve asset staked by the principal.
    pub total_staked_sol: u64,
    /// Tokens paid out to the principal.
    pub total_lxr_claimed: u64,
    /// Tokens the principal forfeited.
    pub total_lxr_forfeited: u64,
    /// Tokens bought by the principal; holding fewer forfeits rewards.
    pub base_lxr_holdings: u64,
    /// The global token index at the principal's last settlement.
    pub lxr_reward_per_token_completed: u128,
    /// Token rewards computed but not yet paid out.
    pub lxr_rewards_pending: u64,
    /// Stake moved away from the principal on blacklisting.
    pub blacklisted_sol: u64,
}

impl UserStakeInfo {
    /// A record that no purchase has touched yet.
    pub fn new_empty() -> (r: UserStakeInfo)
        ensures
            is_default_key_spec(r.owner),
            r.total_staked_sol == 0,
            r.total_lxr_claimed == 0,
            r.total_lxr_forfeited == 0,
            r.base_lxr_holdings == 0,
            r.lxr_reward_per_token_completed == 0,
            r.lxr_rewards_pending == 0,
            r.blacklisted_sol == 0,
            r.bump == 0,
    {
        UserStakeInfo {
            bump: 0,
            owner: [0u8; 32],
            total_staked_sol: 0,
            total_lxr_claimed: 0,
            total_lxr_forfeited: 0,
            base_lxr_holdings: 0,
            lxr_reward_per_token_completed: 0,
            lxr_rewards_pending: 0,
            blacklisted_sol: 0,
        }
    }
}

} // verus!
