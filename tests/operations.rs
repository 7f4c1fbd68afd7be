use luxor_swap::admin::{
    emergency_withdraw, initialise_configs, manual_purchase, update_config, EmergencyAction,
};
use luxor_swap::blacklist::blacklist;
use luxor_swap::buyback::{request_buyback, settle_buyback, BuybackSettlement};
use luxor_swap::error::ErrorCode;
use luxor_swap::pricer::MarketState;
use luxor_swap::purchase::{apply_purchase_policy, purchase, PurchaseReceipt};
use luxor_swap::redeem::{redeem, Redemption};
use luxor_swap::rewards::{lxr_rewards_owed, sol_rewards_owed};
use luxor_swap::states::{is_default_key, GlobalConfig, StakeInfo, UserStakeInfo};

fn key(b: u8) -> [u8; 32] {
    [b; 32]
}

fn setup() -> (GlobalConfig, StakeInfo) {
    initialise_configs(key(1), key(2), 100_000, 3, 10, 1_000_000, 50_000, true, true, 1_000, 2_282_880)
}

fn market() -> MarketState {
    MarketState {
        total_input_token_amount: 1_000_000_000,
        total_output_token_amount: 1_000_000_000,
        enable_creator_fee: true,
        is_creator_fee_on_input: false,
    }
}

fn staker(staked: u64, checkpoint: u128, base: u64, pending: u64) -> UserStakeInfo {
    UserStakeInfo {
        owner: key(7),
        total_staked_sol: staked,
        base_lxr_holdings: base,
        lxr_reward_per_token_completed: checkpoint,
        lxr_rewards_pending: pending,
        ..UserStakeInfo::new_empty()
    }
}

#[test]
fn initialise_sets_parameters() {
    let (config, stake) = setup();
    assert_eq!(config.admin, key(1));
    assert_eq!(config.vote_account, key(2));
    assert_eq!(config.bonus_rate, 100_000);
    assert_eq!(config.max_stake_count_to_get_bonus, 3);
    assert_eq!(config.fee_treasury_rate, 50_000);
    assert_eq!(config.initial_lxr_allocation_vault, 1_000);
    assert_eq!(stake.last_tracked_sol_balance, 2_282_880);
    assert_eq!(stake.total_staked_sol, 0);
    assert!(!stake.buyback_requested);
}

#[test]
fn default_key_detection() {
    assert!(is_default_key(&[0u8; 32]));
    let mut k = [0u8; 32];
    k[31] = 1;
    assert!(!is_default_key(&k));
}

#[test]
fn purchase_policy_bonus_boundary() {
    let (config, _) = setup();
    // The purchase that brings the count to the ceiling still gets the bonus.
    assert_eq!(apply_purchase_policy(1005, 2, &config, 500), Some(905));
    assert_eq!(apply_purchase_policy(1005, 0, &config, 500), Some(905));
    // After the bonus phase the price scales with the treasury inventory.
    assert_eq!(apply_purchase_policy(1005, 3, &config, 500), Some(502));
    let no_alloc = GlobalConfig { initial_lxr_allocation_vault: 0, ..config };
    assert_eq!(apply_purchase_policy(1005, 3, &no_alloc, 500), None);
    let huge_bonus = GlobalConfig { bonus_rate: 2_000_000, ..config };
    assert_eq!(apply_purchase_policy(1005, 0, &huge_bonus, 500), None);
}

#[test]
fn purchase_prices_stakes_and_opens_record() {
    let (config, mut stake) = setup();
    let mut user = UserStakeInfo::new_empty();
    let r = purchase(&config, &mut stake, &mut user, &key(7), 1000, 10_000, &market(), 500, 2_282_880, 42);
    assert_eq!(r, Ok(PurchaseReceipt { sol_amount: 905, lxr_amount: 1000 }));
    assert_eq!(stake.total_staked_sol, 905);
    assert_eq!(stake.total_stake_count, 1);
    assert_eq!(stake.last_tracked_sol_balance, 2_283_785);
    assert_eq!(stake.last_update_timestamp, 42);
    assert_eq!(user.owner, key(7));
    assert_eq!(user.total_staked_sol, 905);
    assert_eq!(user.base_lxr_holdings, 1000);
}

#[test]
fn purchase_refusals_leave_state_unchanged() {
    let (config, stake0) = setup();
    let user0 = UserStakeInfo::new_empty();
    let (mut stake, mut user) = (stake0, user0);
    let r = purchase(&config, &mut stake, &mut user, &key(7), 1000, 904, &market(), 500, 2_282_880, 1);
    assert_eq!(r, Err(ErrorCode::ExceededSlippage));
    assert_eq!((stake, user), (stake0, user0));
    let r = purchase(&config, &mut stake, &mut user, &key(7), 0, 904, &market(), 500, 2_282_880, 1);
    assert_eq!(r, Err(ErrorCode::RequireGtViolated));
    let disabled = GlobalConfig { purchase_enabled: false, ..config };
    let r = purchase(&disabled, &mut stake, &mut user, &key(7), 1000, 10_000, &market(), 500, 2_282_880, 1);
    assert_eq!(r, Err(ErrorCode::PurchaseDisabled));
    let r = purchase(&config, &mut stake, &mut user, &key(7), 1_000_000_000, u64::MAX, &market(), 500, 2_282_880, 1);
    assert_eq!(r, Err(ErrorCode::ZeroTradingTokens));
    // Rewards cannot be shared while nothing is staked.
    let r = purchase(&config, &mut stake, &mut user, &key(7), 1000, 10_000, &market(), 500, 2_300_000, 1);
    assert_eq!(r, Err(ErrorCode::MathOverflow));
    assert_eq!((stake, user), (stake0, user0));
}

#[test]
fn purchase_observes_rewards_into_index() {
    let (config, mut stake) = setup();
    stake.total_staked_sol = 1_000;
    stake.total_stake_count = 5;
    let mut user = UserStakeInfo::new_empty();
    let r = purchase(&config, &mut stake, &mut user, &key(7), 1000, 10_000, &market(), 500, 2_282_880 + 10, 1);
    assert_eq!(r, Ok(PurchaseReceipt { sol_amount: 502, lxr_amount: 1000 }));
    assert_eq!(stake.total_sol_rewards_accrued, 10);
    assert_eq!(stake.reward_per_token_sol_stored, 10_000_000);
    assert_eq!(stake.last_tracked_sol_balance, 2_282_890 + 502);
}

#[test]
fn observe_same_balance_twice_is_noop() {
    let (_, mut stake) = setup();
    stake.total_staked_sol = 3;
    assert_eq!(stake.observe_sol_rewards(2_282_880 + 7), Ok(7));
    let after_first = stake;
    assert_eq!(after_first.reward_per_token_sol_stored, 2_333_333_333);
    assert_eq!(stake.observe_sol_rewards(2_282_880 + 7), Ok(0));
    assert_eq!(stake, after_first);
}

#[test]
fn accrual_formulas() {
    assert_eq!(sol_rewards_owed(100, 5_000_000_000, 0), Some(500));
    assert_eq!(lxr_rewards_owed(3_000_000_000, 2_000_000_000, 1_000_000_000), Some(3));
    assert_eq!(lxr_rewards_owed(1, 0, 1), None);
    assert_eq!(sol_rewards_owed(1, 0, 1), None);
    let mut user = staker(3_000_000_000, 1_000_000_000, 0, 4);
    assert_eq!(user.accrue_lxr_rewards(2_000_000_000), Ok(3));
    assert_eq!(user.lxr_rewards_pending, 7);
    assert_eq!(user.lxr_reward_per_token_completed, 2_000_000_000);
}

#[test]
fn token_accrual_divides_by_precision_twice() {
    // Index 5e9, 100 staked, checkpoint 0: 100 * 5e9 / 1e9 / 1e9 truncates to 0.
    assert_eq!(lxr_rewards_owed(100, 5_000_000_000, 0), Some(0));
    let (config, mut stake) = setup();
    stake.reward_per_token_lxr_stored = 5_000_000_000;
    let mut user = staker(100, 0, 0, 0);
    let user0 = user;
    assert_eq!(redeem(&config, &mut stake, &mut user, 0), Err(ErrorCode::NoRewardsToClaim));
    assert_eq!(user, user0);
}

#[test]
fn redeem_with_full_holdings_forfeits_nothing() {
    let (config, mut stake) = setup();
    stake.reward_per_token_lxr_stored = 4_000_000_000_000_000_000;
    let mut user = staker(10, 0, 1000, 5);
    let r = redeem(&config, &mut stake, &mut user, 1000);
    assert_eq!(r, Ok(Redemption { lxr_collected: 45, lxr_forfeited: 0 }));
    assert_eq!(user.lxr_rewards_pending, 0);
    assert_eq!(user.lxr_reward_per_token_completed, 4_000_000_000_000_000_000);
    assert_eq!(user.total_lxr_claimed, 45);
    assert_eq!(stake.total_lxr_claimed, 45);
    assert_eq!(stake.total_lxr_forfeited, 0);
}

#[test]
fn redeem_with_empty_wallet_forfeits_all() {
    let (config, mut stake) = setup();
    stake.reward_per_token_lxr_stored = 4_000_000_000_000_000_000;
    let mut user = staker(10, 0, 1000, 5);
    let r = redeem(&config, &mut stake, &mut user, 0);
    assert_eq!(r, Ok(Redemption { lxr_collected: 5, lxr_forfeited: 40 }));
    assert_eq!(user.total_lxr_forfeited, 40);
    assert_eq!(stake.total_lxr_forfeited, 40);
}

#[test]
fn redeem_with_partial_holdings_prorates() {
    let (config, mut stake) = setup();
    stake.reward_per_token_lxr_stored = 4_000_000_000_000_000_000;
    let mut user = staker(10, 0, 1000, 0);
    let r = redeem(&config, &mut stake, &mut user, 333);
    assert_eq!(r, Ok(Redemption { lxr_collected: 13, lxr_forfeited: 27 }));
}

#[test]
fn redeem_refusals() {
    let (config, mut stake) = setup();
    let mut user = staker(10, 0, 1000, 0);
    assert_eq!(redeem(&config, &mut stake, &mut user, 0), Err(ErrorCode::NoRewardsToClaim));
    let disabled = GlobalConfig { redeem_enabled: false, ..config };
    stake.reward_per_token_lxr_stored = 4_000_000_000_000_000_000;
    assert_eq!(redeem(&disabled, &mut stake, &mut user, 0), Err(ErrorCode::RedeemDisabled));
    let mut ahead = staker(10, 5_000_000_000_000_000_000, 1000, 0);
    assert_eq!(redeem(&config, &mut stake, &mut ahead, 0), Err(ErrorCode::NoRewardsToClaim));
}

#[test]
fn buyback_request_twice_fails() {
    let (_, mut stake) = setup();
    stake.total_staked_sol = 1_000;
    let split = request_buyback(&mut stake, 2_282_880 + 1_000_000, 9);
    assert_eq!(split, Ok(1_000_000));
    assert!(stake.buyback_requested);
    assert_eq!(stake.last_tracked_sol_balance, 2_282_880);
    assert_eq!(stake.reward_per_token_sol_stored, 1_000_000_000_000);
    assert_eq!(stake.last_update_timestamp, 9);
    let before = stake;
    assert_eq!(request_buyback(&mut stake, 2_282_880, 10), Err(ErrorCode::BuybackAlreadyRequested));
    assert_eq!(stake, before);
}

#[test]
fn buyback_settles_into_token_index() {
    let (config, mut stake) = setup();
    stake.total_staked_sol = 1_000;
    assert_eq!(request_buyback(&mut stake, 2_282_880 + 1_000_000, 9), Ok(1_000_000));
    let r = settle_buyback(&config, &mut stake, 1_000_000, &market(), 11);
    assert_eq!(
        r,
        Ok(BuybackSettlement { sol_withdrawn: 1_000_000, fee_treasury: 50_000, amount_in: 950_000, lxr_bought: 946_253 })
    );
    assert!(!stake.buyback_requested);
    assert_eq!(stake.buyback_count, 1);
    assert_eq!(stake.total_luxor_rewards_accrued, 946_253);
    assert_eq!(stake.total_sol_used_for_buyback, 950_000);
    assert_eq!(stake.reward_per_token_lxr_stored, 946_253_000_000);
    assert_eq!(stake.last_buyback_timestamp, 11);
    assert_eq!(settle_buyback(&config, &mut stake, 1_000_000, &market(), 12), Err(ErrorCode::NoBuybackRequested));
}

#[test]
fn buyback_settlement_refusals() {
    let (config, mut stake) = setup();
    stake.total_staked_sol = 1_000;
    request_buyback(&mut stake, 2_282_880 + 1_000, 9).unwrap();
    let before = stake;
    assert_eq!(settle_buyback(&config, &mut stake, 19, &market(), 11), Err(ErrorCode::ZeroTradingTokens));
    // More than the observed rewards cannot be spent.
    assert_eq!(settle_buyback(&config, &mut stake, 1_000_000, &market(), 11), Err(ErrorCode::InsufficientVault));
    let all_fee = GlobalConfig { fee_treasury_rate: 1_000_000, ..config };
    assert_eq!(settle_buyback(&all_fee, &mut stake, 1_000, &market(), 11), Err(ErrorCode::RequireGtViolated));
    let over_fee = GlobalConfig { fee_treasury_rate: 2_000_000, ..config };
    assert_eq!(settle_buyback(&over_fee, &mut stake, 1_000, &market(), 11), Err(ErrorCode::MathOverflow));
    assert_eq!(stake, before);
    assert_eq!(request_buyback(&mut stake, 0, 1), Err(ErrorCode::BuybackAlreadyRequested));
}

#[test]
fn buyback_request_needs_balance_for_split() {
    let (_, mut stake) = setup();
    stake.total_staked_sol = 1_000;
    stake.total_sol_rewards_accrued = 500;
    stake.last_tracked_sol_balance = 100;
    let before = stake;
    assert_eq!(request_buyback(&mut stake, 100, 1), Err(ErrorCode::InsufficientVault));
    assert_eq!(stake, before);
}

#[test]
fn blacklist_moves_stake_and_pending_to_admin() {
    let (_, mut stake) = setup();
    stake.reward_per_token_lxr_stored = 2_000_000_000_000_000_000;
    let mut user = staker(10, 1_000_000_000_000_000_000, 500, 4);
    let mut admin = UserStakeInfo::new_empty();
    let moved = blacklist(&stake, &mut user, &mut admin, &key(1));
    assert_eq!(moved, Ok(10));
    assert_eq!(user.total_lxr_forfeited, 14);
    assert_eq!(user.blacklisted_sol, 10);
    assert_eq!(user.total_staked_sol, 0);
    assert_eq!(user.lxr_rewards_pending, 0);
    assert_eq!(user.base_lxr_holdings, 0);
    assert_eq!(user.lxr_reward_per_token_completed, 2_000_000_000_000_000_000);
    assert_eq!(admin.owner, key(1));
    assert_eq!(admin.total_staked_sol, 10);
    assert_eq!(admin.lxr_rewards_pending, 14);
    assert_eq!(admin.lxr_reward_per_token_completed, 2_000_000_000_000_000_000);
    stake.reward_per_token_lxr_stored = 3_000_000_000_000_000_000;
    let mut other = staker(0, 3_000_000_000_000_000_000, 0, 0);
    assert_eq!(blacklist(&stake, &mut other, &mut admin, &key(1)), Ok(0));
    assert_eq!(admin.lxr_rewards_pending, 24);
}

#[test]
fn manual_purchase_records_stake() {
    let (_, mut stake) = setup();
    let mut user = UserStakeInfo::new_empty();
    assert_eq!(manual_purchase(&mut stake, &mut user, &key(9), 700, 300, 2_282_880, 5), Ok(()));
    assert_eq!(stake.total_staked_sol, 300);
    assert_eq!(stake.total_stake_count, 0);
    assert_eq!(stake.last_tracked_sol_balance, 2_283_180);
    assert_eq!(user.owner, key(9));
    assert_eq!(user.total_staked_sol, 300);
    assert_eq!(user.base_lxr_holdings, 700);
    let mut full = staker(u64::MAX, 0, 0, 0);
    assert_eq!(manual_purchase(&mut stake, &mut full, &key(9), 1, 1, 2_283_180, 6), Err(ErrorCode::MathOverflow));
}

#[test]
fn update_config_selectors() {
    let (mut config, _) = setup();
    assert_eq!(update_config(&mut config, 1, 77, None), Ok(()));
    assert_eq!(config.min_swap_amount, 77);
    assert_eq!(update_config(&mut config, 2, 88, None), Ok(()));
    assert_eq!(config.max_swap_amount, 88);
    assert_eq!(update_config(&mut config, 3, 99, None), Ok(()));
    assert_eq!(config.fee_treasury_rate, 99);
    assert_eq!(update_config(&mut config, 4, 0, None), Ok(()));
    assert!(!config.purchase_enabled);
    assert_eq!(update_config(&mut config, 5, 0, None), Ok(()));
    assert!(!config.redeem_enabled);
    assert_eq!(update_config(&mut config, 6, 12, None), Ok(()));
    assert_eq!(config.max_stake_count_to_get_bonus, 12);
    assert_eq!(update_config(&mut config, 0, 0, Some(key(5))), Ok(()));
    assert_eq!(config.admin, key(5));
    let before = config;
    assert_eq!(update_config(&mut config, 0, 0, None), Err(ErrorCode::MissingRemainingAccount));
    assert_eq!(update_config(&mut config, 0, 0, Some([0u8; 32])), Err(ErrorCode::RequireKeysNeqViolated));
    assert_eq!(update_config(&mut config, 7, 1, None), Err(ErrorCode::InvalidParam));
    assert_eq!(config, before);
}

#[test]
fn emergency_withdraw_actions() {
    let (_, mut stake) = setup();
    stake.reward_per_token_lxr_stored = 2_000_000_000_000_000_000;
    let mut admin = staker(10, 0, 0, 3);
    assert_eq!(emergency_withdraw(&stake, &mut admin, 0, 0, 55, 66), Ok(EmergencyAction::WithdrawLxr { amount: 55 }));
    assert_eq!(emergency_withdraw(&stake, &mut admin, 1, 0, 55, 66), Ok(EmergencyAction::WithdrawSol { amount: 66 }));
    assert_eq!(emergency_withdraw(&stake, &mut admin, 3, 0, 55, 66), Ok(EmergencyAction::DeactivateStake));
    assert_eq!(emergency_withdraw(&stake, &mut admin, 4, 12, 55, 66), Ok(EmergencyAction::WithdrawStake { amount: 12 }));
    assert_eq!(emergency_withdraw(&stake, &mut admin, 9, 12, 55, 66), Err(ErrorCode::InvalidParam));
    assert_eq!(emergency_withdraw(&stake, &mut admin, 2, 0, 55, 66), Ok(EmergencyAction::PayAdminRewards { amount: 23 }));
    assert_eq!(admin.lxr_rewards_pending, 0);
    assert_eq!(admin.lxr_reward_per_token_completed, 2_000_000_000_000_000_000);
}
