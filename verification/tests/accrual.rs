use staking_on_solana::error::StakingError;
use staking_on_solana::state::{Address, PoolConfig, PoolState};
use staking_on_solana::utils::{
    available_reward_tokens, calculate_fee, earned_reward, get_precision_factor, update_pool,
    BPS_PRECISION, PRECISION_DIGITS,
};

fn config(rate: u64, end_time: u64, reward_decimals: u8) -> PoolConfig {
    PoolConfig {
        owner: Address::new(0, 1),
        pool_id: String::from("alpha"),
        start_time: 0,
        end_time,
        pool_fee: 0,
        reward_per_unit_time: rate,
        stake_asset_id: Address::new(0, 2),
        reward_asset_id: Address::new(0, 3),
        stake_decimals: 9,
        reward_decimals,
        stake_vault_id: Address::new(0, 4),
        reward_vault_id: Address::new(0, 5),
        state_id: Address::new(0, 6),
    }
}

fn state(total_staked: u64, last_accrual_time: u64, accumulator: u64) -> PoolState {
    PoolState {
        funded_reward_amount: 1_000_000,
        total_staked,
        last_accrual_time,
        acc_reward_per_share: accumulator,
        total_paid: 0,
        total_earned: 1_000_000,
    }
}

#[test]
fn constants_have_their_values() {
    assert_eq!(BPS_PRECISION, 10_000);
    assert_eq!(PRECISION_DIGITS, 18);
}

#[test]
fn precision_factor_follows_the_reward_decimals() {
    assert_eq!(get_precision_factor(&config(1, 10, 0)), 1_000_000_000_000_000_000);
    assert_eq!(get_precision_factor(&config(1, 10, 6)), 1_000_000_000_000);
    assert_eq!(get_precision_factor(&config(1, 10, 9)), 1_000_000_000);
    assert_eq!(get_precision_factor(&config(1, 10, 17)), 10);
    assert_eq!(get_precision_factor(&config(1, 10, 18)), 1);
}

#[test]
fn precision_factor_is_one_beyond_eighteen_decimals() {
    assert_eq!(get_precision_factor(&config(1, 10, 19)), 1);
    assert_eq!(get_precision_factor(&config(1, 10, 255)), 1);
}

#[test]
fn accrual_does_nothing_when_time_has_not_moved() {
    let c = config(10, 1_000, 9);
    let mut s = state(100, 50, 7);
    let before = s;
    assert_eq!(update_pool(&c, &mut s, 50), Ok(()));
    assert_eq!(s, before);
    assert_eq!(update_pool(&c, &mut s, 20), Ok(()));
    assert_eq!(s, before);
}

#[test]
fn accrual_adds_scaled_reward_per_share() {
    let c = config(10, 1_000, 9);
    let mut s = state(100, 0, 0);
    assert_eq!(update_pool(&c, &mut s, 100), Ok(()));
    assert_eq!(s.acc_reward_per_share, 10_000_000_000);
    assert_eq!(s.last_accrual_time, 100);
    assert_eq!(s.total_staked, 100);
    assert_eq!(s.total_paid, 0);
}

#[test]
fn accrual_rounds_the_increment_down() {
    let c = config(10, 1_000, 9);
    let mut s = state(3, 4, 5);
    assert_eq!(update_pool(&c, &mut s, 5), Ok(()));
    assert_eq!(s.acc_reward_per_share, 5 + 3_333_333_333);
    assert_eq!(s.last_accrual_time, 5);
}

#[test]
fn accrual_stops_at_the_end_time() {
    let c = config(10, 60, 9);
    let mut s = state(100, 50, 0);
    assert_eq!(update_pool(&c, &mut s, 500), Ok(()));
    assert_eq!(s.acc_reward_per_share, 1_000_000_000);
    assert_eq!(s.last_accrual_time, 60);
}

#[test]
fn accrual_after_the_end_moves_only_the_clock() {
    let c = config(10, 60, 9);
    let mut s = state(100, 60, 42);
    assert_eq!(update_pool(&c, &mut s, 61), Ok(()));
    assert_eq!(s, state(100, 60, 42));
    let mut late = state(100, 80, 42);
    assert_eq!(update_pool(&c, &mut late, 90), Ok(()));
    assert_eq!(late, state(100, 60, 42));
}

#[test]
fn accrual_skips_an_empty_pool() {
    let c = config(10, 1_000, 9);
    let mut s = state(0, 10, 77);
    assert_eq!(update_pool(&c, &mut s, 900), Ok(()));
    assert_eq!(s, state(0, 900, 77));
    assert_eq!(update_pool(&c, &mut s, 5_000), Ok(()));
    assert_eq!(s, state(0, 1_000, 77));
}

#[test]
fn accrual_twice_with_the_same_time_equals_once() {
    let c = config(7, 1_000, 9);
    for now in [0u64, 10, 11, 999, 1_000, 1_001, u64::MAX] {
        let mut once = state(13, 10, 5);
        assert_eq!(update_pool(&c, &mut once, now), Ok(()));
        let mut twice = once;
        assert_eq!(update_pool(&c, &mut twice, now), Ok(()));
        assert_eq!(twice, once);
    }
}

#[test]
fn accrual_never_lowers_the_accumulator() {
    let c = config(3, 500, 9);
    let mut s = state(1_000, 0, 0);
    let mut last = 0;
    for now in [1u64, 2, 2, 50, 40, 499, 500, 501, 10_000] {
        assert_eq!(update_pool(&c, &mut s, now), Ok(()));
        assert!(s.acc_reward_per_share >= last);
        last = s.acc_reward_per_share;
    }
    assert_eq!(last, 3 * 500 * 1_000_000_000 / 1_000);
}

#[test]
fn accrual_fails_when_the_reward_overflows() {
    let c = config(u64::MAX, 1_000, 9);
    let mut s = state(100, 0, 9);
    assert_eq!(update_pool(&c, &mut s, 2), Err(StakingError::ArithmeticOverflow));
    assert_eq!(s, state(100, 0, 9));
}

#[test]
fn accrual_forms_the_scaled_reward_in_128_bits() {
    let c = config(10_000_000_000, 1_000, 9);
    let mut s = state(100, 0, 9);
    assert_eq!(update_pool(&c, &mut s, 2), Ok(()));
    assert_eq!(s.acc_reward_per_share, 9 + 200_000_000_000_000_000);
    let coarse = config(10, 1_000, 0);
    let mut t = state(100, 0, 0);
    assert_eq!(update_pool(&coarse, &mut t, 100), Ok(()));
    assert_eq!(t.acc_reward_per_share, 10_000_000_000_000_000_000);
}

#[test]
fn accrual_fails_when_the_growth_leaves_64_bits() {
    let c = config(10, 1_000, 0);
    let mut s = state(100, 0, 0);
    assert_eq!(update_pool(&c, &mut s, 185), Err(StakingError::ArithmeticOverflow));
    assert_eq!(s, state(100, 0, 0));
    assert_eq!(update_pool(&c, &mut s, 184), Ok(()));
    assert_eq!(s.acc_reward_per_share, 18_400_000_000_000_000_000);
}

#[test]
fn accrual_fails_when_the_accumulator_overflows() {
    let c = config(1, 1_000, 9);
    let mut s = state(100_000_000, 0, u64::MAX - 5);
    assert_eq!(update_pool(&c, &mut s, 1), Err(StakingError::ArithmeticOverflow));
    assert_eq!(s, state(100_000_000, 0, u64::MAX - 5));
    let mut fits = state(200_000_000, 0, u64::MAX - 5);
    assert_eq!(update_pool(&c, &mut fits, 1), Ok(()));
    assert_eq!(fits.acc_reward_per_share, u64::MAX);
}

#[test]
fn earned_reward_divides_by_the_precision() {
    let c = config(1, 10, 9);
    assert_eq!(earned_reward(&c, 10_000_000_000, 100), Ok(1_000));
    assert_eq!(earned_reward(&c, 3_333_333_333, 2), Ok(6));
    assert_eq!(earned_reward(&c, 0, 100), Ok(0));
    assert_eq!(earned_reward(&c, 999_999_999, 1), Ok(0));
}

#[test]
fn earned_reward_forms_the_product_in_128_bits() {
    let c = config(1, 10, 9);
    assert_eq!(earned_reward(&c, u64::MAX, 2), Ok(36_893_488_147));
    assert_eq!(earned_reward(&c, u64::MAX, 1), Ok(u64::MAX / 1_000_000_000));
    assert_eq!(earned_reward(&c, u64::MAX, 1_000_000_000), Ok(u64::MAX));
    let coarse = config(1, 10, 0);
    assert_eq!(earned_reward(&coarse, 10_000_000_000_000_000_000, 100), Ok(1_000));
}

#[test]
fn earned_reward_fails_when_the_quotient_leaves_64_bits() {
    let c = config(1, 10, 9);
    assert_eq!(earned_reward(&c, u64::MAX, 1_000_000_001), Err(StakingError::ArithmeticOverflow));
    let fine = config(1, 10, 18);
    assert_eq!(earned_reward(&fine, u64::MAX, 2), Err(StakingError::ArithmeticOverflow));
    assert_eq!(earned_reward(&fine, u64::MAX, 1), Ok(u64::MAX));
}

#[test]
fn fee_is_basis_points_rounded_down() {
    assert_eq!(calculate_fee(10_000, 250), Ok(250));
    assert_eq!(calculate_fee(12_345, 30), Ok(37));
    assert_eq!(calculate_fee(99, 100), Ok(0));
    assert_eq!(calculate_fee(100, 0), Ok(0));
    assert_eq!(calculate_fee(100, 10_000), Ok(100));
    assert_eq!(calculate_fee(100, 20_000), Ok(200));
}

#[test]
fn fee_forms_the_product_in_128_bits() {
    assert_eq!(calculate_fee(u64::MAX, 2), Ok(3_689_348_814_741_910));
    assert_eq!(calculate_fee(u64::MAX, 10_000), Ok(u64::MAX));
}

#[test]
fn fee_fails_when_the_quotient_leaves_64_bits() {
    assert_eq!(calculate_fee(u64::MAX, 10_001), Err(StakingError::ArithmeticOverflow));
    assert_eq!(calculate_fee(u64::MAX, u16::MAX), Err(StakingError::ArithmeticOverflow));
}

#[test]
fn available_reward_is_funding_less_paid() {
    let mut s = state(0, 0, 0);
    assert_eq!(available_reward_tokens(&s), 1_000_000);
    s.total_paid = 400_000;
    assert_eq!(available_reward_tokens(&s), 600_000);
    s.total_paid = 1_000_000;
    assert_eq!(available_reward_tokens(&s), 0);
    s.total_paid = 1_000_001;
    assert_eq!(available_reward_tokens(&s), 0);
}
