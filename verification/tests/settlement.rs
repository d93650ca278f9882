use staking_on_solana::error::StakingError;
use staking_on_solana::state::{Address, PoolConfig, PoolState, UserInfo};
use staking_on_solana::utils::{calculate_reward, harvest, settle};

fn config(rate: u64, end_time: u64) -> PoolConfig {
    PoolConfig {
        owner: Address::new(0, 1),
        pool_id: String::from("alpha"),
        start_time: 0,
        end_time,
        pool_fee: 0,
        reward_per_unit_time: rate,
        stake_asset_id: Address::new(0, 2),
        reward_asset_id: Address::new(0, 3),
        stake_decimals: 9,
        reward_decimals: 9,
        stake_vault_id: Address::new(0, 4),
        reward_vault_id: Address::new(0, 5),
        state_id: Address::new(0, 6),
    }
}

fn state(funded: u64, paid: u64, earned: u64, accumulator: u64) -> PoolState {
    PoolState {
        funded_reward_amount: funded,
        total_staked: 100,
        last_accrual_time: 0,
        acc_reward_per_share: accumulator,
        total_paid: paid,
        total_earned: earned,
    }
}

fn user(staked: u64, debt: u64) -> UserInfo {
    UserInfo { staked_amount: staked, reward_debt: debt, last_deposit_time: 0 }
}

#[test]
fn pending_is_earned_less_debt() {
    let c = config(10, 1_000);
    let s = state(1_000, 0, 1_000, 10_000_000_000);
    assert_eq!(calculate_reward(&c, &s, &user(100, 0)), Ok(1_000));
    assert_eq!(calculate_reward(&c, &s, &user(100, 400)), Ok(600));
    assert_eq!(calculate_reward(&c, &s, &user(100, 1_000)), Ok(0));
    assert_eq!(calculate_reward(&c, &s, &user(0, 0)), Ok(0));
}

#[test]
fn pending_fails_on_a_debt_above_the_earnings() {
    let c = config(10, 1_000);
    let s = state(1_000, 0, 1_000, 10_000_000_000);
    assert_eq!(calculate_reward(&c, &s, &user(100, 1_001)), Err(StakingError::ArithmeticOverflow));
}

#[test]
fn pending_fails_when_the_earnings_leave_64_bits() {
    let c = config(10, 1_000);
    let s = state(1_000, 0, 1_000, u64::MAX);
    assert_eq!(calculate_reward(&c, &s, &user(2, 0)), Ok(36_893_488_147));
    assert_eq!(
        calculate_reward(&c, &s, &user(1_000_000_001, 0)),
        Err(StakingError::ArithmeticOverflow)
    );
}

#[test]
fn settle_pays_and_lowers_the_headroom() {
    let c = config(10, 1_000);
    let mut s = state(5_000, 1_000, 4_000, 10_000_000_000);
    assert_eq!(settle(&c, &mut s, &user(100, 400)), Ok(600));
    assert_eq!(s, state(5_000, 1_600, 3_400, 10_000_000_000));
}

#[test]
fn settle_of_nothing_changes_nothing() {
    let c = config(10, 1_000);
    let mut s = state(5_000, 5_000, 0, 10_000_000_000);
    assert_eq!(settle(&c, &mut s, &user(100, 1_000)), Ok(0));
    assert_eq!(s, state(5_000, 5_000, 0, 10_000_000_000));
}

#[test]
fn settle_floors_total_earned_at_zero() {
    let c = config(10, 1_000);
    let mut s = state(5_000, 0, 100, 10_000_000_000);
    assert_eq!(settle(&c, &mut s, &user(100, 0)), Ok(1_000));
    assert_eq!(s, state(5_000, 1_000, 0, 10_000_000_000));
    let mut exact = state(5_000, 0, 1_000, 10_000_000_000);
    assert_eq!(settle(&c, &mut exact, &user(100, 0)), Ok(1_000));
    assert_eq!(exact, state(5_000, 1_000, 0, 10_000_000_000));
}

#[test]
fn settle_may_use_the_funding_to_the_last_unit() {
    let c = config(10, 1_000);
    let mut s = state(1_600, 600, 1_000, 10_000_000_000);
    assert_eq!(settle(&c, &mut s, &user(100, 0)), Ok(1_000));
    assert_eq!(s.total_paid, 1_600);
}

#[test]
fn settle_refuses_what_the_funding_does_not_cover() {
    let c = config(10, 1_000);
    let mut s = state(1_599, 600, 999, 10_000_000_000);
    assert_eq!(settle(&c, &mut s, &user(100, 0)), Err(StakingError::InsufficientReward));
    assert_eq!(s, state(1_599, 600, 999, 10_000_000_000));
}

#[test]
fn settle_refuses_everything_on_an_overdrawn_pool() {
    let c = config(10, 1_000);
    let mut s = state(100, 200, 0, 10_000_000_000);
    assert_eq!(settle(&c, &mut s, &user(100, 999)), Err(StakingError::InsufficientReward));
    assert_eq!(s, state(100, 200, 0, 10_000_000_000));
}

#[test]
fn harvest_accrues_then_settles() {
    let c = config(10, 1_000);
    let mut s = state(5_000, 0, 5_000, 0);
    assert_eq!(harvest(&c, &mut s, &user(100, 0), 30), Ok(300));
    assert_eq!(s.acc_reward_per_share, 3_000_000_000);
    assert_eq!(s.last_accrual_time, 30);
    assert_eq!(s.total_paid, 300);
    assert_eq!(s.total_earned, 4_700);
}

#[test]
fn harvest_that_fails_undoes_the_accrual() {
    let c = config(10, 1_000);
    let mut s = state(299, 0, 299, 0);
    assert_eq!(harvest(&c, &mut s, &user(100, 0), 30), Err(StakingError::InsufficientReward));
    assert_eq!(s, state(299, 0, 299, 0));
}
