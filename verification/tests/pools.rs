use staking_on_solana::error::StakingError;
use staking_on_solana::instructions::compound_reward::SwapOrder;
use staking_on_solana::instructions::create_pool::{CreatePool, CreateReceipt};
use staking_on_solana::pool::{Pool, Staker};
use staking_on_solana::registry::Registry;
use staking_on_solana::state::{Address, PlatformInfo, UserInfo};
use staking_on_solana::{
    claim_reward, complete_swap, compound_reward, create_pool, initialize, stake, start_reward,
    stop_reward, unstake,
};

fn platform(stake_fee_bps: u16, unstake_fee_bps: u16) -> PlatformInfo {
    let mut p = PlatformInfo {
        treasury_id: Address::new(0, 0),
        deploy_fee: 0,
        stake_fee_bps: 0,
        unstake_fee_bps: 0,
    };
    initialize(&mut p, Address::new(0, 9), 77, stake_fee_bps, unstake_fee_bps);
    p
}

fn accounts(creator: u128, reward_asset: u128) -> CreatePool {
    CreatePool {
        creator: Address::new(1, creator),
        stake_asset_id: Address::new(0, 2),
        stake_decimals: 9,
        reward_asset_id: Address::new(0, reward_asset),
        reward_decimals: 9,
        stake_vault_id: Address::new(0, 4),
        reward_vault_id: Address::new(0, 5),
        state_id: Address::new(0, 6),
    }
}

fn pool(funding: u64, rate: u64, end_time: u64, reward_asset: u128) -> Pool {
    let mut registry = Registry::new();
    create_pool(
        &mut registry,
        &platform(0, 0),
        &accounts(1, reward_asset),
        String::from("alpha"),
        0,
        funding,
        rate,
        0,
        end_time,
        0,
    )
    .unwrap();
    registry.pools.pop().unwrap()
}

fn staked_sum(pool: &Pool) -> u64 {
    pool.stakers.iter().map(|s| s.info.staked_amount).sum()
}

#[test]
fn initialize_sets_the_platform_record() {
    assert_eq!(
        platform(25, 50),
        PlatformInfo {
            treasury_id: Address::new(0, 9),
            deploy_fee: 77,
            stake_fee_bps: 25,
            unstake_fee_bps: 50,
        }
    );
}

#[test]
fn registry_takes_a_new_pool_at_the_end() {
    let mut registry = Registry::new();
    let p = platform(0, 0);
    let first = create_pool(
        &mut registry,
        &p,
        &accounts(1, 3),
        String::from("alpha"),
        1,
        500,
        10,
        0,
        100,
        7,
    );
    assert_eq!(first, Ok(CreateReceipt { funding: 500, deploy_fee: 77 }));
    let second = create_pool(
        &mut registry,
        &p,
        &accounts(1, 3),
        String::from("beta"),
        2,
        600,
        20,
        10,
        100,
        8,
    );
    assert_eq!(second, Ok(CreateReceipt { funding: 600, deploy_fee: 77 }));
    assert_eq!(registry.pools.len(), 2);
    assert_eq!(registry.pools[0].config.pool_id, "alpha");
    assert_eq!(registry.pools[1].config.pool_id, "beta");
    assert_eq!(registry.pools[1].config.owner, Address::new(1, 1));
    assert_eq!(registry.pools[1].state.funded_reward_amount, 600);
    assert_eq!(registry.pools[1].state.last_accrual_time, 10);
    assert_eq!(registry.pools[0].state.last_accrual_time, 7);
    assert!(registry.pools[1].stakers.is_empty());
    assert_eq!(registry.find_pool(&Address::new(1, 1), &String::from("beta")), Some(1));
    assert_eq!(registry.find_pool(&Address::new(1, 1), &String::from("alpha")), Some(0));
    assert_eq!(registry.find_pool(&Address::new(1, 1), &String::from("gamma")), None);
    assert_eq!(registry.find_pool(&Address::new(1, 2), &String::from("alpha")), None);
}

#[test]
fn registry_refuses_a_second_pool_of_one_owner_and_name() {
    let mut registry = Registry::new();
    let p = platform(0, 0);
    create_pool(&mut registry, &p, &accounts(1, 3), String::from("alpha"), 0, 5, 1, 0, 100, 0)
        .unwrap();
    let again =
        create_pool(&mut registry, &p, &accounts(1, 3), String::from("alpha"), 9, 9, 9, 5, 900, 9);
    assert_eq!(again, Err(StakingError::InvalidConfiguration));
    assert_eq!(registry.pools.len(), 1);
    assert_eq!(registry.pools[0].state.funded_reward_amount, 5);
    let other_owner =
        create_pool(&mut registry, &p, &accounts(2, 3), String::from("alpha"), 0, 5, 1, 0, 100, 0);
    assert!(other_owner.is_ok());
    let other_name =
        create_pool(&mut registry, &p, &accounts(1, 3), String::from("Alpha"), 0, 5, 1, 0, 100, 0);
    assert!(other_name.is_ok());
    assert_eq!(registry.pools.len(), 3);
}

#[test]
fn registry_refuses_malformed_parameters() {
    let mut registry = Registry::new();
    let p = platform(0, 0);
    let r = create_pool(&mut registry, &p, &accounts(1, 3), String::from("alpha"), 0, 5, 1, 9, 9, 0);
    assert_eq!(r, Err(StakingError::InvalidConfiguration));
    assert!(registry.pools.is_empty());
}

#[test]
fn first_deposit_makes_the_ledger() {
    let mut pool = pool(1_000, 10, 100, 3);
    let alice = Address::new(5, 1);
    assert_eq!(pool.find(&alice), None);
    assert_eq!(pool.user_info(&alice), UserInfo::new());
    stake(&platform(0, 0), &mut pool, &alice, 40, 3).unwrap();
    assert_eq!(pool.find(&alice), Some(0));
    assert_eq!(
        pool.stakers,
        vec![Staker {
            id: alice,
            info: UserInfo { staked_amount: 40, reward_debt: 0, last_deposit_time: 3 },
        }]
    );
    stake(&platform(0, 0), &mut pool, &alice, 2, 3).unwrap();
    assert_eq!(pool.stakers.len(), 1);
    assert_eq!(pool.user_info(&alice).staked_amount, 42);
}

#[test]
fn refused_deposit_makes_no_ledger() {
    let mut registry = Registry::new();
    create_pool(
        &mut registry,
        &platform(0, 0),
        &accounts(1, 3),
        String::from("alpha"),
        0,
        1_000,
        10,
        50,
        100,
        0,
    )
    .unwrap();
    let mut pool = registry.pools.pop().unwrap();
    let r = stake(&platform(0, 0), &mut pool, &Address::new(5, 1), 40, 3);
    assert_eq!(r, Err(StakingError::PoolNotActive));
    assert!(pool.stakers.is_empty());
    assert_eq!(pool.state.total_staked, 0);
}

#[test]
fn two_stakers_share_in_proportion() {
    let mut pool = pool(1_000_000, 40, 1_000, 3);
    let p = platform(0, 0);
    let (alice, bob) = (Address::new(5, 1), Address::new(5, 2));
    stake(&p, &mut pool, &alice, 100, 0).unwrap();
    stake(&p, &mut pool, &bob, 300, 0).unwrap();
    assert_eq!(claim_reward(&mut pool, &alice, 10), Ok(100));
    assert_eq!(claim_reward(&mut pool, &bob, 10), Ok(300));
    assert_eq!(pool.state.total_paid, 400);
    assert_eq!(pool.state.acc_reward_per_share, 1_000_000_000);
}

#[test]
fn rounding_never_pays_more_than_accrued() {
    let mut pool = pool(1_000_000, 10, 1_000, 3);
    let p = platform(0, 0);
    let (alice, bob) = (Address::new(5, 1), Address::new(5, 2));
    stake(&p, &mut pool, &alice, 1, 0).unwrap();
    stake(&p, &mut pool, &bob, 2, 0).unwrap();
    assert_eq!(claim_reward(&mut pool, &alice, 1), Ok(3));
    assert_eq!(claim_reward(&mut pool, &bob, 1), Ok(6));
    assert_eq!(pool.state.total_paid, 9);
}

#[test]
fn total_staked_is_the_sum_of_the_balances() {
    let mut pool = pool(1_000_000, 7, 1_000, 2);
    let p = platform(100, 200);
    let ids = [Address::new(5, 1), Address::new(5, 2), Address::new(6, 1)];
    let mut now = 0;
    for round in 0..20u64 {
        for (k, id) in ids.iter().enumerate() {
            now += 1;
            let amount = 1_000 + 37 * round + k as u64;
            let _ = stake(&p, &mut pool, id, amount, now);
            assert_eq!(pool.state.total_staked, staked_sum(&pool));
            let _ = compound_reward(&mut pool, id, now + 1, None);
            assert_eq!(pool.state.total_staked, staked_sum(&pool));
            let _ = unstake(&p, &mut pool, id, amount / 2, now + 2);
            assert_eq!(pool.state.total_staked, staked_sum(&pool));
            let _ = claim_reward(&mut pool, id, now + 3);
            assert_eq!(pool.state.total_staked, staked_sum(&pool));
            assert!(pool.state.total_paid <= pool.state.funded_reward_amount);
        }
    }
    assert_eq!(pool.stakers.len(), 3);
    assert!(pool.state.total_staked > 0);
    assert!(pool.state.total_paid > 0);
}

#[test]
fn paid_never_exceeds_funded() {
    let mut pool = pool(1_000, 50, 1_000, 3);
    let p = platform(0, 0);
    let (alice, bob) = (Address::new(5, 1), Address::new(5, 2));
    stake(&p, &mut pool, &alice, 10, 0).unwrap();
    stake(&p, &mut pool, &bob, 10, 0).unwrap();
    let mut refused = 0;
    for now in 1..100u64 {
        for id in [alice, bob] {
            match claim_reward(&mut pool, &id, now) {
                Ok(_) => {}
                Err(e) => {
                    assert_eq!(e, StakingError::InsufficientReward);
                    refused += 1;
                }
            }
            assert!(pool.state.total_paid <= 1_000);
            assert_eq!(pool.state.funded_reward_amount, 1_000);
        }
    }
    assert!(refused > 0);
    assert!(pool.state.total_paid > 900);
}

#[test]
fn only_a_staker_with_a_ledger_may_withdraw_claim_or_compound() {
    let mut pool = pool(1_000_000, 10, 1_000, 3);
    let p = platform(0, 0);
    let (alice, mallory) = (Address::new(5, 1), Address::new(5, 2));
    stake(&p, &mut pool, &alice, 100, 0).unwrap();
    assert_eq!(unstake(&p, &mut pool, &mallory, 1, 5), Err(StakingError::Unauthorized));
    assert_eq!(claim_reward(&mut pool, &mallory, 5), Err(StakingError::Unauthorized));
    assert_eq!(compound_reward(&mut pool, &mallory, 5, None), Err(StakingError::Unauthorized));
    let order = SwapOrder { amount_in: 1, minimum_amount_out: 1, ordered_at: 5 };
    assert_eq!(complete_swap(&mut pool, &mallory, &order, Some(5)), Err(StakingError::Unauthorized));
    assert_eq!(pool.stakers.len(), 1);
    assert_eq!(pool.state.last_accrual_time, 0);
    assert_eq!(pool.state.total_staked, 100);
}

#[test]
fn ledger_of_a_staker_who_left_stays() {
    let mut pool = pool(1_000_000, 10, 1_000, 3);
    let p = platform(0, 0);
    let alice = Address::new(5, 1);
    stake(&p, &mut pool, &alice, 100, 0).unwrap();
    unstake(&p, &mut pool, &alice, 100, 10).unwrap();
    assert_eq!(pool.find(&alice), Some(0));
    assert_eq!(claim_reward(&mut pool, &alice, 20), Ok(0));
    assert_eq!(unstake(&p, &mut pool, &alice, 1, 20), Err(StakingError::InsufficientStake));
}

#[test]
fn compounding_through_an_exchange_credits_its_output() {
    let mut pool = pool(1_000_000, 10, 1_000, 3);
    let p = platform(0, 0);
    let alice = Address::new(5, 1);
    stake(&p, &mut pool, &alice, 100, 0).unwrap();
    let state_before = pool.state;
    let stakers_before = pool.stakers.clone();
    let receipt = compound_reward(&mut pool, &alice, 10, Some(50)).unwrap();
    assert_eq!(receipt.reward, 0);
    assert_eq!(receipt.added_stake, 0);
    let order = receipt.swap.unwrap();
    assert_eq!(order, SwapOrder { amount_in: 100, minimum_amount_out: 50, ordered_at: 10 });
    assert_eq!(pool.state, state_before);
    assert_eq!(pool.stakers, stakers_before);
    assert_eq!(
        complete_swap(&mut pool, &alice, &order, Some(49)),
        Err(StakingError::TransferFailed)
    );
    assert_eq!(complete_swap(&mut pool, &alice, &order, None), Err(StakingError::TransferFailed));
    assert_eq!(pool.state, state_before);
    assert_eq!(pool.stakers, stakers_before);
    assert_eq!(complete_swap(&mut pool, &alice, &order, Some(60)), Ok(60));
    assert_eq!(pool.state.total_staked, 160);
    assert_eq!(pool.state.total_paid, 100);
    assert_eq!(
        pool.user_info(&alice),
        UserInfo { staked_amount: 160, reward_debt: 160, last_deposit_time: 0 }
    );
    assert_eq!(
        complete_swap(&mut pool, &alice, &order, Some(60)),
        Err(StakingError::TransferFailed)
    );
    assert_eq!(pool.state.total_staked, 160);
}

#[test]
fn compounding_the_same_asset_needs_no_exchange() {
    let mut pool = pool(1_000_000, 10, 1_000, 2);
    let p = platform(0, 0);
    let alice = Address::new(5, 1);
    stake(&p, &mut pool, &alice, 100, 0).unwrap();
    let receipt = compound_reward(&mut pool, &alice, 10, Some(50)).unwrap();
    assert_eq!(receipt.added_stake, 100);
    assert_eq!(receipt.swap, None);
    assert_eq!(pool.state.total_staked, 200);
    assert_eq!(pool.state.total_paid, 100);
}

#[test]
fn owner_starts_and_stops_the_pool() {
    let mut pool = pool(1_000_000, 10, 1_000, 3);
    let (owner, other) = (Address::new(1, 1), Address::new(5, 1));
    assert_eq!(start_reward(&mut pool, &other, 5), Err(StakingError::Unauthorized));
    assert_eq!(start_reward(&mut pool, &owner, 5), Ok(()));
    assert_eq!(pool.config.start_time, 6);
    assert_eq!(start_reward(&mut pool, &owner, 6), Err(StakingError::PoolNotStarted));
    assert_eq!(stop_reward(&mut pool, &other, 9), Err(StakingError::Unauthorized));
    assert_eq!(stop_reward(&mut pool, &owner, 5), Err(StakingError::PoolNotActive));
    assert_eq!(stop_reward(&mut pool, &owner, 9), Ok(()));
    assert_eq!(pool.config.end_time, 9);
    assert_eq!(pool.state.last_accrual_time, 9);
    assert_eq!(stop_reward(&mut pool, &owner, 9), Err(StakingError::PoolNotActive));
    assert_eq!(
        stake(&platform(0, 0), &mut pool, &other, 5, 9),
        Err(StakingError::PoolNotActive)
    );
}

#[test]
fn rounding_of_the_debt_can_return_one_unit() {
    let mut pool = pool(1_000_000, 1, 1_000, 3);
    let p = platform(0, 0);
    let (alice, bob) = (Address::new(5, 1), Address::new(5, 2));
    stake(&p, &mut pool, &alice, 2, 0).unwrap();
    stake(&p, &mut pool, &bob, 1, 1).unwrap();
    assert_eq!(pool.state.acc_reward_per_share, 500_000_000);
    assert_eq!(pool.user_info(&bob).reward_debt, 0);
    assert_eq!(claim_reward(&mut pool, &bob, 2), Ok(0));
    assert_eq!(pool.state.acc_reward_per_share, 833_333_333);
    assert_eq!(claim_reward(&mut pool, &bob, 3), Ok(1));
    assert_eq!(pool.state.acc_reward_per_share, 1_166_666_666);
    assert_eq!(claim_reward(&mut pool, &alice, 3), Ok(2));
    assert_eq!(pool.state.total_paid, 3);
}

#[test]
fn no_staker_is_paid_more_than_the_share() {
    let balances = [1u64, 2, 3, 7, 11, 1_000_003, 999_999_937];
    let total: u128 = balances.iter().map(|b| *b as u128).sum();
    for (rate, elapsed) in [(1u64, 1u64), (10, 1), (7, 13), (1_000_003, 17), (3, 999)] {
        let mut pool = pool(u64::MAX, rate, 1_000_000, 3);
        let p = platform(0, 0);
        for (k, balance) in balances.iter().enumerate() {
            stake(&p, &mut pool, &Address::new(5, k as u128), *balance, 0).unwrap();
        }
        let reward = (rate * elapsed) as u128;
        let precision = 1_000_000_000u128;
        let mut paid_out: u128 = 0;
        for (k, balance) in balances.iter().enumerate() {
            let paid = claim_reward(&mut pool, &Address::new(5, k as u128), elapsed).unwrap();
            let (paid, staked) = (paid as u128, *balance as u128);
            assert!(paid * total <= staked * reward);
            assert!(
                (paid + 1) * total * precision + staked * total > staked * reward * precision
            );
            paid_out += paid;
        }
        assert!(paid_out <= reward);
        assert_eq!(pool.state.total_paid as u128, paid_out);
    }
}
