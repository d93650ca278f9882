use vstd::prelude::*;
use crate::error::StakingError;
use crate::state::address::Address;
use crate::state::platform_info::PlatformInfo;
use crate::state::pool_config::PoolConfig;
use crate::state::pool_state::PoolState;

verus! {

/// The accounts that a pool is created with.
#[derive(Clone, Copy, Debug, PartialEq, Eq, Structural)]
pub struct CreatePool {
    /// Creates the pool, funds it and pays the deploy fee.
    pub creator: Address,
    pub stake_asset_id: Address,
    pub stake_decimals: u8,
    pub reward_asset_id: Address,
    pub reward_decimals: u8,
    pub stake_vault_id: Address,
    pub reward_vault_id: Address,
    /// Where the pool's state will be kept.
    pub state_id: Address,
}

/// What the host has to move for a new pool.
#[derive(Clone, Copy, Debug, PartialEq, Eq, Structural)]
pub struct CreateReceipt {
    /// The funding: from the creator to the pool's reward vault.
    pub funding: u64,
    /// The deploy fee: from the creator to the treasury.
    pub deploy_fee: u64,
}

/// A pool as it is created.
#[derive(Clone, Debug)]
pub struct NewPool {
    pub config: PoolConfig,
    pub state: PoolState,
    pub receipt: CreateReceipt,
}

/// The parameters describe a pool: it ends after it starts, and two
/// different assets do not share a vault.
pub open spec fn well_formed(accounts: CreatePool, start_time: u64, end_time: u64) -> bool {
    &&& start_time < end_time
    &&& (accounts.stake_asset_id != accounts.reward_asset_id ==> accounts.stake_vault_id
        != accounts.reward_vault_id)
}

/// The descriptor of the pool created with these parameters.
pub open spec fn new_config(
    accounts: CreatePool,
    pool_id: String,
    pool_fee: u8,
    reward_per_unit_time: u64,
    start_time: u64,
    end_time: u64,
) -> PoolConfig {
    PoolConfig {
        owner: accounts.creator,
        pool_id,
        start_time,
        end_time,
        pool_fee,
        reward_per_unit_time,
        stake_asset_id: accounts.stake_asset_id,
        reward_asset_id: accounts.reward_asset_id,
        stake_decimals: accounts.stake_decimals,
        reward_decimals: accounts.reward_decimals,
        stake_vault_id: accounts.stake_vault_id,
        reward_vault_id: accounts.reward_vault_id,
        state_id: accounts.state_id,
    }
}

/// The state of a pool created at `now` with `initial_funding`: nothing
/// staked, nothing paid, and accrual beginning at the start time where one
/// is given, at `now` where it is zero.
pub open spec fn new_state(initial_funding: u64, start_time: u64, now: u64) -> PoolState {
    PoolState {
        funded_reward_amount: initial_funding,
        total_staked: 0,
        last_accrual_time: if start_time != 0 {
            start_time
        } else {
            now
        },
        acc_reward_per_share: 0,
        total_paid: 0,
        total_earned: initial_funding,
    }
}

/// Creates a pool at `now`. `pool_exists` says whether the creator already
/// has a pool named `pool_id`.
///
/// The pool is refused with `InvalidConfiguration` where it exists already
/// or the parameters are not `well_formed`, and on no other ground. The
/// receipt says what the creator has to pay.
pub fn handler(
    accounts: &CreatePool,
    platform: &PlatformInfo,
    pool_exists: bool,
    pool_id: String,
    pool_fee: u8,
    initial_funding: u64,
    reward_per_unit_time: u64,
    start_time: u64,
    end_time: u64,
    now: u64,
) -> (result: Result<NewPool, StakingError>)
    ensures
        result is Ok <==> !pool_exists && well_formed(*accounts, start_time, end_time),
        result is Err ==> result->Err_0 == StakingError::InvalidConfiguration,
        result is Ok ==> {
            &&& result->Ok_0.config == new_config(
                *accounts,
                pool_id,
                pool_fee,
                reward_per_unit_time,
                start_time,
                end_time,
            )
            &&& result->Ok_0.state == new_state(initial_funding, start_time, now)
            &&& result->Ok_0.receipt == (CreateReceipt {
                funding: initial_funding,
                deploy_fee: platform.deploy_fee,
            })
        },
{
    if pool_exists || end_time <= start_time {
        return Err(StakingError::InvalidConfiguration);
    }
    if accounts.stake_asset_id != accounts.reward_asset_id && accounts.stake_vault_id
        == accounts.reward_vault_id {
        return Err(StakingError::InvalidConfiguration);
    }
    let config = PoolConfig {
        owner: accounts.creator,
        pool_id,
        start_time,
        end_time,
        pool_fee,
        reward_per_unit_time,
        stake_asset_id: accounts.stake_asset_id,
        reward_asset_id: accounts.reward_asset_id,
        stake_decimals: accounts.stake_decimals,
        reward_decimals: accounts.reward_decimals,
        stake_vault_id: accounts.stake_vault_id,
        reward_vault_id: accounts.reward_vault_id,
        state_id: accounts.state_id,
    };
    let state = PoolState {
        funded_reward_amount: initial_funding,
        total_staked: 0,
        last_accrual_time: if start_time != 0 {
            start_time
        } else {
            now
        },
        acc_reward_per_share: 0,
        total_paid: 0,
        total_earned: initial_funding,
    };
    let receipt = CreateReceipt { funding: initial_funding, deploy_fee: platform.deploy_fee };
    Ok(NewPool { config, state, receipt })
}

} // verus!
