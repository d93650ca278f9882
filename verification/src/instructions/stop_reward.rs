use vstd::prelude::*;
use crate::error::StakingError;
use crate::state::address::Address;
use crate::state::pool_config::PoolConfig;
use crate::state::pool_state::PoolState;
use crate::utils::{accrued, update_pool};

verus! {

/// A stop asked by `caller` at `now`: the descriptor and the state
/// afterwards.
///
/// Only the pool's owner may ask, and only while the pool is running.
/// Reward is accrued up to `now`; then `end_time` becomes `now`, so that
/// no reward accrues from there on.
pub open spec fn outcome(
    config: PoolConfig,
    state: PoolState,
    caller: Address,
    now: u64,
) -> Result<(PoolConfig, PoolState), StakingError> {
    if caller != config.owner {
        Err(StakingError::Unauthorized)
    } else if !config.is_running(now) {
        Err(StakingError::PoolNotActive)
    } else {
        match accrued(config, state, now) {
            Ok(current) => Ok((PoolConfig { end_time: now, ..config }, current)),
            Err(e) => Err(e),
        }
    }
}

/// Stops a running pool.
///
/// On success the records are those of `outcome`. On failure nothing has
/// changed. Either way the state differs from what it was by the accrual
/// at most.
pub fn handler(
    config: &mut PoolConfig,
    state: &mut PoolState,
    caller: &Address,
    now: u64,
) -> (result: Result<(), StakingError>)
    ensures
        match outcome(*old(config), *old(state), *caller, now) {
            Ok((next_config, next_state)) => {
                &&& result == Ok::<(), StakingError>(())
                &&& *final(config) == next_config
                &&& *final(state) == next_state
            },
            Err(e) => {
                &&& result == Err::<(), StakingError>(e)
                &&& *final(config) == *old(config)
                &&& *final(state) == *old(state)
            },
        },
        final(state).acc_reward_per_share >= old(state).acc_reward_per_share,
        *final(state) == (PoolState {
            acc_reward_per_share: final(state).acc_reward_per_share,
            last_accrual_time: final(state).last_accrual_time,
            ..*old(state)
        }),
{
    if *caller != config.owner {
        return Err(StakingError::Unauthorized);
    }
    if !config.is_running(now) {
        return Err(StakingError::PoolNotActive);
    }
    let mut next = *state;
    match update_pool(config, &mut next, now) {
        Ok(()) => {},
        Err(e) => {
            return Err(e);
        },
    }
    config.end_time = now;
    *state = next;
    Ok(())
}

} // verus!
