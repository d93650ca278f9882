use vstd::prelude::*;
use crate::error::StakingError;
use crate::state::address::Address;
use crate::state::pool_config::PoolConfig;
use crate::state::pool_state::PoolState;
use crate::utils::{accrued, update_pool};

verus! {

/// How long after the request a pool starts.
pub const START_DELAY: u64 = 1;

/// A start asked by `caller` at `now`: the descriptor and the state
/// afterwards.
///
/// Only the pool's owner may ask, and only while `start_time` is zero.
/// Reward is accrued up to `now`; then `start_time` becomes
/// `now + START_DELAY`, which has to lie before `end_time`.
pub open spec fn outcome(
    config: PoolConfig,
    state: PoolState,
    caller: Address,
    now: u64,
) -> Result<(PoolConfig, PoolState), StakingError> {
    if caller != config.owner {
        Err(StakingError::Unauthorized)
    } else if config.start_time != 0 {
        Err(StakingError::PoolNotStarted)
    } else {
        match accrued(config, state, now) {
            Ok(current) => if now + START_DELAY > u64::MAX {
                Err(StakingError::ArithmeticOverflow)
            } else if now + START_DELAY >= config.end_time {
                Err(StakingError::InvalidConfiguration)
            } else {
                Ok((PoolConfig { start_time: (now + START_DELAY) as u64, ..config }, current))
            },
            Err(e) => Err(e),
        }
    }
}

/// Starts a pool that was created without a start time.
///
/// On success the records are those of `outcome`. On failure nothing has
/// changed. Either way the state differs from what it was by the accrual
/// at most.
pub fn handler(
    config: &mut PoolConfig,
    state: &mut PoolState,
    caller: &Address,
    now: u64,
) -> (result: Result<(), StakingError>)
    ensures
        match outcome(*old(config), *old(state), *caller, now) {
            Ok((next_config, next_state)) => {
                &&& result == Ok::<(), StakingError>(())
                &&& *final(config) == next_config
                &&& *final(state) == next_state
            },
            Err(e) => {
                &&& result == Err::<(), StakingError>(e)
                &&& *final(config) == *old(config)
                &&& *final(state) == *old(state)
            },
        },
        final(state).acc_reward_per_share >= old(state).acc_reward_per_share,
        *final(state) == (PoolState {
            acc_reward_per_share: final(state).acc_reward_per_share,
            last_accrual_time: final(state).last_accrual_time,
            ..*old(state)
        }),
{
    if *caller != config.owner {
        return Err(StakingError::Unauthorized);
    }
    if config.start_time != 0 {
        return Err(StakingError::PoolNotStarted);
    }
    let mut next = *state;
    match update_pool(config, &mut next, now) {
        Ok(()) => {},
        Err(e) => {
            return Err(e);
        },
    }
    let start_time = match now.checked_add(START_DELAY) {
        Some(start_time) => start_time,
        None => {
            return Err(StakingError::ArithmeticOverflow);
        },
    };
    if start_time >= config.end_time {
        return Err(StakingError::InvalidConfiguration);
    }
    config.start_time = start_time;
    *state = next;
    Ok(())
}

} // verus!
