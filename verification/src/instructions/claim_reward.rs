use vstd::prelude::*;
use crate::error::StakingError;
use crate::state::pool_config::PoolConfig;
use crate::state::pool_state::PoolState;
use crate::state::user_info::UserInfo;
use crate::utils::{books_kept, carried_out, earned, earned_reward, harvest, harvested, pending};

verus! {

/// A claim at `now`: the records afterwards, and the reward paid.
///
/// Reward is accrued and the staker's pending reward settled; the balance
/// stays, and the reward debt is set to what it has earned.
pub open spec fn outcome(
    config: PoolConfig,
    state: PoolState,
    user: UserInfo,
    now: u64,
) -> Result<(PoolState, UserInfo, u64), StakingError> {
    match harvested(config, state, user, now) {
        Ok((settled, reward)) => match earned(
            config,
            settled.acc_reward_per_share,
            user.staked_amount,
        ) {
            Ok(debt) => Ok((settled, UserInfo { reward_debt: debt, ..user }, reward)),
            Err(e) => Err(e),
        },
        Err(e) => Err(e),
    }
}

/// Pays the staker whose record is `user` the reward that is pending, and
/// returns the amount: what the host moves from the pool's reward vault to
/// the staker. Nothing pending is no failure: the amount is then zero.
///
/// On success the records are those of `outcome`, and the staker is left
/// with nothing pending. On failure nothing has changed.
pub fn handler(
    config: &PoolConfig,
    state: &mut PoolState,
    user: &mut UserInfo,
    now: u64,
) -> (result: Result<u64, StakingError>)
    ensures
        carried_out(
            outcome(*config, *old(state), *old(user), now),
            result,
            *old(state),
            *old(user),
            *final(state),
            *final(user),
        ),
        books_kept(*old(state), *old(user), *final(state), *final(user)),
        result is Ok ==> pending(*config, *final(state), *final(user)) == Ok::<u64, StakingError>(
            0,
        ),
{
    let mut next = *state;
    let reward = match harvest(config, &mut next, user, now) {
        Ok(reward) => reward,
        Err(e) => {
            return Err(e);
        },
    };
    let debt = match earned_reward(config, next.acc_reward_per_share, user.staked_amount) {
        Ok(debt) => debt,
        Err(e) => {
            return Err(e);
        },
    };
    *state = next;
    user.reward_debt = debt;
    Ok(reward)
}

} // verus!
