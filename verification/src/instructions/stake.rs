use vstd::prelude::*;
use crate::error::StakingError;
use crate::state::platform_info::PlatformInfo;
use crate::state::pool_config::PoolConfig;
use crate::state::pool_state::PoolState;
use crate::state::user_info::UserInfo;
use crate::utils::{
    books_kept, calculate_fee, carried_out, earned, earned_reward, fee, harvest, harvested,
    pending,
};

verus! {

/// What the host has to move after a deposit.
#[derive(Clone, Copy, Debug, PartialEq, Eq, Structural)]
pub struct StakeReceipt {
    /// Reward settled: from the pool's reward vault to the staker.
    pub reward_paid: u64,
    /// The deposit: from the staker to the pool's stake vault.
    pub deposited: u64,
    /// The fee on the deposit: from the pool's stake vault to the treasury.
    pub fee: u64,
    /// The deposit less the fee, which is what the balances grew by.
    pub credited: u64,
}

/// A deposit of `amount` at `now`: the records afterwards, and the receipt.
///
/// The pool has to take deposits at `now`. Reward is accrued and the
/// staker's pending reward settled. The fee is the platform's stake rate on
/// `amount`; the rest is added to the staker's balance and to the pool's
/// total, and the reward debt is set to what the new balance has earned.
pub open spec fn outcome(
    platform: PlatformInfo,
    config: PoolConfig,
    state: PoolState,
    user: UserInfo,
    amount: u64,
    now: u64,
) -> Result<(PoolState, UserInfo, StakeReceipt), StakingError> {
    if !config.accepts_deposits(now) {
        Err(StakingError::PoolNotActive)
    } else {
        match harvested(config, state, user, now) {
            Ok((settled, reward)) => match fee(amount, platform.stake_fee_bps) {
                Ok(fee) => if fee > amount || user.staked_amount + (amount - fee) > u64::MAX
                    || settled.total_staked + (amount - fee) > u64::MAX {
                    Err(StakingError::ArithmeticOverflow)
                } else {
                    let credited = (amount - fee) as u64;
                    let balance = (user.staked_amount + credited) as u64;
                    match earned(config, settled.acc_reward_per_share, balance) {
                        Ok(debt) => Ok(
                            (
                                PoolState {
                                    total_staked: (settled.total_staked + credited) as u64,
                                    ..settled
                                },
                                UserInfo {
                                    staked_amount: balance,
                                    reward_debt: debt,
                                    last_deposit_time: now,
                                },
                                StakeReceipt {
                                    reward_paid: reward,
                                    deposited: amount,
                                    fee,
                                    credited,
                                },
                            ),
                        ),
                        Err(e) => Err(e),
                    }
                },
                Err(e) => Err(e),
            },
            Err(e) => Err(e),
        }
    }
}

/// Deposits `amount` for the staker whose record is `user`.
///
/// On success the records are those of `outcome` and the receipt says what
/// to move; the staker is left with nothing pending. On failure nothing has
/// changed.
pub fn handler(
    platform: &PlatformInfo,
    config: &PoolConfig,
    state: &mut PoolState,
    user: &mut UserInfo,
    amount: u64,
    now: u64,
) -> (result: Result<StakeReceipt, StakingError>)
    requires
        amount > 0,
    ensures
        carried_out(
            outcome(*platform, *config, *old(state), *old(user), amount, now),
            result,
            *old(state),
            *old(user),
            *final(state),
            *final(user),
        ),
        books_kept(*old(state), *old(user), *final(state), *final(user)),
        result is Ok ==> pending(*config, *final(state), *final(user)) == Ok::<u64, StakingError>(
            0,
        ),
{
    if !config.accepts_deposits(now) {
        return Err(StakingError::PoolNotActive);
    }
    let mut next = *state;
    let reward = match harvest(config, &mut next, user, now) {
        Ok(reward) => reward,
        Err(e) => {
            return Err(e);
        },
    };
    let fee = match calculate_fee(amount, platform.stake_fee_bps) {
        Ok(fee) => fee,
        Err(e) => {
            return Err(e);
        },
    };
    let credited = match amount.checked_sub(fee) {
        Some(credited) => credited,
        None => {
            return Err(StakingError::ArithmeticOverflow);
        },
    };
    let balance = match user.staked_amount.checked_add(credited) {
        Some(balance) => balance,
        None => {
            return Err(StakingError::ArithmeticOverflow);
        },
    };
    let total = match next.total_staked.checked_add(credited) {
        Some(total) => total,
        None => {
            return Err(StakingError::ArithmeticOverflow);
        },
    };
    let debt = match earned_reward(config, next.acc_reward_per_share, balance) {
        Ok(debt) => debt,
        Err(e) => {
            return Err(e);
        },
    };
    next.total_staked = total;
    *state = next;
    user.staked_amount = balance;
    user.reward_debt = debt;
    user.last_deposit_time = now;
    Ok(StakeReceipt { reward_paid: reward, deposited: amount, fee, credited })
}

} // verus!
