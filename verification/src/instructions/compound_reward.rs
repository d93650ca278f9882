use vstd::prelude::*;
use crate::error::StakingError;
use crate::state::pool_config::PoolConfig;
use crate::state::pool_state::PoolState;
use crate::state::user_info::UserInfo;
use crate::utils::{books_kept, carried_out, earned, earned_reward, harvest, harvested, pending};

verus! {

/// The least output asked of an exchange where the staker names none.
pub const DEFAULT_MINIMUM_AMOUNT_OUT: u64 = 1;

/// An exchange of reward asset for stake asset that the host is to make
/// before the compounding is carried out.
#[derive(Clone, Copy, Debug, PartialEq, Eq, Structural)]
pub struct SwapOrder {
    /// Reward to give, taken from the pool's reward vault: what the staker
    /// has pending at `ordered_at`.
    pub amount_in: u64,
    /// The least stake to take for it, put into the pool's stake vault.
    pub minimum_amount_out: u64,
    /// The instant of the compounding.
    pub ordered_at: u64,
}

/// What a compounding did, and what is left for the host to do.
#[derive(Clone, Copy, Debug, PartialEq, Eq, Structural)]
pub struct CompoundReceipt {
    /// Reward settled by this step.
    pub reward: u64,
    /// Stake added to the balance by this step.
    pub added_stake: u64,
    /// The exchange to make, after which `complete_swap` carries the
    /// compounding out. `None` where stake and reward are the same asset,
    /// or nothing is pending.
    pub swap: Option<SwapOrder>,
}

/// The least output to ask for: the staker's, or the default.
pub open spec fn minimum_out(minimum_output: Option<u64>) -> u64 {
    match minimum_output {
        Some(least) => least,
        None => DEFAULT_MINIMUM_AMOUNT_OUT,
    }
}

/// A compounding at `now`: the records afterwards, and the receipt.
///
/// The accrual and the settlement of the staker's pending reward have to
/// succeed, as for a claim. Where stake and reward are different assets
/// and something is pending, the records stay as they are and an exchange
/// of the pending reward is ordered: nothing is settled before the
/// exchange has been made. In every other case the reward is settled, and
/// added to the staker's balance and to the pool's total where stake and
/// reward are the same asset; the reward debt is set to what the balance
/// has earned.
pub open spec fn outcome(
    config: PoolConfig,
    state: PoolState,
    user: UserInfo,
    now: u64,
    minimum_output: Option<u64>,
) -> Result<(PoolState, UserInfo, CompoundReceipt), StakingError> {
    match harvested(config, state, user, now) {
        Ok((settled, reward)) => if !config.same_asset() && reward > 0 {
            Ok(
                (
                    state,
                    user,
                    CompoundReceipt {
                        reward: 0,
                        added_stake: 0,
                        swap: Some(
                            SwapOrder {
                                amount_in: reward,
                                minimum_amount_out: minimum_out(minimum_output),
                                ordered_at: now,
                            },
                        ),
                    },
                ),
            )
        } else if user.staked_amount + reward > u64::MAX || settled.total_staked + reward
            > u64::MAX {
            Err(StakingError::ArithmeticOverflow)
        } else {
            let balance = (user.staked_amount + reward) as u64;
            match earned(config, settled.acc_reward_per_share, balance) {
                Ok(debt) => Ok(
                    (
                        PoolState {
                            total_staked: (settled.total_staked + reward) as u64,
                            ..settled
                        },
                        UserInfo { staked_amount: balance, reward_debt: debt, ..user },
                        CompoundReceipt { reward, added_stake: reward, swap: None },
                    ),
                ),
                Err(e) => Err(e),
            }
        },
        Err(e) => Err(e),
    }
}

/// A compounding through an exchange, carried out once the exchange has
/// returned `amount_out`: the records afterwards, and the stake added.
///
/// The exchange has to have returned an amount, and no less than the order
/// asked for; stake and reward have to be different assets, and what the
/// staker has pending at the instant of the order has to be the amount
/// that the order gave, and more than nothing. Then the reward is accrued
/// and settled, the output of the exchange is added to the staker's
/// balance and to the pool's total, and the reward debt is set to what the
/// new balance has earned.
pub open spec fn swap_outcome(
    config: PoolConfig,
    state: PoolState,
    user: UserInfo,
    order: SwapOrder,
    amount_out: Option<u64>,
) -> Result<(PoolState, UserInfo, u64), StakingError> {
    match amount_out {
        Some(output) => if output < order.minimum_amount_out || config.same_asset()
            || order.amount_in == 0 {
            Err(StakingError::TransferFailed)
        } else {
            match harvested(config, state, user, order.ordered_at) {
                Ok((settled, reward)) => if reward != order.amount_in {
                    Err(StakingError::TransferFailed)
                } else if user.staked_amount + output > u64::MAX || settled.total_staked
                    + output > u64::MAX {
                    Err(StakingError::ArithmeticOverflow)
                } else {
                    let balance = (user.staked_amount + output) as u64;
                    match earned(config, settled.acc_reward_per_share, balance) {
                        Ok(debt) => Ok(
                            (
                                PoolState {
                                    total_staked: (settled.total_staked + output) as u64,
                                    ..settled
                                },
                                UserInfo { staked_amount: balance, reward_debt: debt, ..user },
                                output,
                            ),
                        ),
                        Err(e) => Err(e),
                    }
                },
                Err(e) => Err(e),
            }
        },
        None => Err(StakingError::TransferFailed),
    }
}

/// Turns the pending reward of the staker whose record is `user` into
/// stake, or orders the exchange that has to come first.
///
/// Where the receipt orders an exchange, nothing has changed yet: the host
/// makes the exchange and hands its output to `complete_swap`, which
/// carries the compounding out or, where the exchange failed, leaves the
/// records as they were before the compounding. On success the records
/// are those of `outcome`; where no exchange is ordered the staker is left
/// with nothing pending. On failure nothing has changed.
pub fn handler(
    config: &PoolConfig,
    state: &mut PoolState,
    user: &mut UserInfo,
    now: u64,
    minimum_output: Option<u64>,
) -> (result: Result<CompoundReceipt, StakingError>)
    ensures
        carried_out(
            outcome(*config, *old(state), *old(user), now, minimum_output),
            result,
            *old(state),
            *old(user),
            *final(state),
            *final(user),
        ),
        books_kept(*old(state), *old(user), *final(state), *final(user)),
        result matches Ok(receipt) && receipt.swap is Some ==> *final(state) == *old(state)
            && *final(user) == *old(user),
        result matches Ok(receipt) && receipt.swap is None ==> pending(
            *config,
            *final(state),
            *final(user),
        ) == Ok::<u64, StakingError>(0),
{
    let mut next = *state;
    let reward = match harvest(config, &mut next, user, now) {
        Ok(reward) => reward,
        Err(e) => {
            return Err(e);
        },
    };
    if !config.same_asset() && reward > 0 {
        let minimum_amount_out = match minimum_output {
            Some(least) => least,
            None => DEFAULT_MINIMUM_AMOUNT_OUT,
        };
        let order = SwapOrder { amount_in: reward, minimum_amount_out, ordered_at: now };
        return Ok(CompoundReceipt { reward: 0, added_stake: 0, swap: Some(order) });
    }
    let balance = match user.staked_amount.checked_add(reward) {
        Some(balance) => balance,
        None => {
            return Err(StakingError::ArithmeticOverflow);
        },
    };
    let total = match next.total_staked.checked_add(reward) {
        Some(total) => total,
        None => {
            return Err(StakingError::ArithmeticOverflow);
        },
    };
    let debt = match earned_reward(config, next.acc_reward_per_share, balance) {
        Ok(debt) => debt,
        Err(e) => {
            return Err(e);
        },
    };
    next.total_staked = total;
    *state = next;
    user.staked_amount = balance;
    user.reward_debt = debt;
    Ok(CompoundReceipt { reward, added_stake: reward, swap: None })
}

/// Carries out the compounding that `order` stands for, for the staker
/// whose record is `user`, and returns the stake added: the reward is
/// settled and the output of the exchange credited in one step.
/// `amount_out` is `None` where the exchange failed.
///
/// On success the records are those of `swap_outcome`, and the staker is
/// left with nothing pending. On failure nothing has changed: the records
/// are those from before the compounding.
pub fn complete_swap(
    config: &PoolConfig,
    state: &mut PoolState,
    user: &mut UserInfo,
    order: &SwapOrder,
    amount_out: Option<u64>,
) -> (result: Result<u64, StakingError>)
    ensures
        carried_out(
            swap_outcome(*config, *old(state), *old(user), *order, amount_out),
            result,
            *old(state),
            *old(user),
            *final(state),
            *final(user),
        ),
        books_kept(*old(state), *old(user), *final(state), *final(user)),
        result is Ok ==> pending(*config, *final(state), *final(user)) == Ok::<u64, StakingError>(
            0,
        ),
        amount_out is None || amount_out->0 < order.minimum_amount_out ==> result == Err::<
            u64,
            StakingError,
        >(StakingError::TransferFailed),
{
    let output = match amount_out {
        Some(output) => output,
        None => {
            return Err(StakingError::TransferFailed);
        },
    };
    if output < order.minimum_amount_out || config.same_asset() || order.amount_in == 0 {
        return Err(StakingError::TransferFailed);
    }
    let mut next = *state;
    let reward = match harvest(config, &mut next, user, order.ordered_at) {
        Ok(reward) => reward,
        Err(e) => {
            return Err(e);
        },
    };
    if reward != order.amount_in {
        return Err(StakingError::TransferFailed);
    }
    let balance = match user.staked_amount.checked_add(output) {
        Some(balance) => balance,
        None => {
            return Err(StakingError::ArithmeticOverflow);
        },
    };
    let total = match next.total_staked.checked_add(output) {
        Some(total) => total,
        None => {
            return Err(StakingError::ArithmeticOverflow);
        },
    };
    let debt = match earned_reward(config, next.acc_reward_per_share, balance) {
        Ok(debt) => debt,
        Err(e) => {
            return Err(e);
        },
    };
    next.total_staked = total;
    *state = next;
    user.staked_amount = balance;
    user.reward_debt = debt;
    Ok(output)
}

} // verus!
