use vstd::prelude::*;
use crate::error::StakingError;
use crate::state::platform_info::PlatformInfo;
use crate::state::pool_config::PoolConfig;
use crate::state::pool_state::PoolState;
use crate::state::user_info::UserInfo;
use crate::utils::{
    books_kept, calculate_fee, carried_out, earned, earned_reward, fee, harvest, harvested,
    pending,
};

verus! {

/// What the host has to move after a withdrawal.
#[derive(Clone, Copy, Debug, PartialEq, Eq, Structural)]
pub struct UnstakeReceipt {
    /// Reward settled: from the pool's reward vault to the staker.
    pub reward_paid: u64,
    /// What the balances shrank by: the amount asked.
    pub withdrawn: u64,
    /// The fee on the withdrawal: from the pool's stake vault to the treasury.
    pub fee: u64,
    /// The withdrawal less the fee: from the pool's stake vault to the staker.
    pub payout: u64,
}

/// A withdrawal of `amount` at `now`: the records afterwards, and the
/// receipt.
///
/// The staker's balance has to cover `amount`. Reward is accrued and the
/// pending reward settled. The staker's balance and the pool's total shrink
/// by the whole of `amount`; the fee, the platform's unstake rate on
/// `amount`, is taken out of what is handed back. The reward debt is set to
/// what the remaining balance has earned. A balance of zero stays on record.
pub open spec fn outcome(
    platform: PlatformInfo,
    config: PoolConfig,
    state: PoolState,
    user: UserInfo,
    amount: u64,
    now: u64,
) -> Result<(PoolState, UserInfo, UnstakeReceipt), StakingError> {
    if amount > user.staked_amount {
        Err(StakingError::InsufficientStake)
    } else {
        match harvested(config, state, user, now) {
            Ok((settled, reward)) => match fee(amount, platform.unstake_fee_bps) {
                Ok(fee) => if fee > amount || settled.total_staked < amount {
                    Err(StakingError::ArithmeticOverflow)
                } else {
                    let balance = (user.staked_amount - amount) as u64;
                    match earned(config, settled.acc_reward_per_share, balance) {
                        Ok(debt) => Ok(
                            (
                                PoolState {
                                    total_staked: (settled.total_staked - amount) as u64,
                                    ..settled
                                },
                                UserInfo { staked_amount: balance, reward_debt: debt, ..user },
                                UnstakeReceipt {
                                    reward_paid: reward,
                                    withdrawn: amount,
                                    fee,
                                    payout: (amount - fee) as u64,
                                },
                            ),
                        ),
                        Err(e) => Err(e),
                    }
                },
                Err(e) => Err(e),
            },
            Err(e) => Err(e),
        }
    }
}

/// Withdraws `amount` for the staker whose record is `user`.
///
/// On success the records are those of `outcome` and the receipt says what
/// to move; the staker is left with nothing pending. On failure nothing has
/// changed.
pub fn handler(
    platform: &PlatformInfo,
    config: &PoolConfig,
    state: &mut PoolState,
    user: &mut UserInfo,
    amount: u64,
    now: u64,
) -> (result: Result<UnstakeReceipt, StakingError>)
    requires
        amount > 0,
    ensures
        carried_out(
            outcome(*platform, *config, *old(state), *old(user), amount, now),
            result,
            *old(state),
            *old(user),
            *final(state),
            *final(user),
        ),
        books_kept(*old(state), *old(user), *final(state), *final(user)),
        result is Ok ==> pending(*config, *final(state), *final(user)) == Ok::<u64, StakingError>(
            0,
        ),
{
    if amount > user.staked_amount {
        return Err(StakingError::InsufficientStake);
    }
    let mut next = *state;
    let reward = match harvest(config, &mut next, user, now) {
        Ok(reward) => reward,
        Err(e) => {
            return Err(e);
        },
    };
    let fee = match calculate_fee(amount, platform.unstake_fee_bps) {
        Ok(fee) => fee,
        Err(e) => {
            return Err(e);
        },
    };
    let payout = match amount.checked_sub(fee) {
        Some(payout) => payout,
        None => {
            return Err(StakingError::ArithmeticOverflow);
        },
    };
    let total = match next.total_staked.checked_sub(amount) {
        Some(total) => total,
        None => {
            return Err(StakingError::ArithmeticOverflow);
        },
    };
    let balance = user.staked_amount - amount;
    let debt = match earned_reward(config, next.acc_reward_per_share, balance) {
        Ok(debt) => debt,
        Err(e) => {
            return Err(e);
        },
    };
    next.total_staked = total;
    *state = next;
    user.staked_amount = balance;
    user.reward_debt = debt;
    Ok(UnstakeReceipt { reward_paid: reward, withdrawn: amount, fee, payout })
}

} // verus!
