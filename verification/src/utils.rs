//! Fixed-point arithmetic and the accrual of reward.

use vstd::prelude::*;
use crate::error::StakingError;
use crate::state::pool_config::PoolConfig;
use crate::state::pool_state::PoolState;
use crate::state::user_info::UserInfo;

verus! {

/// Denominator of a rate in basis points: `BPS_PRECISION` stands for 100%.
pub const BPS_PRECISION: u64 = 10_000;

/// Number of decimal digits that an accumulator carries for a reward asset
/// without decimals of its own.
pub const PRECISION_DIGITS: u8 = 18;

/// Ten to the power of `n`.
pub open spec fn pow10(n: nat) -> nat
    decreases n,
{
    if n == 0 {
        1
    } else {
        10 * pow10((n - 1) as nat)
    }
}

/// The factor by which a pool scales its accumulator: ten to the power of
/// `PRECISION_DIGITS` less the decimals of the reward asset, and 1 where the
/// asset has more decimals than that. Every number of decimals is
/// supported: from none, with a factor of ten to the eighteenth, to 255.
pub open spec fn precision_factor(reward_decimals: u8) -> int {
    if reward_decimals >= PRECISION_DIGITS {
        1
    } else {
        pow10((PRECISION_DIGITS - reward_decimals) as nat) as int
    }
}

/// `pow10` grows with its argument.
pub proof fn lemma_pow10_increases(i: nat, j: nat)
    requires
        i <= j,
    ensures
        1 <= pow10(i) <= pow10(j),
    decreases j,
{
    if j == 0 {
    } else if i == j {
        lemma_pow10_increases(0, (j - 1) as nat);
    } else {
        lemma_pow10_increases(i, (j - 1) as nat);
    }
}

/// `precision_factor` lies between 1 and ten to the eighteenth.
pub proof fn lemma_precision_factor_bounds(reward_decimals: u8)
    ensures
        1 <= precision_factor(reward_decimals) <= 1_000_000_000_000_000_000,
{
    reveal_with_fuel(pow10, 19);
    if reward_decimals < PRECISION_DIGITS {
        lemma_pow10_increases((PRECISION_DIGITS - reward_decimals) as nat, 18);
    }
}

/// The precision factor of a pool.
pub fn get_precision_factor(config: &PoolConfig) -> (precision: u64)
    ensures
        precision == precision_factor(config.reward_decimals),
        precision >= 1,
{
    let digits: u8 = if config.reward_decimals >= PRECISION_DIGITS {
        0
    } else {
        PRECISION_DIGITS - config.reward_decimals
    };
    let mut precision: u64 = 1;
    let mut done: u8 = 0;
    while done < digits
        invariant
            done <= digits <= 18,
            precision == pow10(done as nat),
        decreases digits - done,
    {
        proof {
            reveal_with_fuel(pow10, 19);
            lemma_pow10_increases(done as nat, 17);
        }
        precision = precision * 10;
        done = done + 1;
    }
    proof {
        lemma_pow10_increases(0, done as nat);
    }
    precision
}

/// What `staked` units have earned under the accumulator `accumulator`:
/// `staked * accumulator / precision`, rounded down. The product is as
/// large as it comes; the quotient has to fit in 64 bits.
pub open spec fn earned(config: PoolConfig, accumulator: u64, staked: u64) -> Result<
    u64,
    StakingError,
> {
    let share = staked * accumulator / precision_factor(config.reward_decimals);
    if share > u64::MAX {
        Err(StakingError::ArithmeticOverflow)
    } else {
        Ok(share as u64)
    }
}

/// The reward that `user` has earned and not yet settled: what the balance
/// has earned under the pool's accumulator, less the reward debt. A debt
/// above the earnings is out of range.
pub open spec fn pending(config: PoolConfig, state: PoolState, user: UserInfo) -> Result<
    u64,
    StakingError,
> {
    match earned(config, state.acc_reward_per_share, user.staked_amount) {
        Ok(gross) => if gross < user.reward_debt {
            Err(StakingError::ArithmeticOverflow)
        } else {
            Ok((gross - user.reward_debt) as u64)
        },
        Err(e) => Err(e),
    }
}

/// `rate_bps` basis points of `amount`, rounded down. The product is as
/// large as it comes; the quotient has to fit in 64 bits.
pub open spec fn fee(amount: u64, rate_bps: u16) -> Result<u64, StakingError> {
    let part = amount * rate_bps / (BPS_PRECISION as int);
    if part > u64::MAX {
        Err(StakingError::ArithmeticOverflow)
    } else {
        Ok(part as u64)
    }
}

/// Reward that the pool can still pay: the funded amount less what was paid.
pub open spec fn available(state: PoolState) -> int {
    if state.total_paid <= state.funded_reward_amount {
        state.funded_reward_amount - state.total_paid
    } else {
        0
    }
}

/// The pool's state once reward has been accrued up to `now`.
///
/// Nothing changes while `now` is not past `last_accrual_time`. Otherwise
/// the accrual runs up to `now` or to `end_time`, whichever comes first, and
/// `last_accrual_time` moves there. The accumulator grows only where that
/// instant lies past `last_accrual_time` and something is staked: by the
/// reward of the interval, scaled by the precision factor and divided by
/// the total staked, rounded down. The reward and the new accumulator each
/// have to fit in 64 bits; the scaled reward is as large as it comes.
pub open spec fn accrued(config: PoolConfig, state: PoolState, now: u64) -> Result<
    PoolState,
    StakingError,
> {
    let effective = if now <= config.end_time {
        now
    } else {
        config.end_time
    };
    if now <= state.last_accrual_time {
        Ok(state)
    } else if effective <= state.last_accrual_time || state.total_staked == 0 {
        Ok(PoolState { last_accrual_time: effective, ..state })
    } else {
        let reward = (effective - state.last_accrual_time) * config.reward_per_unit_time;
        let scaled = reward * precision_factor(config.reward_decimals);
        let accumulator = state.acc_reward_per_share + scaled / (state.total_staked as int);
        if reward > u64::MAX || accumulator > u64::MAX {
            Err(StakingError::ArithmeticOverflow)
        } else {
            Ok(
                PoolState {
                    acc_reward_per_share: accumulator as u64,
                    last_accrual_time: effective,
                    ..state
                },
            )
        }
    }
}

/// The pool's state once `amount` of reward has been settled: nothing
/// changes for an amount of zero; otherwise the amount has to be available,
/// `total_paid` grows by it and `total_earned` shrinks by it, down to zero
/// at most.
pub open spec fn settled(state: PoolState, amount: u64) -> Result<PoolState, StakingError> {
    if amount == 0 {
        Ok(state)
    } else if available(state) < amount {
        Err(StakingError::InsufficientReward)
    } else {
        Ok(
            PoolState {
                total_paid: (state.total_paid + amount) as u64,
                total_earned: if state.total_earned > amount {
                    (state.total_earned - amount) as u64
                } else {
                    0
                },
                ..state
            },
        )
    }
}

/// Accrual up to `now`, then settlement of what `user` has pending: the
/// pool's state afterwards, and the amount settled.
pub open spec fn harvested(
    config: PoolConfig,
    state: PoolState,
    user: UserInfo,
    now: u64,
) -> Result<(PoolState, u64), StakingError> {
    match accrued(config, state, now) {
        Ok(current) => match pending(config, current, user) {
            Ok(amount) => match settled(current, amount) {
                Ok(next) => Ok((next, amount)),
                Err(e) => Err(e),
            },
            Err(e) => Err(e),
        },
        Err(e) => Err(e),
    }
}

/// What every operation keeps between the records it found and the records
/// it leaves: the funding stays, no more is paid than was funded, the
/// accumulator does not fall, and the pool's total moves by what the
/// staker's balance moves by.
pub open spec fn books_kept(
    state: PoolState,
    user: UserInfo,
    next_state: PoolState,
    next_user: UserInfo,
) -> bool {
    &&& next_state.funded_reward_amount == state.funded_reward_amount
    &&& (state.conserves() ==> next_state.conserves())
    &&& next_state.acc_reward_per_share >= state.acc_reward_per_share
    &&& next_state.total_staked - state.total_staked == next_user.staked_amount
        - user.staked_amount
}

/// An operation on the records of a pool and of a staker did what
/// `outcome` says: on success the records are those of the outcome and the
/// result is its receipt; on failure the result is its error and the
/// records are as they were.
pub open spec fn carried_out<R>(
    outcome: Result<(PoolState, UserInfo, R), StakingError>,
    result: Result<R, StakingError>,
    state: PoolState,
    user: UserInfo,
    next_state: PoolState,
    next_user: UserInfo,
) -> bool {
    match outcome {
        Ok((settled_state, settled_user, receipt)) => {
            &&& result == Ok::<R, StakingError>(receipt)
            &&& next_state == settled_state
            &&& next_user == settled_user
        },
        Err(e) => {
            &&& result == Err::<R, StakingError>(e)
            &&& next_state == state
            &&& next_user == user
        },
    }
}

/// `amount * multiplier / divisor`, rounded down, with the product formed
/// in 128 bits: `None` where the quotient does not fit in 64 bits.
fn multiply_and_divide(amount: u64, multiplier: u64, divisor: u64) -> (quotient: Option<u64>)
    requires
        divisor > 0,
    ensures
        match quotient {
            Some(q) => q == amount * multiplier / (divisor as int),
            None => amount * multiplier / (divisor as int) > u64::MAX,
        },
{
    assert(amount * multiplier <= u128::MAX) by (nonlinear_arith)
        requires
            amount <= u64::MAX,
            multiplier <= u64::MAX,
    ;
    let product: u128 = (amount as u128) * (multiplier as u128);
    let quotient: u128 = product / (divisor as u128);
    if quotient > u64::MAX as u128 {
        None
    } else {
        Some(quotient as u64)
    }
}

/// Computes what `staked` units have earned under `accumulator`.
pub fn earned_reward(config: &PoolConfig, accumulator: u64, staked: u64) -> (result: Result<
    u64,
    StakingError,
>)
    ensures
        result == earned(*config, accumulator, staked),
{
    let precision = get_precision_factor(config);
    match multiply_and_divide(staked, accumulator, precision) {
        Some(share) => Ok(share),
        None => Err(StakingError::ArithmeticOverflow),
    }
}

/// Computes the reward that `user` has earned and not yet settled.
pub fn calculate_reward(config: &PoolConfig, state: &PoolState, user: &UserInfo) -> (result:
    Result<u64, StakingError>)
    ensures
        result == pending(*config, *state, *user),
{
    match earned_reward(config, state.acc_reward_per_share, user.staked_amount) {
        Ok(gross) => match gross.checked_sub(user.reward_debt) {
            Some(net) => Ok(net),
            None => Err(StakingError::ArithmeticOverflow),
        },
        Err(e) => Err(e),
    }
}

/// Computes `rate_bps` basis points of `amount`.
pub fn calculate_fee(amount: u64, rate_bps: u16) -> (result: Result<u64, StakingError>)
    ensures
        result == fee(amount, rate_bps),
{
    match multiply_and_divide(amount, rate_bps as u64, BPS_PRECISION) {
        Some(part) => Ok(part),
        None => Err(StakingError::ArithmeticOverflow),
    }
}

/// Reward that the pool can still pay.
pub fn available_reward_tokens(state: &PoolState) -> (amount: u64)
    ensures
        amount == available(*state),
{
    if state.total_paid <= state.funded_reward_amount {
        state.funded_reward_amount - state.total_paid
    } else {
        0
    }
}

/// Brings the pool's accumulator up to `now`.
///
/// On success the state is `accrued(config, state, now)`; on overflow the
/// state is left as it was.
pub fn update_pool(config: &PoolConfig, state: &mut PoolState, now: u64) -> (result: Result<
    (),
    StakingError,
>)
    ensures
        match accrued(*config, *old(state), now) {
            Ok(next) => result == Ok::<(), StakingError>(()) && *final(state) == next,
            Err(e) => result == Err::<(), StakingError>(e) && *final(state) == *old(state),
        },
        result is Ok ==> accrued(*config, *final(state), now) == Ok::<PoolState, StakingError>(
            *final(state),
        ),
        final(state).acc_reward_per_share >= old(state).acc_reward_per_share,
        *final(state) == (PoolState {
            acc_reward_per_share: final(state).acc_reward_per_share,
            last_accrual_time: final(state).last_accrual_time,
            ..*old(state)
        }),
{
    if now <= state.last_accrual_time {
        return Ok(());
    }
    let effective = if now <= config.end_time {
        now
    } else {
        config.end_time
    };
    if effective <= state.last_accrual_time || state.total_staked == 0 {
        state.last_accrual_time = effective;
        return Ok(());
    }
    let elapsed = effective - state.last_accrual_time;
    let reward = match elapsed.checked_mul(config.reward_per_unit_time) {
        Some(reward) => reward,
        None => {
            return Err(StakingError::ArithmeticOverflow);
        },
    };
    let precision = get_precision_factor(config);
    let growth = match multiply_and_divide(reward, precision, state.total_staked) {
        Some(growth) => growth,
        None => {
            return Err(StakingError::ArithmeticOverflow);
        },
    };
    let accumulator = match state.acc_reward_per_share.checked_add(growth) {
        Some(accumulator) => accumulator,
        None => {
            return Err(StakingError::ArithmeticOverflow);
        },
    };
    state.acc_reward_per_share = accumulator;
    state.last_accrual_time = effective;
    Ok(())
}

/// Settles the reward that `user` has pending against the pool's funds and
/// returns the amount, which the host then moves from the reward vault.
///
/// Nothing changes where nothing is pending. The user's record is not
/// touched: its reward debt is set anew by the operation that settles,
/// after it has changed the balance.
pub fn settle(config: &PoolConfig, state: &mut PoolState, user: &UserInfo) -> (result: Result<
    u64,
    StakingError,
>)
    ensures
        match pending(*config, *old(state), *user) {
            Ok(amount) => match settled(*old(state), amount) {
                Ok(next) => result == Ok::<u64, StakingError>(amount) && *final(state) == next,
                Err(e) => result == Err::<u64, StakingError>(e) && *final(state) == *old(state),
            },
            Err(e) => result == Err::<u64, StakingError>(e) && *final(state) == *old(state),
        },
        books_kept(*old(state), *user, *final(state), *user),
{
    let amount = match calculate_reward(config, state, user) {
        Ok(amount) => amount,
        Err(e) => {
            return Err(e);
        },
    };
    if amount == 0 {
        return Ok(0);
    }
    if available_reward_tokens(state) < amount {
        return Err(StakingError::InsufficientReward);
    }
    state.total_paid = state.total_paid + amount;
    state.total_earned = if state.total_earned > amount {
        state.total_earned - amount
    } else {
        0
    };
    Ok(amount)
}

/// Brings the pool up to `now`, settles the reward that `user` has pending
/// and returns the amount. The first step of every operation of a staker.
///
/// Where either step fails the state is left as it was.
pub fn harvest(config: &PoolConfig, state: &mut PoolState, user: &UserInfo, now: u64) -> (result:
    Result<u64, StakingError>)
    ensures
        match harvested(*config, *old(state), *user, now) {
            Ok((next, amount)) => result == Ok::<u64, StakingError>(amount) && *final(state)
                == next,
            Err(e) => result == Err::<u64, StakingError>(e) && *final(state) == *old(state),
        },
        books_kept(*old(state), *user, *final(state), *user),
{
    let mut next = *state;
    match update_pool(config, &mut next, now) {
        Ok(()) => {},
        Err(e) => {
            return Err(e);
        },
    }
    match settle(config, &mut next, user) {
        Ok(amount) => {
            *state = next;
            Ok(amount)
        },
        Err(e) => Err(e),
    }
}

} // verus!
