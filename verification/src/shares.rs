//! What a staker is paid, held against the staker's share of the reward.

use vstd::prelude::*;
use vstd::arithmetic::div_mod::{
    lemma_fundamental_div_mod, lemma_fundamental_div_mod_converse, lemma_mod_bound,
};
use crate::error::StakingError;
use crate::instructions::claim_reward;
use crate::pool::{total_balance, PoolView, Staker};
use crate::state::pool_config::PoolConfig;
use crate::state::pool_state::PoolState;
use crate::state::user_info::UserInfo;
use crate::utils::{accrued, lemma_precision_factor_bounds, precision_factor};

verus! {

/// The reward that an accrual up to `now` hands out: the time accrued
/// times the rate, and nothing where the accrual finds no time to accrue
/// or nothing staked.
pub open spec fn interval_reward(config: PoolConfig, state: PoolState, now: u64) -> int {
    let effective = if now <= config.end_time {
        now
    } else {
        config.end_time
    };
    if now <= state.last_accrual_time || effective <= state.last_accrual_time
        || state.total_staked == 0 {
        0
    } else {
        (effective - state.last_accrual_time) * config.reward_per_unit_time
    }
}

/// The reward debt of `user` is what the balance has earned to the last
/// fraction: rounding it down lost nothing.
pub open spec fn exactly_settled(config: PoolConfig, state: PoolState, user: UserInfo) -> bool {
    user.reward_debt * precision_factor(config.reward_decimals) == user.staked_amount
        * state.acc_reward_per_share
}

/// Every one of the ledgers is exactly settled.
pub open spec fn all_exactly_settled(
    config: PoolConfig,
    state: PoolState,
    stakers: Seq<Staker>,
) -> bool {
    forall|i: int|
        0 <= i < stakers.len() ==> exactly_settled(config, state, (#[trigger] stakers[i]).info)
}

/// What a claim at `now` owes `user`: what the balance has earned once the
/// pool is accrued up to `now`, less the reward debt. Nothing where the
/// accrual is refused.
pub open spec fn due(config: PoolConfig, state: PoolState, user: UserInfo, now: u64) -> int {
    match accrued(config, state, now) {
        Ok(next) => user.staked_amount * next.acc_reward_per_share / precision_factor(
            config.reward_decimals,
        ) - user.reward_debt,
        Err(_) => 0,
    }
}

/// What claims at `now` owe all the stakers together.
pub open spec fn total_due(
    config: PoolConfig,
    state: PoolState,
    stakers: Seq<Staker>,
    now: u64,
) -> int
    decreases stakers.len(),
{
    if stakers.len() == 0 {
        0
    } else {
        total_due(config, state, stakers.drop_last(), now) + due(
            config,
            state,
            stakers.last().info,
            now,
        )
    }
}

/// The reward of an interval is not negative.
proof fn lemma_interval_reward(config: PoolConfig, state: PoolState, now: u64)
    ensures
        interval_reward(config, state, now) >= 0,
{
    let effective = if now <= config.end_time {
        now
    } else {
        config.end_time
    };
    let elapsed = effective - state.last_accrual_time;
    let rate = config.reward_per_unit_time as int;
    if elapsed >= 0 {
        assert(elapsed * rate >= 0) by (nonlinear_arith)
            requires
                elapsed >= 0,
                rate >= 0,
        ;
    }
}

/// The growth of the accumulator in an accrual, held against the reward of
/// the interval: times the total staked it is no more than the scaled
/// reward and falls short of it by less than the total staked. Without
/// reward there is no growth.
pub proof fn growth_is_the_reward_per_share(config: PoolConfig, state: PoolState, now: u64)
    ensures
        accrued(config, state, now) matches Ok(next) ==> {
            let growth = next.acc_reward_per_share - state.acc_reward_per_share;
            let scaled = interval_reward(config, state, now) * precision_factor(
                config.reward_decimals,
            );
            &&& growth >= 0
            &&& interval_reward(config, state, now) >= 0
            &&& growth * state.total_staked <= scaled
            &&& state.total_staked > 0 ==> scaled < growth * state.total_staked
                + state.total_staked
            &&& interval_reward(config, state, now) == 0 ==> growth == 0
        },
{
    if let Ok(next) = accrued(config, state, now) {
        let reward = interval_reward(config, state, now);
        let precision = precision_factor(config.reward_decimals);
        let total = state.total_staked as int;
        let scaled = reward * precision;
        lemma_precision_factor_bounds(config.reward_decimals);
        lemma_interval_reward(config, state, now);
        assert(scaled >= 0) by (nonlinear_arith)
            requires
                scaled == reward * precision,
                reward >= 0,
                precision >= 1,
        ;
        if total > 0 {
            lemma_fundamental_div_mod(scaled, total);
            lemma_mod_bound(scaled, total);
            assert(total * (scaled / total) == (scaled / total) * total) by (nonlinear_arith);
            assert(scaled / total >= 0) by (nonlinear_arith)
                requires
                    scaled >= 0,
                    total > 0,
            ;
            if reward == 0 {
                assert(scaled == 0) by (nonlinear_arith)
                    requires
                        scaled == reward * precision,
                        reward == 0,
                ;
            }
        }
    }
}

/// What a claim owes an exactly settled staker is the balance's share of
/// the growth of the accumulator, rounded down.
pub proof fn due_is_the_share_of_the_growth(
    config: PoolConfig,
    state: PoolState,
    user: UserInfo,
    now: u64,
)
    requires
        exactly_settled(config, state, user),
    ensures
        accrued(config, state, now) matches Ok(next) ==> due(config, state, user, now)
            == user.staked_amount * (next.acc_reward_per_share - state.acc_reward_per_share)
            / precision_factor(config.reward_decimals),
        due(config, state, user, now) >= 0,
{
    if let Ok(next) = accrued(config, state, now) {
        growth_is_the_reward_per_share(config, state, now);
        let precision = precision_factor(config.reward_decimals);
        let staked = user.staked_amount as int;
        let debt = user.reward_debt as int;
        let growth = next.acc_reward_per_share - state.acc_reward_per_share;
        let part = staked * growth;
        lemma_precision_factor_bounds(config.reward_decimals);
        assert(part >= 0 && staked * next.acc_reward_per_share == staked
            * state.acc_reward_per_share + part) by (nonlinear_arith)
            requires
                part == staked * growth,
                growth == next.acc_reward_per_share - state.acc_reward_per_share,
                staked >= 0,
                growth >= 0,
        ;
        lemma_fundamental_div_mod(part, precision);
        lemma_mod_bound(part, precision);
        let quotient = part / precision;
        let rest = part % precision;
        assert(debt * precision + part == (debt + quotient) * precision + rest)
            by (nonlinear_arith)
            requires
                part == precision * quotient + rest,
        ;
        lemma_fundamental_div_mod_converse(
            debt * precision + part,
            precision,
            debt + quotient,
            rest,
        );
        assert(quotient >= 0) by (nonlinear_arith)
            requires
                part >= 0,
                precision >= 1,
                part == precision * quotient + rest,
                0 <= rest < precision,
        ;
    }
}

/// No staker is paid more than the share: what a claim owes an exactly
/// settled staker is at most the balance's part of the interval's reward,
/// `staked * reward / total_staked`, and falls short of it by less than
/// one unit and the `staked / precision` that rounding the accumulator
/// down may cost. Both bounds are stated without fractions, multiplied
/// out by the total staked and the precision.
pub proof fn payment_is_bounded_by_the_share(
    config: PoolConfig,
    state: PoolState,
    user: UserInfo,
    now: u64,
)
    requires
        exactly_settled(config, state, user),
        state.total_staked > 0,
    ensures
        accrued(config, state, now) is Ok ==> {
            let paid = due(config, state, user, now);
            let reward = interval_reward(config, state, now);
            let precision = precision_factor(config.reward_decimals);
            &&& 0 <= paid
            &&& paid * state.total_staked <= user.staked_amount * reward
            &&& paid * state.total_staked * precision > user.staked_amount * reward * precision
                - state.total_staked * precision - user.staked_amount * state.total_staked
        },
{
    if let Ok(next) = accrued(config, state, now) {
        growth_is_the_reward_per_share(config, state, now);
        due_is_the_share_of_the_growth(config, state, user, now);
        lemma_precision_factor_bounds(config.reward_decimals);
        let paid = due(config, state, user, now);
        let reward = interval_reward(config, state, now);
        let precision = precision_factor(config.reward_decimals);
        let staked = user.staked_amount as int;
        let total = state.total_staked as int;
        let growth = next.acc_reward_per_share - state.acc_reward_per_share;
        let part = staked * growth;
        lemma_fundamental_div_mod(part, precision);
        lemma_mod_bound(part, precision);
        let rest = part % precision;
        assert(paid * total * precision <= staked * reward * precision && paid * total
            * precision > staked * reward * precision - total * precision - staked * total)
            by (nonlinear_arith)
            requires
                part == staked * growth,
                part == precision * paid + rest,
                0 <= rest < precision,
                growth * total <= reward * precision,
                reward * precision < growth * total + total,
                staked >= 0,
                total > 0,
                precision >= 1,
                growth >= 0,
                paid >= 0,
        ;
        assert(paid * total <= staked * reward) by (nonlinear_arith)
            requires
                paid * total * precision <= staked * reward * precision,
                precision >= 1,
        ;
    }
}

/// What claims owe the stakers of `stakers` together, times the
/// precision, is no more than the growth of the accumulator times the sum
/// of their balances.
proof fn lemma_total_due(config: PoolConfig, state: PoolState, stakers: Seq<Staker>, now: u64)
    requires
        all_exactly_settled(config, state, stakers),
    ensures
        0 <= total_due(config, state, stakers, now),
        accrued(config, state, now) is Err ==> total_due(config, state, stakers, now) == 0,
        accrued(config, state, now) matches Ok(next) ==> total_due(config, state, stakers, now)
            * precision_factor(config.reward_decimals) <= (next.acc_reward_per_share
            - state.acc_reward_per_share) * total_balance(stakers),
    decreases stakers.len(),
{
    if stakers.len() > 0 {
        let rest = stakers.drop_last();
        let last = stakers.last().info;
        assert forall|i: int| 0 <= i < rest.len() implies exactly_settled(
            config,
            state,
            (#[trigger] rest[i]).info,
        ) by {
            assert(rest[i] == stakers[i]);
        }
        lemma_total_due(config, state, rest, now);
        due_is_the_share_of_the_growth(config, state, last, now);
        if let Ok(next) = accrued(config, state, now) {
            growth_is_the_reward_per_share(config, state, now);
            lemma_precision_factor_bounds(config.reward_decimals);
            let precision = precision_factor(config.reward_decimals);
            let growth = next.acc_reward_per_share - state.acc_reward_per_share;
            let part = last.staked_amount * growth;
            let owed = due(config, state, last, now);
            lemma_fundamental_div_mod(part, precision);
            lemma_mod_bound(part, precision);
            let before = total_due(config, state, rest, now);
            let balance = total_balance(rest);
            assert((before + owed) * precision <= growth * (balance + last.staked_amount))
                by (nonlinear_arith)
                requires
                    before * precision <= growth * balance,
                    part == last.staked_amount * growth,
                    part == precision * owed + part % precision,
                    0 <= part % precision,
            ;
        }
    }
}

/// The payments sum to at most the reward: in a pool whose total is the
/// sum of the balances and whose stakers are all exactly settled, what
/// claims at `now` owe all the stakers together is no more than the reward
/// of the interval. Rounding goes against the stakers, never against the
/// pool.
pub proof fn payments_sum_to_at_most_the_reward(pool: PoolView, now: u64)
    requires
        pool.balanced(),
        all_exactly_settled(pool.config, pool.state, pool.stakers),
    ensures
        0 <= total_due(pool.config, pool.state, pool.stakers, now) <= interval_reward(
            pool.config,
            pool.state,
            now,
        ),
{
    lemma_total_due(pool.config, pool.state, pool.stakers, now);
    if let Ok(next) = accrued(pool.config, pool.state, now) {
        growth_is_the_reward_per_share(pool.config, pool.state, now);
        lemma_precision_factor_bounds(pool.config.reward_decimals);
        let precision = precision_factor(pool.config.reward_decimals);
        let growth = next.acc_reward_per_share - pool.state.acc_reward_per_share;
        let owed = total_due(pool.config, pool.state, pool.stakers, now);
        let reward = interval_reward(pool.config, pool.state, now);
        let total = pool.state.total_staked as int;
        assert(owed <= reward) by (nonlinear_arith)
            requires
                owed * precision <= growth * total,
                growth * total <= reward * precision,
                precision >= 1,
        ;
    } else {
        lemma_interval_reward(pool.config, pool.state, now);
    }
}

/// A claim pays what is due: the amount that a claim at `now` returns is
/// `due`.
pub proof fn claim_pays_what_is_due(
    config: PoolConfig,
    state: PoolState,
    user: UserInfo,
    now: u64,
)
    ensures
        claim_reward::outcome(config, state, user, now) matches Ok((_, _, paid)) ==> paid == due(
            config,
            state,
            user,
            now,
        ),
{
    if let Ok(next) = accrued(config, state, now) {
        lemma_precision_factor_bounds(config.reward_decimals);
        let precision = precision_factor(config.reward_decimals);
        let product = user.staked_amount * next.acc_reward_per_share;
        assert(0 <= product / precision) by (nonlinear_arith)
            requires
                0 <= product,
                1 <= precision,
        ;
    }
}

/// No claim pays more than the share: what a claim at `now` returns to an
/// exactly settled staker lies within the bounds of
/// `payment_is_bounded_by_the_share`.
pub proof fn claim_is_bounded_by_the_share(
    config: PoolConfig,
    state: PoolState,
    user: UserInfo,
    now: u64,
)
    requires
        exactly_settled(config, state, user),
        state.total_staked > 0,
    ensures
        claim_reward::outcome(config, state, user, now) matches Ok((_, _, paid)) ==> {
            let reward = interval_reward(config, state, now);
            let precision = precision_factor(config.reward_decimals);
            &&& paid * state.total_staked <= user.staked_amount * reward
            &&& paid * state.total_staked * precision > user.staked_amount * reward * precision
                - state.total_staked * precision - user.staked_amount * state.total_staked
        },
{
    claim_pays_what_is_due(config, state, user, now);
    payment_is_bounded_by_the_share(config, state, user, now);
}

/// What a claim pays one staker takes nothing from what the others are
/// due at the same instant: after a claim at `now`, every staker is due
/// at `now` what was due before it.
pub proof fn claim_leaves_what_others_are_due(
    config: PoolConfig,
    state: PoolState,
    claimer: UserInfo,
    other: UserInfo,
    now: u64,
)
    ensures
        claim_reward::outcome(config, state, claimer, now) matches Ok((next, _, _)) ==> due(
            config,
            next,
            other,
            now,
        ) == due(config, state, other, now),
{
}

} // verus!
