//! What holds of every pool, whatever is done to it.

use vstd::prelude::*;
use vstd::arithmetic::div_mod::{
    lemma_div_is_ordered, lemma_fundamental_div_mod, lemma_mod_bound,
};
use vstd::arithmetic::mul::lemma_mul_inequality;
use crate::error::StakingError;
use crate::instructions::claim_reward;
use crate::instructions::compound_reward;
use crate::instructions::compound_reward::{minimum_out, SwapOrder};
use crate::instructions::stake;
use crate::instructions::start_reward;
use crate::instructions::stop_reward;
use crate::instructions::unstake;
use crate::instructions::create_pool::new_state;
use crate::pool::{
    after_claim, after_compound, after_stake, after_start, after_stop, after_swap, after_unstake,
    all_covered, covered, distinct, invariants_kept, lemma_first_index,
    lemma_total_balance_push,
    lemma_total_balance_update, total_balance, PoolView, Staker,
};
use crate::state::address::Address;
use crate::state::platform_info::PlatformInfo;
use crate::state::pool_config::PoolConfig;
use crate::state::pool_state::PoolState;
use crate::state::user_info::UserInfo;
use crate::utils::{
    accrued, harvested, lemma_precision_factor_bounds, pending, precision_factor, settled,
};

verus! {

/// Something done to a pool.
pub enum Operation {
    /// A deposit, under the platform's settings of the time.
    Stake { platform: PlatformInfo, staker: Address, amount: u64, now: u64 },
    /// A withdrawal, under the platform's settings of the time.
    Unstake { platform: PlatformInfo, staker: Address, amount: u64, now: u64 },
    ClaimReward { staker: Address, now: u64 },
    CompoundReward { staker: Address, now: u64, minimum_output: Option<u64> },
    CompleteSwap { staker: Address, order: SwapOrder, amount_out: Option<u64> },
    StartReward { caller: Address, now: u64 },
    StopReward { caller: Address, now: u64 },
}

/// The pool after `operation`. An operation that is refused leaves the
/// pool as it is, and so does a deposit or a withdrawal of nothing.
pub open spec fn step(pool: PoolView, operation: Operation) -> PoolView {
    match operation {
        Operation::Stake { platform, staker, amount, now } => match after_stake(
            platform,
            pool,
            staker,
            amount,
            now,
        ) {
            Ok((next, _)) => if amount > 0 {
                next
            } else {
                pool
            },
            Err(_) => pool,
        },
        Operation::Unstake { platform, staker, amount, now } => match after_unstake(
            platform,
            pool,
            staker,
            amount,
            now,
        ) {
            Ok((next, _)) => if amount > 0 {
                next
            } else {
                pool
            },
            Err(_) => pool,
        },
        Operation::ClaimReward { staker, now } => match after_claim(pool, staker, now) {
            Ok((next, _)) => next,
            Err(_) => pool,
        },
        Operation::CompoundReward { staker, now, minimum_output } => match after_compound(
            pool,
            staker,
            now,
            minimum_output,
        ) {
            Ok((next, _)) => next,
            Err(_) => pool,
        },
        Operation::CompleteSwap { staker, order, amount_out } => match after_swap(
            pool,
            staker,
            order,
            amount_out,
        ) {
            Ok((next, _)) => next,
            Err(_) => pool,
        },
        Operation::StartReward { caller, now } => match after_start(pool, caller, now) {
            Ok((next, _)) => next,
            Err(_) => pool,
        },
        Operation::StopReward { caller, now } => match after_stop(pool, caller, now) {
            Ok((next, _)) => next,
            Err(_) => pool,
        },
    }
}

/// The pool after the operations of `history`, first to last.
pub open spec fn run(pool: PoolView, history: Seq<Operation>) -> PoolView
    decreases history.len(),
{
    if history.len() == 0 {
        pool
    } else {
        step(run(pool, history.drop_last()), history.last())
    }
}

/// Accruing twice up to the same instant is accruing once: the second
/// accrual finds nothing to do.
pub proof fn accrual_is_idempotent(config: PoolConfig, state: PoolState, now: u64)
    ensures
        accrued(config, state, now) matches Ok(once) ==> accrued(config, once, now) == Ok::<
            PoolState,
            StakingError,
        >(once),
{
}

/// While nothing is staked no reward accrues, however much time passes:
/// the accrual succeeds and moves nothing but `last_accrual_time`.
pub proof fn no_accrual_while_empty(config: PoolConfig, state: PoolState, now: u64)
    requires
        state.total_staked == 0,
    ensures
        accrued(config, state, now) matches Ok(next) && next == (PoolState {
            last_accrual_time: next.last_accrual_time,
            ..state
        }),
{
}

/// An accrual never lowers the accumulator, and touches neither the
/// balances nor the funds.
pub proof fn accrual_only_raises_accumulator(config: PoolConfig, state: PoolState, now: u64)
    ensures
        accrued(config, state, now) matches Ok(next) ==> next.acc_reward_per_share
            >= state.acc_reward_per_share && next == (PoolState {
            acc_reward_per_share: next.acc_reward_per_share,
            last_accrual_time: next.last_accrual_time,
            ..state
        }),
{
    if let Ok(next) = accrued(config, state, now) {
        if now > state.last_accrual_time && !(next.last_accrual_time <= state.last_accrual_time
            || state.total_staked == 0) {
            let reward = (next.last_accrual_time - state.last_accrual_time)
                * config.reward_per_unit_time;
            let scaled = reward * precision_factor(config.reward_decimals);
            assert(scaled / (state.total_staked as int) >= 0) by (nonlinear_arith)
                requires
                    scaled >= 0,
                    state.total_staked > 0,
            ;
        }
    }
}

/// Between two quotients by the same divisor lies the quotient of the
/// difference, or sits one below.
proof fn lemma_quotient_of_a_sum(precision: int, a: int, b: int)
    requires
        precision >= 1,
        a >= 0,
        b >= 0,
    ensures
        b / precision <= (a + b) / precision - a / precision <= b / precision + 1,
{
    lemma_fundamental_div_mod(a, precision);
    lemma_fundamental_div_mod(b, precision);
    lemma_fundamental_div_mod(a + b, precision);
    lemma_mod_bound(a, precision);
    lemma_mod_bound(b, precision);
    lemma_mod_bound(a + b, precision);
    let qa = a / precision;
    let qb = b / precision;
    let qs = (a + b) / precision;
    assert(qa + qb <= qs <= qa + qb + 1) by (nonlinear_arith)
        requires
            precision >= 1,
            a == precision * qa + a % precision,
            b == precision * qb + b % precision,
            a + b == precision * qs + (a + b) % precision,
            0 <= a % precision < precision,
            0 <= b % precision < precision,
            0 <= (a + b) % precision < precision,
    ;
}

/// What a staker who had nothing pending has pending once the accumulator
/// has grown is the balance's share of the growth, rounded down, or one
/// unit more: the unit that rounding the debt down had left over.
pub proof fn pending_is_within_one_of_the_share(
    config: PoolConfig,
    state: PoolState,
    next: PoolState,
    user: UserInfo,
)
    requires
        pending(config, state, user) == Ok::<u64, StakingError>(0),
        next.acc_reward_per_share >= state.acc_reward_per_share,
    ensures
        pending(config, next, user) matches Ok(due) ==> {
            let growth = next.acc_reward_per_share - state.acc_reward_per_share;
            let share = user.staked_amount * growth / precision_factor(config.reward_decimals);
            share <= due <= share + 1
        },
{
    let precision = precision_factor(config.reward_decimals);
    let staked = user.staked_amount as int;
    let growth = next.acc_reward_per_share - state.acc_reward_per_share;
    let a = staked * state.acc_reward_per_share;
    let b = staked * growth;
    lemma_precision_factor_bounds(config.reward_decimals);
    assert(staked * next.acc_reward_per_share == a + b && a >= 0 && b >= 0) by (nonlinear_arith)
        requires
            a == staked * state.acc_reward_per_share,
            b == staked * growth,
            growth == next.acc_reward_per_share - state.acc_reward_per_share,
            staked >= 0,
            growth >= 0,
            state.acc_reward_per_share >= 0,
    ;
    lemma_quotient_of_a_sum(precision, a, b);
    assert(0 <= a / precision <= a) by (nonlinear_arith)
        requires
            0 <= a,
            1 <= precision,
    ;
    assert(0 <= (a + b) / precision <= a + b) by (nonlinear_arith)
        requires
            0 <= a + b,
            1 <= precision,
    ;
}

/// A settlement pays only what is available: where no more was paid than
/// funded before, no more is paid than funded after.
pub proof fn settlement_conserves(state: PoolState, amount: u64)
    requires
        state.conserves(),
    ensures
        settled(state, amount) matches Ok(next) ==> next.conserves() && next.total_paid
            == state.total_paid + amount,
{
}

/// Accrual and settlement together: the accumulator does not fall, the
/// balances and the funding stay, and exactly the amount returned is paid.
pub proof fn harvest_pays_what_it_returns(
    config: PoolConfig,
    state: PoolState,
    user: UserInfo,
    now: u64,
)
    ensures
        harvested(config, state, user, now) matches Ok((next, amount)) ==> {
            &&& next.acc_reward_per_share >= state.acc_reward_per_share
            &&& next.total_staked == state.total_staked
            &&& next.funded_reward_amount == state.funded_reward_amount
            &&& (amount > 0 ==> next.total_paid == state.total_paid + amount && next.conserves())
            &&& (amount == 0 ==> next.total_paid == state.total_paid)
        },
{
    accrual_only_raises_accumulator(config, state, now);
}

/// A deposit raises the staker's balance and the pool's total by the same
/// amount, the deposit less the fee, and leaves the staker with nothing
/// pending.
pub proof fn stake_credits_both_sides(
    platform: PlatformInfo,
    config: PoolConfig,
    state: PoolState,
    user: UserInfo,
    amount: u64,
    now: u64,
)
    ensures
        stake::outcome(platform, config, state, user, amount, now) matches Ok(
            (next_state, next_user, receipt),
        ) ==> {
            &&& receipt.credited == amount - receipt.fee
            &&& next_user.staked_amount == user.staked_amount + receipt.credited
            &&& next_state.total_staked == state.total_staked + receipt.credited
            &&& pending(config, next_state, next_user) == Ok::<u64, StakingError>(0)
        },
{
    harvest_pays_what_it_returns(config, state, user, now);
}

/// A withdrawal lowers the staker's balance and the pool's total by the
/// amount asked, fee included, and leaves the staker with nothing pending.
pub proof fn unstake_debits_both_sides(
    platform: PlatformInfo,
    config: PoolConfig,
    state: PoolState,
    user: UserInfo,
    amount: u64,
    now: u64,
)
    ensures
        unstake::outcome(platform, config, state, user, amount, now) matches Ok(
            (next_state, next_user, receipt),
        ) ==> {
            &&& receipt.payout == amount - receipt.fee
            &&& next_user.staked_amount == user.staked_amount - amount
            &&& next_state.total_staked == state.total_staked - amount
            &&& pending(config, next_state, next_user) == Ok::<u64, StakingError>(0)
        },
{
    harvest_pays_what_it_returns(config, state, user, now);
}

/// A claim pays what was pending, leaves the balances alone and leaves the
/// staker with nothing pending.
pub proof fn claim_leaves_balances(config: PoolConfig, state: PoolState, user: UserInfo, now: u64)
    ensures
        claim_reward::outcome(config, state, user, now) matches Ok(
            (next_state, next_user, reward),
        ) ==> {
            &&& next_user.staked_amount == user.staked_amount
            &&& next_state.total_staked == state.total_staked
            &&& next_state.total_paid == state.total_paid + reward
            &&& pending(config, next_state, next_user) == Ok::<u64, StakingError>(0)
        },
{
    harvest_pays_what_it_returns(config, state, user, now);
}

/// A compounding either orders an exchange and changes nothing, or
/// settles the reward, raises the staker's balance and the pool's total by
/// it where stake and reward are one asset, and leaves the staker with
/// nothing pending.
pub proof fn compound_credits_both_sides(
    config: PoolConfig,
    state: PoolState,
    user: UserInfo,
    now: u64,
    minimum_output: Option<u64>,
)
    ensures
        compound_reward::outcome(config, state, user, now, minimum_output) matches Ok(
            (next_state, next_user, receipt),
        ) ==> {
            &&& receipt.swap is Some ==> !config.same_asset() && receipt.swap->0.amount_in > 0
            &&& receipt.swap is Some ==> {
                &&& next_state == state
                &&& next_user == user
                &&& receipt.reward == 0
                &&& receipt.added_stake == 0
                &&& receipt.swap->0.ordered_at == now
                &&& harvested(config, state, user, now) matches Ok((_, due))
                &&& due == receipt.swap->0.amount_in
            }
            &&& receipt.swap is None ==> {
                &&& receipt.added_stake == receipt.reward
                &&& (!config.same_asset() ==> receipt.reward == 0)
                &&& next_user.staked_amount == user.staked_amount + receipt.added_stake
                &&& next_state.total_staked == state.total_staked + receipt.added_stake
                &&& next_state.total_paid == state.total_paid + receipt.reward
                &&& pending(config, next_state, next_user) == Ok::<u64, StakingError>(0)
            }
        },
{
    harvest_pays_what_it_returns(config, state, user, now);
}

/// A compounding through an exchange fails and changes nothing where the
/// exchange failed or fell short. Where it is carried out, the reward that
/// the order gave is settled, the output of the exchange is added to the
/// staker's balance and to the pool's total, and the staker is left with
/// nothing pending.
pub proof fn swap_credits_both_sides(
    config: PoolConfig,
    state: PoolState,
    user: UserInfo,
    order: SwapOrder,
    amount_out: Option<u64>,
)
    ensures
        amount_out is None || amount_out->0 < order.minimum_amount_out
            ==> compound_reward::swap_outcome(config, state, user, order, amount_out) == Err::<
            (PoolState, UserInfo, u64),
            StakingError,
        >(StakingError::TransferFailed),
        compound_reward::swap_outcome(config, state, user, order, amount_out) matches Ok(
            (next_state, next_user, added),
        ) ==> {
            &&& amount_out == Some(added)
            &&& added >= order.minimum_amount_out
            &&& next_user.staked_amount == user.staked_amount + added
            &&& next_state.total_staked == state.total_staked + added
            &&& next_state.total_paid == state.total_paid + order.amount_in
            &&& next_state.conserves()
            &&& next_state.acc_reward_per_share >= state.acc_reward_per_share
            &&& next_state.funded_reward_amount == state.funded_reward_amount
            &&& pending(config, next_state, next_user) == Ok::<u64, StakingError>(0)
        },
{
    harvest_pays_what_it_returns(config, state, user, order.ordered_at);
}

/// An exchange that fails undoes nothing, because nothing was done: from
/// the compounding that ordered it to the refusal of its output, the
/// records stay as they were before the compounding.
pub proof fn failed_exchange_leaves_the_records(
    config: PoolConfig,
    state: PoolState,
    user: UserInfo,
    now: u64,
    minimum_output: Option<u64>,
    amount_out: Option<u64>,
)
    ensures
        match compound_reward::outcome(config, state, user, now, minimum_output) {
            Ok((ordered_state, ordered_user, receipt)) => match receipt.swap {
                Some(order) => {
                    &&& ordered_state == state
                    &&& ordered_user == user
                    &&& order.minimum_amount_out == minimum_out(minimum_output)
                    &&& (amount_out is None || amount_out->0 < order.minimum_amount_out
                        ==> compound_reward::swap_outcome(
                        config,
                        ordered_state,
                        ordered_user,
                        order,
                        amount_out,
                    ) == Err::<(PoolState, UserInfo, u64), StakingError>(
                        StakingError::TransferFailed,
                    ))
                },
                None => true,
            },
            Err(_) => true,
        },
{
}

/// An exchange that delivers is carried out: where a compounding has
/// ordered an exchange and the exchange returns no less than the order
/// asked for, the compounding is refused only where crediting the output
/// leaves 64 bits; otherwise it settles the reward ordered and credits
/// the output.
pub proof fn ordered_exchange_is_carried_out(
    config: PoolConfig,
    state: PoolState,
    user: UserInfo,
    now: u64,
    minimum_output: Option<u64>,
    output: u64,
)
    requires
        output >= minimum_out(minimum_output),
    ensures
        match compound_reward::outcome(config, state, user, now, minimum_output) {
            Ok((_, _, receipt)) => match receipt.swap {
                Some(order) => match compound_reward::swap_outcome(
                    config,
                    state,
                    user,
                    order,
                    Some(output),
                ) {
                    Ok((next_state, next_user, added)) => {
                        &&& added == output
                        &&& next_user.staked_amount == user.staked_amount + output
                        &&& next_state.total_staked == state.total_staked + output
                        &&& next_state.total_paid == state.total_paid + order.amount_in
                    },
                    Err(e) => e == StakingError::ArithmeticOverflow,
                },
                None => true,
            },
            Err(_) => true,
        },
{
    harvest_pays_what_it_returns(config, state, user, now);
}

/// Writing one ledger keeps the stakers apart and changes the sum of the
/// balances by the change of that ledger's balance.
pub proof fn lemma_with_info(pool: PoolView, id: Address, info: UserInfo)
    requires
        pool.keys_distinct(),
    ensures
        distinct(pool.with_info(id, info)),
        total_balance(pool.with_info(id, info)) == total_balance(pool.stakers) - pool.info_of(
            id,
        ).staked_amount + info.staked_amount,
{
    lemma_first_index(pool.stakers, id, 0);
    match pool.position(id) {
        Some(i) => {
            lemma_total_balance_update(pool.stakers, i, Staker { id, info });
        },
        None => {
            lemma_total_balance_push(pool.stakers, Staker { id, info });
        },
    }
}

/// One operation on a pool: the stakers stay apart, the pool's total stays
/// the sum of their balances, no more is paid than was funded, the funding
/// stays and the accumulator does not fall.
pub proof fn step_keeps_the_books(pool: PoolView, operation: Operation)
    ensures
        pool.wf() ==> step(pool, operation).wf(),
        pool.state.conserves() ==> step(pool, operation).state.conserves(),
        step(pool, operation).state.funded_reward_amount == pool.state.funded_reward_amount,
        step(pool, operation).state.acc_reward_per_share >= pool.state.acc_reward_per_share,
{
    match operation {
        Operation::Stake { platform, staker, amount, now } => {
            harvest_pays_what_it_returns(pool.config, pool.state, pool.info_of(staker), now);
            stake_credits_both_sides(
                platform,
                pool.config,
                pool.state,
                pool.info_of(staker),
                amount,
                now,
            );
            if let Ok((state, info, _)) = stake::outcome(
                platform,
                pool.config,
                pool.state,
                pool.info_of(staker),
                amount,
                now,
            ) {
                if pool.keys_distinct() {
                    lemma_with_info(pool, staker, info);
                }
            }
        },
        Operation::Unstake { platform, staker, amount, now } => {
            harvest_pays_what_it_returns(pool.config, pool.state, pool.info_of(staker), now);
            unstake_debits_both_sides(
                platform,
                pool.config,
                pool.state,
                pool.info_of(staker),
                amount,
                now,
            );
            if let Ok((state, info, _)) = unstake::outcome(
                platform,
                pool.config,
                pool.state,
                pool.info_of(staker),
                amount,
                now,
            ) {
                if pool.keys_distinct() {
                    lemma_with_info(pool, staker, info);
                }
            }
        },
        Operation::ClaimReward { staker, now } => {
            harvest_pays_what_it_returns(pool.config, pool.state, pool.info_of(staker), now);
            claim_leaves_balances(pool.config, pool.state, pool.info_of(staker), now);
            if let Ok((state, info, _)) = claim_reward::outcome(
                pool.config,
                pool.state,
                pool.info_of(staker),
                now,
            ) {
                if pool.keys_distinct() {
                    lemma_with_info(pool, staker, info);
                }
            }
        },
        Operation::CompoundReward { staker, now, minimum_output } => {
            harvest_pays_what_it_returns(pool.config, pool.state, pool.info_of(staker), now);
            compound_credits_both_sides(
                pool.config,
                pool.state,
                pool.info_of(staker),
                now,
                minimum_output,
            );
            if let Ok((state, info, _)) = compound_reward::outcome(
                pool.config,
                pool.state,
                pool.info_of(staker),
                now,
                minimum_output,
            ) {
                if pool.keys_distinct() {
                    lemma_with_info(pool, staker, info);
                }
            }
        },
        Operation::CompleteSwap { staker, order, amount_out } => {
            harvest_pays_what_it_returns(
                pool.config,
                pool.state,
                pool.info_of(staker),
                order.ordered_at,
            );
            swap_credits_both_sides(
                pool.config,
                pool.state,
                pool.info_of(staker),
                order,
                amount_out,
            );
            if let Ok((state, info, _)) = compound_reward::swap_outcome(
                pool.config,
                pool.state,
                pool.info_of(staker),
                order,
                amount_out,
            ) {
                if pool.keys_distinct() {
                    lemma_with_info(pool, staker, info);
                }
            }
        },
        Operation::StartReward { caller, now } => {
            accrual_only_raises_accumulator(pool.config, pool.state, now);
        },
        Operation::StopReward { caller, now } => {
            accrual_only_raises_accumulator(pool.config, pool.state, now);
        },
    }
}

/// A debt that is covered stays covered while the accumulator does not
/// fall and the precision stays.
pub proof fn covered_under_a_higher_accumulator(
    config: PoolConfig,
    state: PoolState,
    next_config: PoolConfig,
    next_state: PoolState,
    user: UserInfo,
)
    requires
        covered(config, state, user),
        next_state.acc_reward_per_share >= state.acc_reward_per_share,
        next_config.reward_decimals == config.reward_decimals,
    ensures
        covered(next_config, next_state, user),
{
    let precision = precision_factor(config.reward_decimals);
    lemma_precision_factor_bounds(config.reward_decimals);
    lemma_mul_inequality(
        state.acc_reward_per_share as int,
        next_state.acc_reward_per_share as int,
        user.staked_amount as int,
    );
    assert(user.staked_amount * state.acc_reward_per_share == state.acc_reward_per_share
        * user.staked_amount) by (nonlinear_arith);
    assert(user.staked_amount * next_state.acc_reward_per_share
        == next_state.acc_reward_per_share * user.staked_amount) by (nonlinear_arith);
    lemma_div_is_ordered(
        user.staked_amount * state.acc_reward_per_share,
        user.staked_amount * next_state.acc_reward_per_share,
        precision,
    );
}

/// A staker with nothing pending has a covered debt.
pub proof fn settled_debt_is_covered(config: PoolConfig, state: PoolState, user: UserInfo)
    requires
        pending(config, state, user) == Ok::<u64, StakingError>(0),
    ensures
        covered(config, state, user),
{
    let precision = precision_factor(config.reward_decimals);
    let product = user.staked_amount * state.acc_reward_per_share;
    lemma_precision_factor_bounds(config.reward_decimals);
    assert(0 <= product / precision <= product) by (nonlinear_arith)
        requires
            0 <= product,
            1 <= precision,
    ;
}

/// The ledgers stay covered while the accumulator does not fall and the
/// precision stays.
proof fn lemma_ledgers_stay_covered(
    pool: PoolView,
    next_config: PoolConfig,
    next_state: PoolState,
)
    requires
        pool.debts_covered(),
        next_state.acc_reward_per_share >= pool.state.acc_reward_per_share,
        next_config.reward_decimals == pool.config.reward_decimals,
    ensures
        all_covered(next_config, next_state, pool.stakers),
{
    assert forall|i: int| 0 <= i < pool.stakers.len() implies covered(
        next_config,
        next_state,
        (#[trigger] pool.stakers[i]).info,
    ) by {
        covered_under_a_higher_accumulator(
            pool.config,
            pool.state,
            next_config,
            next_state,
            pool.stakers[i].info,
        );
    }
}

/// The ledgers stay covered when one is replaced by a covered one and the
/// accumulator does not fall.
proof fn lemma_with_info_covered(pool: PoolView, next_state: PoolState, id: Address, info: UserInfo)
    requires
        pool.debts_covered(),
        next_state.acc_reward_per_share >= pool.state.acc_reward_per_share,
        covered(pool.config, next_state, info),
    ensures
        all_covered(pool.config, next_state, pool.with_info(id, info)),
{
    lemma_first_index(pool.stakers, id, 0);
    lemma_ledgers_stay_covered(pool, pool.config, next_state);
    let written = pool.with_info(id, info);
    assert forall|i: int| 0 <= i < written.len() implies covered(
        pool.config,
        next_state,
        (#[trigger] written[i]).info,
    ) by {
        if i < pool.stakers.len() && written[i] == pool.stakers[i] {
            assert(covered(pool.config, next_state, pool.stakers[i].info));
        }
    }
}

/// The ledgers stay covered when the ledger of `id` is written with
/// nothing pending and the accumulator does not fall.
proof fn lemma_settled_ledger_keeps_covered(
    pool: PoolView,
    next_state: PoolState,
    id: Address,
    info: UserInfo,
)
    requires
        pool.debts_covered(),
        next_state.acc_reward_per_share >= pool.state.acc_reward_per_share,
        pending(pool.config, next_state, info) == Ok::<u64, StakingError>(0),
    ensures
        all_covered(pool.config, next_state, pool.with_info(id, info)),
{
    settled_debt_is_covered(pool.config, next_state, info);
    lemma_with_info_covered(pool, next_state, id, info);
}

/// One operation on a pool in which no pending reward is negative leaves
/// none negative.
pub proof fn step_keeps_debts_covered(pool: PoolView, operation: Operation)
    requires
        pool.debts_covered(),
    ensures
        step(pool, operation).debts_covered(),
{
    step_keeps_the_books(pool, operation);
    match operation {
        Operation::Stake { platform, staker, amount, now } => {
            let user = pool.info_of(staker);
            stake_credits_both_sides(platform, pool.config, pool.state, user, amount, now);
            if let Ok((state, info, _)) = stake::outcome(
                platform,
                pool.config,
                pool.state,
                user,
                amount,
                now,
            ) {
                lemma_settled_ledger_keeps_covered(pool, state, staker, info);
            }
        },
        Operation::Unstake { platform, staker, amount, now } => {
            let user = pool.info_of(staker);
            unstake_debits_both_sides(platform, pool.config, pool.state, user, amount, now);
            if let Ok((state, info, _)) = unstake::outcome(
                platform,
                pool.config,
                pool.state,
                user,
                amount,
                now,
            ) {
                lemma_settled_ledger_keeps_covered(pool, state, staker, info);
            }
        },
        Operation::ClaimReward { staker, now } => {
            let user = pool.info_of(staker);
            claim_leaves_balances(pool.config, pool.state, user, now);
            if let Ok((state, info, _)) = claim_reward::outcome(
                pool.config,
                pool.state,
                user,
                now,
            ) {
                lemma_settled_ledger_keeps_covered(pool, state, staker, info);
            }
        },
        Operation::CompoundReward { staker, now, minimum_output } => {
            let user = pool.info_of(staker);
            compound_credits_both_sides(pool.config, pool.state, user, now, minimum_output);
            if let Ok((state, info, receipt)) = compound_reward::outcome(
                pool.config,
                pool.state,
                user,
                now,
                minimum_output,
            ) {
                if receipt.swap is Some {
                    lemma_first_index(pool.stakers, staker, 0);
                    if let Some(i) = pool.position(staker) {
                        assert(covered(pool.config, pool.state, pool.stakers[i].info));
                        lemma_with_info_covered(pool, state, staker, info);
                    }
                } else {
                    lemma_settled_ledger_keeps_covered(pool, state, staker, info);
                }
            }
        },
        Operation::CompleteSwap { staker, order, amount_out } => {
            let user = pool.info_of(staker);
            swap_credits_both_sides(pool.config, pool.state, user, order, amount_out);
            if let Ok((state, info, _)) = compound_reward::swap_outcome(
                pool.config,
                pool.state,
                user,
                order,
                amount_out,
            ) {
                lemma_settled_ledger_keeps_covered(pool, state, staker, info);
            }
        },
        Operation::StartReward { caller, now } => {
            if let Ok((config, state)) = start_reward::outcome(
                pool.config,
                pool.state,
                caller,
                now,
            ) {
                lemma_ledgers_stay_covered(pool, config, state);
            }
        },
        Operation::StopReward { caller, now } => {
            if let Ok((config, state)) = stop_reward::outcome(
                pool.config,
                pool.state,
                caller,
                now,
            ) {
                lemma_ledgers_stay_covered(pool, config, state);
            }
        },
    }
}

/// One operation on a pool keeps what held of it: the consistency of the
/// ledgers, the conservation of the funding and the cover of the debts.
pub proof fn step_keeps_every_invariant(pool: PoolView, operation: Operation)
    ensures
        invariants_kept(pool, step(pool, operation)),
{
    step_keeps_the_books(pool, operation);
    if pool.debts_covered() {
        step_keeps_debts_covered(pool, operation);
    }
}

/// Pending reward is never negative: whatever is done to a pool in which
/// every debt is covered, and in whatever order, every debt stays covered.
pub proof fn pending_is_never_negative(pool: PoolView, history: Seq<Operation>)
    requires
        pool.debts_covered(),
    ensures
        run(pool, history).debts_covered(),
    decreases history.len(),
{
    if history.len() > 0 {
        pending_is_never_negative(pool, history.drop_last());
        step_keeps_debts_covered(run(pool, history.drop_last()), history.last());
    }
}

/// While nothing is staked, no operation moves the accumulator.
pub proof fn empty_pool_keeps_its_accumulator(pool: PoolView, operation: Operation)
    requires
        pool.state.total_staked == 0,
    ensures
        step(pool, operation).state.acc_reward_per_share == pool.state.acc_reward_per_share,
{
    match operation {
        Operation::Stake { platform, staker, amount, now } => {
            no_accrual_while_empty(pool.config, pool.state, now);
        },
        Operation::Unstake { platform, staker, amount, now } => {
            no_accrual_while_empty(pool.config, pool.state, now);
        },
        Operation::ClaimReward { staker, now } => {
            no_accrual_while_empty(pool.config, pool.state, now);
        },
        Operation::CompoundReward { staker, now, minimum_output } => {
            no_accrual_while_empty(pool.config, pool.state, now);
        },
        Operation::CompleteSwap { staker, order, amount_out } => {
            no_accrual_while_empty(pool.config, pool.state, order.ordered_at);
        },
        Operation::StartReward { caller, now } => {
            no_accrual_while_empty(pool.config, pool.state, now);
        },
        Operation::StopReward { caller, now } => {
            no_accrual_while_empty(pool.config, pool.state, now);
        },
    }
}

/// A stop freezes the accumulator: once a pool has been stopped at `now`,
/// an accrual at whatever instant succeeds and leaves the accumulator
/// where it was; and where the pool had not been accrued past `now`
/// before, the accrual changes nothing at all.
pub proof fn stop_freezes_the_accumulator(
    config: PoolConfig,
    state: PoolState,
    caller: Address,
    now: u64,
    later: u64,
)
    ensures
        stop_reward::outcome(config, state, caller, now) matches Ok((stopped, frozen)) ==> {
            &&& stopped.end_time == now
            &&& accrued(stopped, frozen, later) matches Ok(after)
            &&& after.acc_reward_per_share == frozen.acc_reward_per_share
            &&& (state.last_accrual_time <= now ==> after == frozen)
        },
{
}

/// A pool as it is created keeps its books: nothing is paid, nothing is
/// staked and nobody owes anything.
pub proof fn new_pool_keeps_the_books(
    config: PoolConfig,
    initial_funding: u64,
    start_time: u64,
    now: u64,
)
    ensures
        ({
            let pool = PoolView {
                config,
                state: new_state(initial_funding, start_time, now),
                stakers: Seq::<Staker>::empty(),
            };
            pool.wf() && pool.state.conserves() && pool.debts_covered()
        }),
{
}

/// Conservation: whatever is done to a pool, and in whatever order, no
/// more is ever paid out of it than it was funded with.
pub proof fn conservation(pool: PoolView, history: Seq<Operation>)
    requires
        pool.state.conserves(),
    ensures
        run(pool, history).state.conserves(),
        run(pool, history).state.funded_reward_amount == pool.state.funded_reward_amount,
    decreases history.len(),
{
    if history.len() > 0 {
        conservation(pool, history.drop_last());
        step_keeps_the_books(run(pool, history.drop_last()), history.last());
    }
}

/// Ledger consistency: whatever is done to a pool, and in whatever order,
/// every staker keeps one ledger and the pool's total stays the sum of the
/// stakers' balances.
pub proof fn ledger_consistency(pool: PoolView, history: Seq<Operation>)
    requires
        pool.wf(),
    ensures
        run(pool, history).wf(),
    decreases history.len(),
{
    if history.len() > 0 {
        ledger_consistency(pool, history.drop_last());
        step_keeps_the_books(run(pool, history.drop_last()), history.last());
    }
}

/// The accumulator is monotonic: whatever is done to a pool, and in
/// whatever order, the accumulator never falls.
pub proof fn accumulator_is_monotonic(pool: PoolView, history: Seq<Operation>)
    ensures
        run(pool, history).state.acc_reward_per_share >= pool.state.acc_reward_per_share,
    decreases history.len(),
{
    if history.len() > 0 {
        accumulator_is_monotonic(pool, history.drop_last());
        step_keeps_the_books(run(pool, history.drop_last()), history.last());
    }
}

/// A pool keeps its books for life: from its creation on, whatever is done
/// to it and in whatever order, every staker has one ledger, the pool's
/// total is the sum of the balances, no more is paid than was funded, and
/// nobody's pending reward is negative.
pub proof fn pool_keeps_its_books_for_life(
    config: PoolConfig,
    initial_funding: u64,
    start_time: u64,
    now: u64,
    history: Seq<Operation>,
)
    ensures
        ({
            let created = PoolView {
                config,
                state: new_state(initial_funding, start_time, now),
                stakers: Seq::<Staker>::empty(),
            };
            let pool = run(created, history);
            &&& pool.wf()
            &&& pool.state.conserves()
            &&& pool.state.funded_reward_amount == initial_funding
            &&& pool.debts_covered()
        }),
{
    let created = PoolView {
        config,
        state: new_state(initial_funding, start_time, now),
        stakers: Seq::<Staker>::empty(),
    };
    new_pool_keeps_the_books(config, initial_funding, start_time, now);
    conservation(created, history);
    ledger_consistency(created, history);
    pending_is_never_negative(created, history);
}

} // verus!
