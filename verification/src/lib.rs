//! Reward accounting for staking pools.
//!
//! Stakers lock a stake asset into a pool and earn a reward asset that the
//! pool's creator funded. Reward accrues per unit of time and is shared by
//! the stakers in proportion to their balances: the pool keeps the reward
//! accrued per staked unit in an accumulator, and every staker's ledger
//! keeps how much of it is accounted for already.
//!
//! The library keeps the records and moves no asset. Every operation hands
//! back a receipt that names what the host has to move, and the time is
//! handed in by the host. An operation that the library refuses changes
//! no record. A compounding that needs an exchange changes none before the
//! exchange has been made, and none at all where the exchange fails. What
//! the library cannot see is a transfer that fails after an operation has
//! succeeded: there the host has to keep the records from before the
//! operation.
//!
//! Amounts, instants and the accumulator are unsigned 64-bit numbers. A
//! product that is divided at once (an amount by the accumulator, a reward
//! by the precision factor, an amount by a fee rate) is formed in 128
//! bits, where it always fits; the quotient, like every sum and every
//! reward, has to fit in 64 bits. An operation whose arithmetic leaves
//! that range is refused and changes nothing. Fees are taken out of the
//! amount moved: a deposit is credited less the stake fee, a withdrawal is
//! paid out less the unstake fee.
//!
//! The functions of this module work on a [`pool::Pool`], which holds the
//! ledgers of its stakers. Those of [`instructions`] work on single
//! records, for a host that keeps the records itself. What holds of a pool
//! whatever is done to it is proved in [`theorems`], and that no staker is
//! paid more than the share in [`shares`].

pub mod error;
pub mod instructions;
pub mod pool;
pub mod registry;
pub mod shares;
pub mod state;
pub mod theorems;
pub mod utils;

use vstd::prelude::*;
use crate::error::StakingError;
use crate::instructions::compound_reward::{CompoundReceipt, SwapOrder};
use crate::instructions::create_pool::{
    new_config, new_state, well_formed, CreatePool, CreateReceipt,
};
use crate::instructions::stake::StakeReceipt;
use crate::instructions::unstake::UnstakeReceipt;
use crate::pool::{
    after_claim, after_compound, after_stake, after_start, after_stop, after_swap, after_unstake,
    applied, invariants_kept, lemma_first_index, Pool, PoolView, Staker,
};
use crate::registry::{holds, unique, Registry};
use crate::state::address::Address;
use crate::state::platform_info::PlatformInfo;
use crate::theorems::{new_pool_keeps_the_books, step_keeps_every_invariant, Operation};

verus! {

/// Sets the platform's record: the treasury and the three fees. Setting it
/// again replaces what was there.
pub fn initialize(
    platform: &mut PlatformInfo,
    treasury: Address,
    deploy_fee: u64,
    stake_fee_bps: u16,
    unstake_fee_bps: u16,
)
    ensures
        *final(platform) == (PlatformInfo {
            treasury_id: treasury,
            deploy_fee,
            stake_fee_bps,
            unstake_fee_bps,
        }),
{
    instructions::initialize::handler(
        platform,
        treasury,
        deploy_fee,
        stake_fee_bps,
        unstake_fee_bps,
    )
}

/// Creates a pool at `now` and puts it at the end of the registry.
///
/// The pool is refused with `InvalidConfiguration` where its creator has a
/// pool of that name already or the parameters are not `well_formed`, and
/// on no other ground; the registry then stays as it is. The receipt says
/// what the creator has to pay: the funding and the deploy fee. The new
/// pool has no stakers and keeps its books.
pub fn create_pool(
    registry: &mut Registry,
    platform: &PlatformInfo,
    accounts: &CreatePool,
    pool_id: String,
    pool_fee: u8,
    initial_funding: u64,
    reward_per_unit_time: u64,
    start_time: u64,
    end_time: u64,
    now: u64,
) -> (result: Result<CreateReceipt, StakingError>)
    ensures
        result is Ok <==> !holds(old(registry).pools@, accounts.creator, pool_id@) && well_formed(
            *accounts,
            start_time,
            end_time,
        ),
        match result {
            Ok(receipt) => {
                let pool = final(registry).pools@.last()@;
                &&& receipt == (CreateReceipt {
                    funding: initial_funding,
                    deploy_fee: platform.deploy_fee,
                })
                &&& final(registry).pools@.len() == old(registry).pools@.len() + 1
                &&& final(registry).pools@.drop_last() == old(registry).pools@
                &&& pool == (PoolView {
                    config: new_config(
                        *accounts,
                        pool_id,
                        pool_fee,
                        reward_per_unit_time,
                        start_time,
                        end_time,
                    ),
                    state: new_state(initial_funding, start_time, now),
                    stakers: Seq::<Staker>::empty(),
                })
                &&& pool.wf() && pool.state.conserves() && pool.debts_covered()
            },
            Err(e) => {
                &&& e == StakingError::InvalidConfiguration
                &&& final(registry).pools@ == old(registry).pools@
            },
        },
        unique(old(registry).pools@) ==> unique(final(registry).pools@),
{
    proof {
        new_pool_keeps_the_books(
            new_config(*accounts, pool_id, pool_fee, reward_per_unit_time, start_time, end_time),
            initial_funding,
            start_time,
            now,
        );
    }
    let pool_exists = registry.find_pool(&accounts.creator, &pool_id).is_some();
    match instructions::create_pool::handler(
        accounts,
        platform,
        pool_exists,
        pool_id,
        pool_fee,
        initial_funding,
        reward_per_unit_time,
        start_time,
        end_time,
        now,
    ) {
        Ok(made) => {
            let receipt = made.receipt;
            registry.pools.push(Pool::new(made.config, made.state));
            proof {
                let before = old(registry).pools@;
                let after = registry.pools@;
                assert(after.drop_last() =~= before);
                if unique(before) {
                    assert forall|i: int, j: int| 0 <= i < j < after.len() implies !((
                    #[trigger] after[i]).config.owner == (#[trigger] after[j]).config.owner
                        && after[i].config.pool_id@ == after[j].config.pool_id@) by {
                        assert(before[i] == after[i]);
                        if j < before.len() {
                            assert(before[j] == after[j]);
                        }
                    }
                }
            }
            Ok(receipt)
        },
        Err(e) => Err(e),
    }
}

/// Deposits `amount` for `staker`, whose ledger is made if there is none.
///
/// On success the pool is that of `after_stake` and the receipt says what
/// to move. On failure nothing has changed.
pub fn stake(
    platform: &PlatformInfo,
    pool: &mut Pool,
    staker: &Address,
    amount: u64,
    now: u64,
) -> (result: Result<StakeReceipt, StakingError>)
    requires
        amount > 0,
    ensures
        applied(
            after_stake(*platform, old(pool)@, *staker, amount, now),
            result,
            old(pool)@,
            final(pool)@,
        ),
        invariants_kept(old(pool)@, final(pool)@),
{
    proof {
        step_keeps_every_invariant(
            pool@,
            Operation::Stake { platform: *platform, staker: *staker, amount, now },
        );
    }
    let mut info = pool.user_info(staker);
    match instructions::stake::handler(
        platform,
        &pool.config,
        &mut pool.state,
        &mut info,
        amount,
        now,
    ) {
        Ok(receipt) => {
            pool.set_user_info(staker, info);
            Ok(receipt)
        },
        Err(e) => Err(e),
    }
}

/// Withdraws `amount` for `staker`, who has to have a ledger in the pool.
///
/// On success the pool is that of `after_unstake` and the receipt says
/// what to move. On failure nothing has changed.
pub fn unstake(
    platform: &PlatformInfo,
    pool: &mut Pool,
    staker: &Address,
    amount: u64,
    now: u64,
) -> (result: Result<UnstakeReceipt, StakingError>)
    requires
        amount > 0,
    ensures
        applied(
            after_unstake(*platform, old(pool)@, *staker, amount, now),
            result,
            old(pool)@,
            final(pool)@,
        ),
        invariants_kept(old(pool)@, final(pool)@),
{
    proof {
        step_keeps_every_invariant(
            pool@,
            Operation::Unstake { platform: *platform, staker: *staker, amount, now },
        );
    }
    if pool.find(staker).is_none() {
        return Err(StakingError::Unauthorized);
    }
    let mut info = pool.user_info(staker);
    match instructions::unstake::handler(
        platform,
        &pool.config,
        &mut pool.state,
        &mut info,
        amount,
        now,
    ) {
        Ok(receipt) => {
            pool.set_user_info(staker, info);
            Ok(receipt)
        },
        Err(e) => Err(e),
    }
}

/// Pays `staker`, who has to have a ledger in the pool, the reward that is
/// pending, and returns the amount.
///
/// On success the pool is that of `after_claim`. On failure nothing has
/// changed.
pub fn claim_reward(pool: &mut Pool, staker: &Address, now: u64) -> (result: Result<
    u64,
    StakingError,
>)
    ensures
        applied(after_claim(old(pool)@, *staker, now), result, old(pool)@, final(pool)@),
        invariants_kept(old(pool)@, final(pool)@),
{
    proof {
        step_keeps_every_invariant(pool@, Operation::ClaimReward { staker: *staker, now });
    }
    if pool.find(staker).is_none() {
        return Err(StakingError::Unauthorized);
    }
    let mut info = pool.user_info(staker);
    match instructions::claim_reward::handler(&pool.config, &mut pool.state, &mut info, now) {
        Ok(reward) => {
            pool.set_user_info(staker, info);
            Ok(reward)
        },
        Err(e) => Err(e),
    }
}

/// Turns the pending reward of `staker`, who has to have a ledger in the
/// pool, into stake, or orders the exchange that has to come first. Where
/// the receipt orders an exchange, the pool has not changed yet: the host
/// makes the exchange and hands its output to `complete_swap`.
///
/// On success the pool is that of `after_compound`. On failure nothing has
/// changed.
pub fn compound_reward(
    pool: &mut Pool,
    staker: &Address,
    now: u64,
    minimum_output: Option<u64>,
) -> (result: Result<CompoundReceipt, StakingError>)
    ensures
        applied(
            after_compound(old(pool)@, *staker, now, minimum_output),
            result,
            old(pool)@,
            final(pool)@,
        ),
        invariants_kept(old(pool)@, final(pool)@),
        result matches Ok(receipt) && receipt.swap is Some ==> final(pool)@ == old(pool)@,
{
    proof {
        step_keeps_every_invariant(
            pool@,
            Operation::CompoundReward { staker: *staker, now, minimum_output },
        );
    }
    if pool.find(staker).is_none() {
        return Err(StakingError::Unauthorized);
    }
    let mut info = pool.user_info(staker);
    match instructions::compound_reward::handler(
        &pool.config,
        &mut pool.state,
        &mut info,
        now,
        minimum_output,
    ) {
        Ok(receipt) => {
            pool.set_user_info(staker, info);
            proof {
                if receipt.swap is Some {
                    lemma_first_index(old(pool)@.stakers, *staker, 0);
                    assert(pool@.stakers =~= old(pool)@.stakers);
                }
            }
            Ok(receipt)
        },
        Err(e) => Err(e),
    }
}

/// Carries out the compounding that `order` stands for, for `staker`, who
/// has to have a ledger in the pool, and returns the stake added: the
/// reward is settled and the output of the exchange credited in one step.
/// `amount_out` is `None` where the exchange failed.
///
/// On success the pool is that of `after_swap`. On failure, and so
/// wherever the exchange failed or returned less than the order asked
/// for, nothing has changed: the pool is as it was before the
/// compounding.
pub fn complete_swap(
    pool: &mut Pool,
    staker: &Address,
    order: &SwapOrder,
    amount_out: Option<u64>,
) -> (result: Result<u64, StakingError>)
    ensures
        applied(
            after_swap(old(pool)@, *staker, *order, amount_out),
            result,
            old(pool)@,
            final(pool)@,
        ),
        invariants_kept(old(pool)@, final(pool)@),
        amount_out is None || amount_out->0 < order.minimum_amount_out ==> result is Err
            && final(pool)@ == old(pool)@,
{
    proof {
        step_keeps_every_invariant(
            pool@,
            Operation::CompleteSwap { staker: *staker, order: *order, amount_out },
        );
    }
    if pool.find(staker).is_none() {
        return Err(StakingError::Unauthorized);
    }
    let mut info = pool.user_info(staker);
    match instructions::compound_reward::complete_swap(
        &pool.config,
        &mut pool.state,
        &mut info,
        order,
        amount_out,
    ) {
        Ok(added) => {
            pool.set_user_info(staker, info);
            Ok(added)
        },
        Err(e) => Err(e),
    }
}

/// Starts a pool that was created without a start time. Only the pool's
/// owner may.
///
/// On success the pool is that of `after_start`. On failure nothing has
/// changed.
pub fn start_reward(pool: &mut Pool, caller: &Address, now: u64) -> (result: Result<
    (),
    StakingError,
>)
    ensures
        applied(after_start(old(pool)@, *caller, now), result, old(pool)@, final(pool)@),
        invariants_kept(old(pool)@, final(pool)@),
{
    proof {
        step_keeps_every_invariant(pool@, Operation::StartReward { caller: *caller, now });
    }
    instructions::start_reward::handler(&mut pool.config, &mut pool.state, caller, now)
}

/// Stops a running pool: reward accrues up to `now` and no further. Only
/// the pool's owner may.
///
/// On success the pool is that of `after_stop`. On failure nothing has
/// changed.
pub fn stop_reward(pool: &mut Pool, caller: &Address, now: u64) -> (result: Result<
    (),
    StakingError,
>)
    ensures
        applied(after_stop(old(pool)@, *caller, now), result, old(pool)@, final(pool)@),
        invariants_kept(old(pool)@, final(pool)@),
{
    proof {
        step_keeps_every_invariant(pool@, Operation::StopReward { caller: *caller, now });
    }
    instructions::stop_reward::handler(&mut pool.config, &mut pool.state, caller, now)
}

} // verus!
