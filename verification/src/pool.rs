//! A pool together with the ledgers of its stakers.

use vstd::prelude::*;
use crate::error::StakingError;
use crate::instructions::claim_reward;
use crate::instructions::compound_reward;
use crate::instructions::compound_reward::{CompoundReceipt, SwapOrder};
use crate::instructions::stake;
use crate::instructions::stake::StakeReceipt;
use crate::instructions::start_reward;
use crate::instructions::stop_reward;
use crate::instructions::unstake;
use crate::instructions::unstake::UnstakeReceipt;
use crate::state::address::Address;
use crate::state::platform_info::PlatformInfo;
use crate::state::pool_config::PoolConfig;
use crate::state::pool_state::PoolState;
use crate::state::user_info::UserInfo;
use crate::utils::precision_factor;

verus! {

/// The ledger of one staker, under the staker's address.
#[derive(Clone, Copy, Debug, PartialEq, Eq, Structural)]
pub struct Staker {
    pub id: Address,
    pub info: UserInfo,
}

/// A pool: its descriptor, its running totals and one ledger for each
/// staker who ever deposited. A ledger is made by the first deposit and
/// stays when its balance goes back to zero.
#[derive(Clone, Debug)]
pub struct Pool {
    pub config: PoolConfig,
    pub state: PoolState,
    pub stakers: Vec<Staker>,
}

/// A pool as contracts speak of it: the ledgers as a sequence.
pub struct PoolView {
    pub config: PoolConfig,
    pub state: PoolState,
    pub stakers: Seq<Staker>,
}

impl View for Pool {
    type V = PoolView;

    open spec fn view(&self) -> PoolView {
        PoolView { config: self.config, state: self.state, stakers: self.stakers@ }
    }
}

/// The first index at or after `from` whose ledger belongs to `id`.
pub open spec fn first_index_from(stakers: Seq<Staker>, id: Address, from: int) -> Option<int>
    decreases stakers.len() - from,
{
    if from < 0 || from >= stakers.len() {
        None
    } else if stakers[from].id == id {
        Some(from)
    } else {
        first_index_from(stakers, id, from + 1)
    }
}

/// The sum of the balances of all ledgers.
pub open spec fn total_balance(stakers: Seq<Staker>) -> int
    decreases stakers.len(),
{
    if stakers.len() == 0 {
        0
    } else {
        total_balance(stakers.drop_last()) + stakers.last().info.staked_amount
    }
}

/// The reward debt of `user` is no more than the balance has earned under
/// the pool's accumulator, whatever the size of the product.
pub open spec fn covered(config: PoolConfig, state: PoolState, user: UserInfo) -> bool {
    user.reward_debt <= user.staked_amount * state.acc_reward_per_share / precision_factor(
        config.reward_decimals,
    )
}

/// Every one of the ledgers has a covered debt.
pub open spec fn all_covered(config: PoolConfig, state: PoolState, stakers: Seq<Staker>) -> bool {
    forall|i: int| 0 <= i < stakers.len() ==> covered(config, state, (#[trigger] stakers[i]).info)
}

/// No two of the ledgers belong to the same staker.
pub open spec fn distinct(stakers: Seq<Staker>) -> bool {
    forall|i: int, j: int| 0 <= i < j < stakers.len() ==> stakers[i].id != stakers[j].id
}

impl PoolView {
    /// Where the ledger of `id` stands, if there is one.
    pub open spec fn position(self, id: Address) -> Option<int> {
        first_index_from(self.stakers, id, 0)
    }

    /// The ledger of `id`, which is empty until the first deposit.
    pub open spec fn info_of(self, id: Address) -> UserInfo {
        match self.position(id) {
            Some(i) => self.stakers[i].info,
            None => UserInfo::empty(),
        }
    }

    /// The ledgers once that of `id` holds `info`: written in place where
    /// `id` has one, added at the end where not.
    pub open spec fn with_info(self, id: Address, info: UserInfo) -> Seq<Staker> {
        match self.position(id) {
            Some(i) => self.stakers.update(i, Staker { id, info }),
            None => self.stakers.push(Staker { id, info }),
        }
    }

    /// No staker has two ledgers.
    pub open spec fn keys_distinct(self) -> bool {
        distinct(self.stakers)
    }

    /// The pool's total is the sum of the stakers' balances.
    pub open spec fn balanced(self) -> bool {
        self.state.total_staked == total_balance(self.stakers)
    }

    /// The ledgers are consistent with each other and with the pool.
    pub open spec fn wf(self) -> bool {
        self.keys_distinct() && self.balanced()
    }

    /// No staker owes more reward than the balance has earned: nobody's
    /// pending reward is negative.
    pub open spec fn debts_covered(self) -> bool {
        all_covered(self.config, self.state, self.stakers)
    }
}

/// What `first_index_from` finds is the first ledger of `id` at or after
/// `from`, and it finds nothing only where there is none.
pub proof fn lemma_first_index(stakers: Seq<Staker>, id: Address, from: int)
    requires
        0 <= from <= stakers.len(),
    ensures
        match first_index_from(stakers, id, from) {
            Some(i) => from <= i < stakers.len() && stakers[i].id == id && forall|k: int|
                from <= k < i ==> stakers[k].id != id,
            None => forall|k: int| from <= k < stakers.len() ==> stakers[k].id != id,
        },
    decreases stakers.len() - from,
{
    if from < stakers.len() && stakers[from].id != id {
        lemma_first_index(stakers, id, from + 1);
    }
}

/// A ledger added at the end adds its balance to the sum.
pub proof fn lemma_total_balance_push(stakers: Seq<Staker>, staker: Staker)
    ensures
        total_balance(stakers.push(staker)) == total_balance(stakers)
            + staker.info.staked_amount,
{
    assert(stakers.push(staker).drop_last() =~= stakers);
}

/// A ledger written in place changes the sum by the change of its balance.
pub proof fn lemma_total_balance_update(stakers: Seq<Staker>, i: int, staker: Staker)
    requires
        0 <= i < stakers.len(),
    ensures
        total_balance(stakers.update(i, staker)) == total_balance(stakers)
            - stakers[i].info.staked_amount + staker.info.staked_amount,
    decreases stakers.len(),
{
    let updated = stakers.update(i, staker);
    if i == stakers.len() - 1 {
        assert(updated.drop_last() =~= stakers.drop_last());
    } else {
        assert(updated.drop_last() =~= stakers.drop_last().update(i, staker));
        lemma_total_balance_update(stakers.drop_last(), i, staker);
    }
}

/// A deposit of `amount` by `staker` at `now`: the pool afterwards, and
/// the receipt. The staker's ledger is made if there is none.
pub open spec fn after_stake(
    platform: PlatformInfo,
    pool: PoolView,
    staker: Address,
    amount: u64,
    now: u64,
) -> Result<(PoolView, StakeReceipt), StakingError> {
    match stake::outcome(platform, pool.config, pool.state, pool.info_of(staker), amount, now) {
        Ok((state, info, receipt)) => Ok(
            (PoolView { state, stakers: pool.with_info(staker, info), ..pool }, receipt),
        ),
        Err(e) => Err(e),
    }
}

/// A withdrawal of `amount` by `staker` at `now`: the pool afterwards, and
/// the receipt. Only who has a ledger may withdraw.
pub open spec fn after_unstake(
    platform: PlatformInfo,
    pool: PoolView,
    staker: Address,
    amount: u64,
    now: u64,
) -> Result<(PoolView, UnstakeReceipt), StakingError> {
    if pool.position(staker) is None {
        Err(StakingError::Unauthorized)
    } else {
        match unstake::outcome(
            platform,
            pool.config,
            pool.state,
            pool.info_of(staker),
            amount,
            now,
        ) {
            Ok((state, info, receipt)) => Ok(
                (PoolView { state, stakers: pool.with_info(staker, info), ..pool }, receipt),
            ),
            Err(e) => Err(e),
        }
    }
}

/// A claim by `staker` at `now`: the pool afterwards, and the reward paid.
/// Only who has a ledger may claim.
pub open spec fn after_claim(pool: PoolView, staker: Address, now: u64) -> Result<
    (PoolView, u64),
    StakingError,
> {
    if pool.position(staker) is None {
        Err(StakingError::Unauthorized)
    } else {
        match claim_reward::outcome(pool.config, pool.state, pool.info_of(staker), now) {
            Ok((state, info, reward)) => Ok(
                (PoolView { state, stakers: pool.with_info(staker, info), ..pool }, reward),
            ),
            Err(e) => Err(e),
        }
    }
}

/// A compounding by `staker` at `now`: the pool afterwards, and the
/// receipt. Only who has a ledger may compound. Where an exchange is
/// ordered the pool stays as it is.
pub open spec fn after_compound(
    pool: PoolView,
    staker: Address,
    now: u64,
    minimum_output: Option<u64>,
) -> Result<(PoolView, CompoundReceipt), StakingError> {
    if pool.position(staker) is None {
        Err(StakingError::Unauthorized)
    } else {
        match compound_reward::outcome(
            pool.config,
            pool.state,
            pool.info_of(staker),
            now,
            minimum_output,
        ) {
            Ok((state, info, receipt)) => Ok(
                (PoolView { state, stakers: pool.with_info(staker, info), ..pool }, receipt),
            ),
            Err(e) => Err(e),
        }
    }
}

/// A compounding through an exchange carried out for `staker`: the pool
/// afterwards, and the stake added. Only who has a ledger is credited.
pub open spec fn after_swap(
    pool: PoolView,
    staker: Address,
    order: SwapOrder,
    amount_out: Option<u64>,
) -> Result<(PoolView, u64), StakingError> {
    if pool.position(staker) is None {
        Err(StakingError::Unauthorized)
    } else {
        match compound_reward::swap_outcome(
            pool.config,
            pool.state,
            pool.info_of(staker),
            order,
            amount_out,
        ) {
            Ok((state, info, added)) => Ok(
                (PoolView { state, stakers: pool.with_info(staker, info), ..pool }, added),
            ),
            Err(e) => Err(e),
        }
    }
}

/// A start asked by `caller` at `now`: the pool afterwards.
pub open spec fn after_start(pool: PoolView, caller: Address, now: u64) -> Result<
    (PoolView, ()),
    StakingError,
> {
    match start_reward::outcome(pool.config, pool.state, caller, now) {
        Ok((config, state)) => Ok((PoolView { config, state, ..pool }, ())),
        Err(e) => Err(e),
    }
}

/// A stop asked by `caller` at `now`: the pool afterwards.
pub open spec fn after_stop(pool: PoolView, caller: Address, now: u64) -> Result<
    (PoolView, ()),
    StakingError,
> {
    match stop_reward::outcome(pool.config, pool.state, caller, now) {
        Ok((config, state)) => Ok((PoolView { config, state, ..pool }, ())),
        Err(e) => Err(e),
    }
}

/// An operation on a pool did what `outcome` says: on success the pool is
/// that of the outcome and the result is its receipt; on failure the
/// result is its error and the pool is as it was.
pub open spec fn applied<R>(
    outcome: Result<(PoolView, R), StakingError>,
    result: Result<R, StakingError>,
    before: PoolView,
    after: PoolView,
) -> bool {
    match outcome {
        Ok((next, receipt)) => result == Ok::<R, StakingError>(receipt) && after == next,
        Err(e) => result == Err::<R, StakingError>(e) && after == before,
    }
}

/// What every operation keeps between the pool it found and the pool it
/// leaves: the funding stays, the accumulator does not fall, and what held
/// before holds after, be it the consistency of the ledgers, the
/// conservation of the funding or the cover of the debts.
pub open spec fn invariants_kept(before: PoolView, after: PoolView) -> bool {
    &&& after.state.funded_reward_amount == before.state.funded_reward_amount
    &&& after.state.acc_reward_per_share >= before.state.acc_reward_per_share
    &&& (before.wf() ==> after.wf())
    &&& (before.state.conserves() ==> after.state.conserves())
    &&& (before.debts_covered() ==> after.debts_covered())
}

impl Pool {
    /// A pool without stakers.
    pub fn new(config: PoolConfig, state: PoolState) -> (pool: Pool)
        ensures
            pool@ == (PoolView { config, state, stakers: Seq::<Staker>::empty() }),
    {
        Pool { config, state, stakers: Vec::new() }
    }

    /// Where the ledger of `id` stands, if there is one.
    pub fn find(&self, id: &Address) -> (found: Option<usize>)
        ensures
            match found {
                Some(i) => self@.position(*id) == Some(i as int) && i < self.stakers.len(),
                None => self@.position(*id) is None,
            },
    {
        let mut i: usize = 0;
        while i < self.stakers.len()
            invariant
                i <= self.stakers.len(),
                first_index_from(self.stakers@, *id, 0) == first_index_from(
                    self.stakers@,
                    *id,
                    i as int,
                ),
            decreases self.stakers.len() - i,
        {
            if self.stakers[i].id == *id {
                return Some(i);
            }
            i = i + 1;
        }
        None
    }

    /// The ledger of `id`, which is empty until the first deposit.
    pub fn user_info(&self, id: &Address) -> (info: UserInfo)
        ensures
            info == self@.info_of(*id),
    {
        match self.find(id) {
            Some(i) => self.stakers[i].info,
            None => UserInfo::new(),
        }
    }

    /// Writes `info` into the ledger of `id`, making the ledger where
    /// there is none.
    pub fn set_user_info(&mut self, id: &Address, info: UserInfo)
        ensures
            final(self)@ == (PoolView {
                stakers: old(self)@.with_info(*id, info),
                ..old(self)@
            }),
    {
        match self.find(id) {
            Some(i) => {
                self.stakers[i] = Staker { id: *id, info };
            },
            None => {
                self.stakers.push(Staker { id: *id, info });
            },
        }
    }
}

} // verus!
