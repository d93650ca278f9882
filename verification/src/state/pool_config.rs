use vstd::prelude::*;
use crate::state::address::Address;

verus! {

/// The descriptor of one pool. After creation only `start_time` and
/// `end_time` change, through the start and stop operations.
#[derive(Clone, Debug)]
pub struct PoolConfig {
    /// The creator and admin of the pool.
    pub owner: Address,
    /// Name of the pool, unique per owner.
    pub pool_id: String,
    /// First instant at which deposits are taken; 0 while the pool has not
    /// been started.
    pub start_time: u64,
    /// First instant at which no reward accrues any more.
    pub end_time: u64,
    /// Fee override of this pool, kept with the descriptor.
    pub pool_fee: u8,
    /// Reward released per unit of time, shared by all stakers.
    pub reward_per_unit_time: u64,
    pub stake_asset_id: Address,
    pub reward_asset_id: Address,
    pub stake_decimals: u8,
    pub reward_decimals: u8,
    pub stake_vault_id: Address,
    pub reward_vault_id: Address,
    /// Where the pool's `PoolState` is kept.
    pub state_id: Address,
}

impl PoolConfig {
    /// Deposits are taken at `now`: the pool has not been started yet, or
    /// `now` lies in `[start_time, end_time)`.
    pub open spec fn spec_accepts_deposits(&self, now: u64) -> bool {
        self.start_time == 0 || (self.start_time <= now && now < self.end_time)
    }

    /// The pool is running at `now`: `now` lies in `[start_time, end_time)`.
    pub open spec fn spec_is_running(&self, now: u64) -> bool {
        self.start_time <= now && now < self.end_time
    }

    /// Stake and reward are one and the same asset.
    pub open spec fn spec_same_asset(&self) -> bool {
        self.stake_asset_id == self.reward_asset_id
    }

    /// Whether deposits are taken at `now`.
    #[verifier::when_used_as_spec(spec_accepts_deposits)]
    pub fn accepts_deposits(&self, now: u64) -> (taken: bool)
        ensures
            taken == self.spec_accepts_deposits(now),
    {
        self.start_time == 0 || (self.start_time <= now && now < self.end_time)
    }

    /// Whether the pool is running at `now`.
    #[verifier::when_used_as_spec(spec_is_running)]
    pub fn is_running(&self, now: u64) -> (running: bool)
        ensures
            running == self.spec_is_running(now),
    {
        self.start_time <= now && now < self.end_time
    }

    /// Whether stake and reward are one and the same asset.
    #[verifier::when_used_as_spec(spec_same_asset)]
    pub fn same_asset(&self) -> (same: bool)
        ensures
            same == self.spec_same_asset(),
    {
        self.stake_asset_id == self.reward_asset_id
    }
}

} // verus!
