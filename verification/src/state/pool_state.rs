use vstd::prelude::*;

verus! {

/// The running totals of one pool.
#[derive(Clone, Copy, Debug, PartialEq, Eq, Structural)]
pub struct PoolState {
    /// Reward the pool was funded with.
    pub funded_reward_amount: u64,
    /// Sum of the balances of all stakers.
    pub total_staked: u64,
    /// Instant up to which reward has been accrued.
    pub last_accrual_time: u64,
    /// Reward accrued per staked unit since the pool began, scaled by the
    /// pool's precision factor.
    pub acc_reward_per_share: u64,
    /// Reward settled so far.
    pub total_paid: u64,
    /// Reward still to be handed out: lowered by every settlement, never
    /// below zero.
    pub total_earned: u64,
}

impl PoolState {
    /// No more has been paid than was funded.
    pub open spec fn conserves(&self) -> bool {
        self.total_paid <= self.funded_reward_amount
    }
}

} // verus!
