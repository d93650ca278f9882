use vstd::prelude::*;

verus! {

/// The position of one staker in one pool.
#[derive(Clone, Copy, Debug, PartialEq, Eq, Structural)]
pub struct UserInfo {
    /// Balance credited to the staker.
    pub staked_amount: u64,
    /// Reward already accounted for on the current balance.
    pub reward_debt: u64,
    /// Instant of the latest deposit.
    pub last_deposit_time: u64,
}

impl UserInfo {
    /// The record of a staker who has not deposited yet.
    pub open spec fn empty() -> UserInfo {
        UserInfo { staked_amount: 0, reward_debt: 0, last_deposit_time: 0 }
    }

    /// A record with no balance, no debt and no deposit.
    pub fn new() -> (user: UserInfo)
        ensures
            user == UserInfo::empty(),
    {
        UserInfo { staked_amount: 0, reward_debt: 0, last_deposit_time: 0 }
    }
}

} // verus!
