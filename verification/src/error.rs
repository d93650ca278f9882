use vstd::prelude::*;

verus! {

/// Why an operation was refused.
///
/// A refused operation changes none of the records it was handed.
#[derive(Clone, Copy, Debug, PartialEq, Eq, Structural)]
pub enum StakingError {
    /// A deposit arrived outside the pool's `[start_time, end_time)` window,
    /// or a stop was asked of a pool that is not running.
    PoolNotActive,
    /// A start was asked of a pool whose start time is already set.
    PoolNotStarted,
    /// Paying the pending reward would take `total_paid` past the funded amount.
    InsufficientReward,
    /// A withdrawal asks for more than the staker's balance.
    InsufficientStake,
    /// The caller is neither the owner of the ledger nor the pool's admin.
    Unauthorized,
    /// A reward, a quotient, a sum or a difference does not fit in 64
    /// unsigned bits.
    ArithmeticOverflow,
    /// The exchange reported a failure, returned less than the minimum
    /// asked, or is not the one that the pool ordered.
    TransferFailed,
    /// The parameters of a new pool are malformed, or the pool exists already.
    InvalidConfiguration,
}

} // verus!
