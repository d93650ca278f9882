use vstd::prelude::*;
use crate::state::address::Address;

verus! {

/// Platform-wide settings: where fees go and how much is charged.
/// One record per deployment and treasury.
#[derive(Clone, Copy, Debug, PartialEq, Eq, Structural)]
pub struct PlatformInfo {
    /// Receives every fee.
    pub treasury_id: Address,
    /// Flat amount charged for creating a pool.
    pub deploy_fee: u64,
    /// Share of each deposit kept as a fee, in basis points.
    pub stake_fee_bps: u16,
    /// Share of each withdrawal kept as a fee, in basis points.
    pub unstake_fee_bps: u16,
}

} // verus!
