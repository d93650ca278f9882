use vstd::prelude::*;
use crate::state::address::Address;
use crate::state::platform_info::PlatformInfo;

verus! {

/// Sets the platform's record: the treasury and the three fees. Setting it
/// again replaces what was there.
pub fn handler(
    platform: &mut PlatformInfo,
    treasury: Address,
    deploy_fee: u64,
    stake_fee_bps: u16,
    unstake_fee_bps: u16,
)
    ensures
        *final(platform) == (PlatformInfo {
            treasury_id: treasury,
            deploy_fee,
            stake_fee_bps,
            unstake_fee_bps,
        }),
{
    platform.treasury_id = treasury;
    platform.deploy_fee = deploy_fee;
    platform.stake_fee_bps = stake_fee_bps;
    platform.unstake_fee_bps = unstake_fee_bps;
}

} // verus!
