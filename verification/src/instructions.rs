//! The operations, each on the records it reads and changes.

pub mod claim_reward;
pub mod compound_reward;
pub mod create_pool;
pub mod initialize;
pub mod stake;
pub mod start_reward;
pub mod stop_reward;
pub mod unstake;
