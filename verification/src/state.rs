//! The persisted records.

pub mod address;
pub mod platform_info;
pub mod pool_config;
pub mod pool_state;
pub mod user_info;

pub use address::Address;
pub use platform_info::PlatformInfo;
pub use pool_config::PoolConfig;
pub use pool_state::PoolState;
pub use user_info::UserInfo;
