pub mod address;
pub mod laws;
pub mod layout;
pub mod registry;
pub mod token;
pub mod tokenforge;

pub use address::Address;
pub use registry::{DistributeRevenue, EnableTrading, LaunchToken, Registry};
pub use token::{ErrorCode, TokenData};
pub use tokenforge::{distribute_revenue, enable_trading, launch_token};
