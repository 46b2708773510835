pub mod context;
pub mod denom_manager;
pub mod error;
pub mod gateway;
pub mod gov;
pub mod liquidity_manager;
pub mod pause;
pub mod store;
pub mod types;
