pub mod balances;
pub mod bond;
pub mod contract;
pub mod delegates;
pub mod msg;
