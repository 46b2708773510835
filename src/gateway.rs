pub mod contract;
pub mod crypto;
pub mod json;
pub mod msg;
