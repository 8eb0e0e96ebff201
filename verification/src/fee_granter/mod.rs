//! The fee granter contract: grants gas fee allowances to contracts.
pub mod admins;
pub mod types;
pub mod contract;
pub mod laws;
