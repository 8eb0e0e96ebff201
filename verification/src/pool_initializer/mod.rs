//! The pool initializer contract: creates a pair through the factory and
//! provides its first liquidity in one operation.
pub mod types;
pub mod contract;
pub mod laws;
