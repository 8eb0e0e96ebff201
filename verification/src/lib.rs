//! Oroswap contracts: the factory that registers and pauses pairs, the fee
//! granter, and the pool initializer, with their rules stated and proved.
pub mod bytes;
pub mod text;
pub mod error;
pub mod asset;
pub mod ordered;
pub mod keys;
pub mod response;
pub mod outside;
pub mod ownership;
pub mod factory;
pub mod fee_granter;
pub mod pool_initializer;
