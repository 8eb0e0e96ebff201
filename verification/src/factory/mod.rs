//! The factory contract: creates pairs, keeps their addresses, and pauses them.
pub mod types;
pub mod checks;
pub mod settings;
pub mod order;
pub mod pairs;
pub mod pausing;
pub mod admin;
pub mod execute;
pub mod laws;
