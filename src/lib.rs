//! A single-commodity ascending-price auction that escrows bidders' funds,
//! takes a commission on every bid, and settles exactly once.
//!
//! The executable operations are proved to follow the pure state machine of
//! `model`; the properties of that state machine are proved in `laws`.

pub mod commission;
pub mod contract;
pub mod error;
pub mod execute;
pub mod laws;
pub mod model;
pub mod msg;
pub mod query;
pub mod state;

pub use contract::{execute, instantiate, query};
pub use error::ContractError;
