//! The decision core of an anti-ghosting commit-to-work staking contract.
pub mod acceptance;
pub mod arith;
pub mod contract;
pub mod error;
pub mod issue;
pub mod laws;
