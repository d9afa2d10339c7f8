//! Interfaces the validator offers to its callers.

pub mod validator_interface;
