//! Calls of the Pendulum AMM contract.

pub mod constructors;
pub mod messages;
