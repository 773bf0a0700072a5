//! Administrator-gated command processing for a subscription service.
//!
//! A command is admitted only on the authority gate's answer. An admitted
//! command either builds the response that moves funds, or names the single
//! write that the state store is asked to perform.

pub mod amount;
pub mod settlement;
pub mod messages;
pub mod error;
pub mod admin;
