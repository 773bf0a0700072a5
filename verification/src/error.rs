//! The ways in which an administrative command fails.

use cosmwasm_std::StdError;
use vstd::prelude::*;

verus! {

/// `StdError` of cosmwasm_std: the error of the state store and of the
/// amount parser. It is carried as it comes and never looked into.
#[verifier::external_type_specification]
#[verifier::external_body]
pub struct ExStdError(cosmwasm_std::StdError);

/// Why a command was not carried out. Whichever it is, the command had no
/// effect of its own.
#[derive(Debug, PartialEq)]
pub enum ContractError {
    /// The authority gate did not admit the caller.
    Unauthorized {},
    /// The authority state could not be read. The store's error is kept as
    /// it came.
    StateRead(StdError),
    /// The withdrawal amount does not denote an amount.
    InvalidAmount {},
    /// The store failed to insert or remove the option. Its error is kept as
    /// it came.
    StorageWrite(StdError),
}

} // verus!
