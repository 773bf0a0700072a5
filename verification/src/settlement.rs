//! Fund transfer instructions and the responses that carry them to the
//! settlement layer.

use crate::amount::amount_of;
use crate::amount::parse_uint128;
use crate::error::ContractError;
use cosmwasm_std::BankMsg;
use cosmwasm_std::Coin;
use cosmwasm_std::CosmosMsg;
use cosmwasm_std::Response;
use cosmwasm_std::Uint128;
use vstd::prelude::*;

verus! {

/// `Empty` of cosmwasm_std: the custom message of a response that has none.
#[verifier::external_type_specification]
#[verifier::external_body]
pub struct ExEmpty(cosmwasm_std::Empty);

/// `Response` of cosmwasm_std: what a command hands back to the execution
/// environment. Nothing inside it is seen here; `transfers_of` and
/// `extras_of` stand for what it holds.
#[verifier::external_type_specification]
#[verifier::external_body]
#[verifier::reject_recursive_types(T)]
pub struct ExResponse<T>(cosmwasm_std::Response<T>);

/// An instruction to send `amount` of `denom` to `beneficiary`. Nothing in it
/// is checked here: an empty denomination, a zero amount and any beneficiary
/// are passed on as they are.
#[derive(Clone, Debug, PartialEq, Eq)]
pub struct FundTransfer {
    pub denom: String,
    pub amount: u128,
    pub beneficiary: String,
}

/// What a fund transfer instruction says.
pub struct Transfer {
    pub denom: Seq<char>,
    pub amount: nat,
    pub beneficiary: Seq<char>,
}

impl View for FundTransfer {
    type V = Transfer;

    open spec fn view(&self) -> Transfer {
        Transfer { denom: self.denom@, amount: self.amount as nat, beneficiary: self.beneficiary@ }
    }
}

impl FundTransfer {
    /// The instruction that a withdrawal request asks for, if its amount
    /// denotes one.
    pub open spec fn requested_by(
        denom: String,
        amount: Seq<char>,
        beneficiary: String,
    ) -> Result<FundTransfer, ContractError> {
        match amount_of(amount) {
            Some(value) => Ok(FundTransfer { denom, amount: value, beneficiary }),
            None => Err(ContractError::InvalidAmount {  }),
        }
    }

    /// Turns a withdrawal request into the instruction that it asks for.
    /// `amount` is decimal text, in the smallest unit of the denomination. A
    /// text that denotes no amount fails the request with `InvalidAmount`;
    /// nothing else is looked at.
    pub fn from_request(denom: String, amount: &str, beneficiary: String) -> (r: Result<
        FundTransfer,
        ContractError,
    >)
        ensures
            r == Self::requested_by(denom, amount@, beneficiary),
    {
        match parse_uint128(amount) {
            Ok(value) => Ok(FundTransfer { denom, amount: value, beneficiary }),
            Err(_) => Err(ContractError::InvalidAmount {  }),
        }
    }
}

/// The transfers that a response instructs, in the order in which they will
/// be executed. It speaks of the responses that are built here: their
/// messages are bank messages that send one coin each and are never replied
/// to.
pub uninterp spec fn transfers_of(response: Response) -> Seq<Transfer>;

/// How many attributes, events and data payloads a response holds besides
/// its messages.
pub uninterp spec fn extras_of(response: Response) -> nat;

/// The response instructs these transfers, in this order, and holds nothing
/// else.
pub open spec fn carries_only(response: Response, transfers: Seq<Transfer>) -> bool {
    &&& transfers_of(response) == transfers
    &&& extras_of(response) == 0
}

/// Calls `Response::new` of cosmwasm_std. Trusted: the new response holds no
/// message, so it instructs no transfer, and nothing else either.
#[verifier::external_body]
pub(crate) fn empty_response() -> (r: Response)
    ensures
        transfers_of(r) == Seq::<Transfer>::empty(),
        extras_of(r) == 0,
{
    Response::new()
}

/// Calls `Response::add_message` of cosmwasm_std with a bank message that
/// sends one coin. Trusted: the message is appended behind those that the
/// response held, as a message that is never replied to, and says what the
/// instruction says; whatever else the response held stays as it was.
#[verifier::external_body]
pub(crate) fn add_transfer(response: Response, transfer: FundTransfer) -> (r: Response)
    ensures
        transfers_of(r) == transfers_of(response).push(transfer@),
        extras_of(r) == extras_of(response),
{
    let coin = Coin { denom: transfer.denom, amount: Uint128::new(transfer.amount) };
    let bank_msg = BankMsg::Send { to_address: transfer.beneficiary, amount: vec![coin] };
    response.add_message(CosmosMsg::Bank(bank_msg))
}

} // verus!
