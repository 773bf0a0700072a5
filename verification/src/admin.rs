//! The authority gate and the command processor behind it.

use crate::amount::amount_of;
use crate::error::ContractError;
use crate::messages::AdminExecuteMsg;
use crate::messages::PaymentOption;
use crate::messages::StoreRequest;
use crate::settlement::add_transfer;
use crate::settlement::carries_only;
use crate::settlement::empty_response;
use crate::settlement::transfers_of;
use crate::settlement::FundTransfer;
use crate::settlement::Transfer;
use cosmwasm_std::Response;
use cosmwasm_std::StdError;
use vstd::prelude::*;

verus! {

/// What is to be done for a command of an admitted caller.
#[derive(Debug, PartialEq)]
pub enum AdminAction {
    /// Hand this response to the execution environment: the command is done.
    Respond(Response),
    /// Ask the state store for this one write, then conclude from its answer.
    Write(StoreRequest),
}

/// The outcome of a withdrawal of `amount` of `denom` to `beneficiary`: a
/// response with one transfer, of the amount that the text denotes, and
/// nothing else; or `InvalidAmount` where the text denotes none.
pub open spec fn withdrawn(
    denom: Seq<char>,
    amount: Seq<char>,
    beneficiary: Seq<char>,
    r: Result<Response, ContractError>,
) -> bool {
    match amount_of(amount) {
        Some(value) => r matches Ok(response) && carries_only(
            response,
            seq![Transfer { denom, amount: value as nat, beneficiary }],
        ),
        None => r == Err::<Response, ContractError>(ContractError::InvalidAmount {  }),
    }
}

/// Builds the response that instructs the settlement layer to send `amount`
/// of `denom` to `beneficiary`. Touches no state.
pub fn try_withdraw(denom: String, amount: String, beneficiary: String) -> (r: Result<
    Response,
    ContractError,
>)
    ensures
        withdrawn(denom@, amount@, beneficiary@, r),
{
    match FundTransfer::from_request(denom, amount.as_str(), beneficiary) {
        Ok(transfer) => {
            let ghost said = transfer@;
            let response = add_transfer(empty_response(), transfer);
            assert(transfers_of(response) =~= seq![said]);
            Ok(response)
        },
        Err(e) => Err(e),
    }
}

/// What the authority gate makes of the state store's answer on whether the
/// caller holds administrative authority: the answer itself, or the store's
/// failure as a failure to read the authority state. A failure is never read
/// as a refusal.
pub open spec fn gate_verdict(answer: Result<bool, StdError>) -> Result<bool, ContractError> {
    match answer {
        Ok(admitted) => Ok(admitted),
        Err(e) => Err(ContractError::StateRead(e)),
    }
}

/// The authority gate. `answer` is what the state store said of the caller.
pub fn is_authorized(answer: Result<bool, StdError>) -> (r: Result<bool, ContractError>)
    ensures
        r == gate_verdict(answer),
{
    match answer {
        Ok(admitted) => Ok(admitted),
        Err(e) => Err(ContractError::StateRead(e)),
    }
}

/// Asks the state store to insert the option. The command is done once the
/// store has answered and `conclude_write` has read the answer.
pub fn try_add_subscription_option(subscription_option: PaymentOption) -> (r: AdminAction)
    ensures
        r == AdminAction::Write(StoreRequest::InsertOption(subscription_option)),
{
    AdminAction::Write(StoreRequest::InsertOption(subscription_option))
}

/// Asks the state store to remove the option that equals this one. The
/// command is done once the store has answered and `conclude_write` has read
/// the answer.
pub fn try_remove_subscription_option(subscription_option: PaymentOption) -> (r: AdminAction)
    ensures
        r == AdminAction::Write(StoreRequest::RemoveOption(subscription_option)),
{
    AdminAction::Write(StoreRequest::RemoveOption(subscription_option))
}

/// The outcome of a command, given what the store said of the caller.
///
/// A store that failed to answer fails the command with its own error, and a
/// caller who is not admitted is refused, whatever the command. An admitted
/// withdrawal becomes a response with one transfer, or `InvalidAmount`; an
/// admitted change of the options becomes the one write that makes it.
pub open spec fn dispatched(
    answer: Result<bool, StdError>,
    admin_msg: AdminExecuteMsg,
    r: Result<AdminAction, ContractError>,
) -> bool {
    match gate_verdict(answer) {
        Err(e) => r == Err::<AdminAction, ContractError>(e),
        Ok(false) => r == Err::<AdminAction, ContractError>(ContractError::Unauthorized {  }),
        Ok(true) => match admin_msg {
            AdminExecuteMsg::Withdraw { denom, amount, beneficiary } => match r {
                Ok(AdminAction::Respond(response)) => withdrawn(
                    denom@,
                    amount@,
                    beneficiary@,
                    Ok(response),
                ),
                Ok(AdminAction::Write(_)) => false,
                Err(e) => withdrawn(denom@, amount@, beneficiary@, Err(e)),
            },
            AdminExecuteMsg::AddSubscriptionOption { subscription_option } => r == Ok::<
                AdminAction,
                ContractError,
            >(AdminAction::Write(StoreRequest::InsertOption(subscription_option))),
            AdminExecuteMsg::RemoveSubscriptionOption { subscription_option } => r == Ok::<
                AdminAction,
                ContractError,
            >(AdminAction::Write(StoreRequest::RemoveOption(subscription_option))),
        },
    }
}

/// Processes one administrative command. `answer` is what the state store
/// said when asked, once, whether the caller holds administrative authority.
///
/// Authority is settled before the command is looked at. The result is an
/// error, or the one thing that remains to be done: a response to hand over,
/// or a write to ask of the store.
pub fn dispatch_admin(answer: Result<bool, StdError>, admin_msg: AdminExecuteMsg) -> (r: Result<
    AdminAction,
    ContractError,
>)
    ensures
        dispatched(answer, admin_msg, r),
{
    match is_authorized(answer) {
        Err(e) => {
            return Err(e);
        },
        Ok(false) => {
            return Err(ContractError::Unauthorized {  });
        },
        Ok(true) => {},
    }
    match admin_msg {
        AdminExecuteMsg::Withdraw { denom, amount, beneficiary } => {
            match try_withdraw(denom, amount, beneficiary) {
                Ok(response) => Ok(AdminAction::Respond(response)),
                Err(e) => Err(e),
            }
        },
        AdminExecuteMsg::AddSubscriptionOption { subscription_option } => {
            Ok(try_add_subscription_option(subscription_option))
        },
        AdminExecuteMsg::RemoveSubscriptionOption { subscription_option } => {
            Ok(try_remove_subscription_option(subscription_option))
        },
    }
}

/// The outcome of a write, given the store's answer to the request: an
/// empty response where the store succeeded, and the store's own error where
/// it failed.
pub open spec fn concluded(written: Result<(), StdError>, r: Result<Response, ContractError>) -> bool {
    match written {
        Ok(_) => r matches Ok(response) && carries_only(response, Seq::<Transfer>::empty()),
        Err(e) => r == Err::<Response, ContractError>(ContractError::StorageWrite(e)),
    }
}

/// Concludes a command that asked a write of the state store. `written` is
/// the store's answer to that request. What the store makes of an option that
/// is already there, or of one that is not, is the store's to say: its answer
/// is taken as it is.
pub fn conclude_write(written: Result<(), StdError>) -> (r: Result<Response, ContractError>)
    ensures
        concluded(written, r),
{
    match written {
        Ok(_) => Ok(empty_response()),
        Err(e) => Err(ContractError::StorageWrite(e)),
    }
}

/// The writes that an outcome asks of the state store.
pub open spec fn requested(r: Result<AdminAction, ContractError>) -> Seq<StoreRequest> {
    match r {
        Ok(AdminAction::Write(request)) => seq![request],
        _ => Seq::empty(),
    }
}

/// The transfers that an outcome hands to the settlement layer.
pub open spec fn instructed(r: Result<AdminAction, ContractError>) -> Seq<Transfer> {
    match r {
        Ok(AdminAction::Respond(response)) => transfers_of(response),
        _ => Seq::empty(),
    }
}

/// A caller who is not admitted is refused with `Unauthorized`, whatever the
/// command, and the command has no effect: nothing is asked of the store and
/// no transfer is instructed.
pub proof fn lemma_refused_without_effect(
    admin_msg: AdminExecuteMsg,
    r: Result<AdminAction, ContractError>,
)
    requires
        dispatched(Ok(false), admin_msg, r),
    ensures
        r == Err::<AdminAction, ContractError>(ContractError::Unauthorized {  }),
        requested(r) == Seq::<StoreRequest>::empty(),
        instructed(r) == Seq::<Transfer>::empty(),
{
}

/// Where the authority state cannot be read, every command fails with the
/// store's own error, which is no refusal, and has no effect.
pub proof fn lemma_unreadable_authority_is_no_refusal(
    e: StdError,
    admin_msg: AdminExecuteMsg,
    r: Result<AdminAction, ContractError>,
)
    requires
        dispatched(Err(e), admin_msg, r),
    ensures
        r == Err::<AdminAction, ContractError>(ContractError::StateRead(e)),
        r != Err::<AdminAction, ContractError>(ContractError::Unauthorized {  }),
        requested(r) == Seq::<StoreRequest>::empty(),
        instructed(r) == Seq::<Transfer>::empty(),
{
}

/// A command has at most one effect, and a command that fails has none.
pub proof fn lemma_at_most_one_effect(
    answer: Result<bool, StdError>,
    admin_msg: AdminExecuteMsg,
    r: Result<AdminAction, ContractError>,
)
    requires
        dispatched(answer, admin_msg, r),
    ensures
        requested(r).len() + instructed(r).len() <= 1,
        r is Err ==> requested(r).len() + instructed(r).len() == 0,
{
}

/// An admitted withdrawal asks nothing of the store. Where its amount denotes
/// one, it instructs exactly one transfer, of that amount, in the
/// denomination and to the beneficiary that the command names; where it
/// denotes none, it fails with `InvalidAmount` and instructs nothing.
pub proof fn lemma_withdrawal_effect(
    denom: String,
    amount: String,
    beneficiary: String,
    r: Result<AdminAction, ContractError>,
)
    requires
        dispatched(Ok(true), AdminExecuteMsg::Withdraw { denom, amount, beneficiary }, r),
    ensures
        requested(r) == Seq::<StoreRequest>::empty(),
        amount_of(amount@) matches Some(value) ==> instructed(r) == seq![
            Transfer { denom: denom@, amount: value as nat, beneficiary: beneficiary@ },
        ],
        amount_of(amount@) is None ==> r == Err::<AdminAction, ContractError>(
            ContractError::InvalidAmount {  },
        ) && instructed(r) == Seq::<Transfer>::empty(),
{
}

/// An admitted command to add an option asks the store for exactly one write,
/// the insertion of that option, and instructs no transfer; nor does the
/// response that concludes it once the store has succeeded.
pub proof fn lemma_add_is_one_insert(
    subscription_option: PaymentOption,
    r: Result<AdminAction, ContractError>,
    outcome: Result<Response, ContractError>,
)
    requires
        dispatched(Ok(true), AdminExecuteMsg::AddSubscriptionOption { subscription_option }, r),
        concluded(Ok(()), outcome),
    ensures
        requested(r) == seq![StoreRequest::InsertOption(subscription_option)],
        instructed(r) == Seq::<Transfer>::empty(),
        outcome matches Ok(response) && carries_only(response, Seq::<Transfer>::empty()),
{
}

/// An admitted command to remove an option asks the store for exactly one
/// write, the removal of that option, whether or not the option is there.
/// The command then ends as the store says: well where the store answered
/// well, and with the store's own error where it did not.
pub proof fn lemma_remove_ends_as_the_store_says(
    subscription_option: PaymentOption,
    r: Result<AdminAction, ContractError>,
    written: Result<(), StdError>,
    outcome: Result<Response, ContractError>,
)
    requires
        dispatched(Ok(true), AdminExecuteMsg::RemoveSubscriptionOption { subscription_option }, r),
        concluded(written, outcome),
    ensures
        requested(r) == seq![StoreRequest::RemoveOption(subscription_option)],
        instructed(r) == Seq::<Transfer>::empty(),
        written is Ok <==> outcome is Ok,
        written matches Err(e) ==> outcome == Err::<Response, ContractError>(
            ContractError::StorageWrite(e),
        ),
{
}

/// Adding the same option again is the same command again: each time it is
/// admitted it succeeds here and asks the store for the same single
/// insertion. What a second insertion does to the options is the store's to
/// decide.
pub proof fn lemma_add_again_asks_the_same(
    subscription_option: PaymentOption,
    first: Result<AdminAction, ContractError>,
    second: Result<AdminAction, ContractError>,
)
    requires
        dispatched(
            Ok(true),
            AdminExecuteMsg::AddSubscriptionOption { subscription_option },
            first,
        ),
        dispatched(
            Ok(true),
            AdminExecuteMsg::AddSubscriptionOption { subscription_option },
            second,
        ),
    ensures
        first is Ok,
        second == first,
        requested(second) == seq![StoreRequest::InsertOption(subscription_option)],
{
}

} // verus!
