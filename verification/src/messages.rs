//! The administrative commands, already typed, and what they speak of.

use vstd::prelude::*;

verus! {

/// One acceptable way to pay for a subscription. Every field is always
/// present, and two options are the same option when all their fields agree.
#[derive(Clone, Debug, PartialEq, Eq)]
pub struct PaymentOption {
    /// The denomination in which the price is paid.
    pub denom: String,
    /// The price, in the smallest unit of the denomination.
    pub price: u128,
    /// The length of the subscription period that the price buys, in seconds.
    pub period_seconds: u64,
}

/// A command that only the administrator may issue.
#[derive(Clone, Debug, PartialEq, Eq)]
pub enum AdminExecuteMsg {
    /// Send `amount` of `denom` to `beneficiary`. The amount is decimal text.
    Withdraw { denom: String, amount: String, beneficiary: String },
    /// Make the option one of the valid ones.
    AddSubscriptionOption { subscription_option: PaymentOption },
    /// Take the option that equals this one out of the valid ones.
    RemoveSubscriptionOption { subscription_option: PaymentOption },
}

/// The one write that a command may ask of the state store.
#[derive(Clone, Debug, PartialEq, Eq)]
pub enum StoreRequest {
    InsertOption(PaymentOption),
    RemoveOption(PaymentOption),
}

} // verus!
