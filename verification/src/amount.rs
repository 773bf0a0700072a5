//! Withdrawal amounts as they arrive: decimal text in the smallest unit of a
//! denomination.

use cosmwasm_std::StdError;
use cosmwasm_std::Uint128;
use std::str::FromStr;
use vstd::prelude::*;

verus! {

/// An ASCII decimal digit.
pub open spec fn is_digit(c: char) -> bool {
    '0' <= c && c <= '9'
}

/// The number that a decimal digit stands for.
pub open spec fn digit_value(c: char) -> nat {
    (c as int - '0' as int) as nat
}

/// The number that a run of decimal digits stands for, most significant
/// digit first. The empty run stands for zero.
pub open spec fn digits_value(digits: Seq<char>) -> nat
    decreases digits.len(),
{
    if digits.len() == 0 {
        0
    } else {
        10 * digits_value(digits.drop_last()) + digit_value(digits.last())
    }
}

/// A non-empty run of decimal digits and nothing else.
pub open spec fn is_digits(digits: Seq<char>) -> bool {
    &&& digits.len() > 0
    &&& forall|i: int| 0 <= i < digits.len() ==> is_digit(#[trigger] digits[i])
}

/// The text without the one plus sign that may lead it.
pub open spec fn unsigned_part(text: Seq<char>) -> Seq<char> {
    if text.len() > 0 && text[0] == '+' {
        text.drop_first()
    } else {
        text
    }
}

/// The amount that a text denotes, if it denotes one: an optional plus sign,
/// then one or more decimal digits whose value fits in 128 bits.
pub open spec fn amount_of(text: Seq<char>) -> Option<u128> {
    let digits = unsigned_part(text);
    if is_digits(digits) && digits_value(digits) <= u128::MAX {
        Some(digits_value(digits) as u128)
    } else {
        None
    }
}

/// The text holds, at `at`, something that is neither a decimal digit nor a
/// plus sign in the first place.
pub open spec fn stray_at(text: Seq<char>, at: int) -> bool {
    &&& 0 <= at < text.len()
    &&& !is_digit(text[at])
    &&& (at > 0 || text[0] != '+')
}

/// What fails a withdrawal is never taken for an amount: the empty text, a
/// lone plus sign, a minus sign in front, anything but decimal digits behind
/// the place of the sign, and digits whose value does not fit in 128 bits.
pub proof fn lemma_malformed_has_no_amount(text: Seq<char>, at: int)
    requires
        text.len() == 0 || text == seq!['+'] || text[0] == '-' || stray_at(text, at)
            || digits_value(unsigned_part(text)) > u128::MAX,
    ensures
        amount_of(text) is None,
{
    let digits = unsigned_part(text);
    if text.len() == 0 || text == seq!['+'] {
        assert(digits.len() == 0);
    } else if text[0] == '-' {
        assert(digits[0] == '-');
    } else if stray_at(text, at) {
        if text[0] == '+' {
            assert(digits[at - 1] == text[at]);
        } else {
            assert(digits[at] == text[at]);
        }
    }
}

/// Calls `Uint128::from_str` of cosmwasm_std, which hands the text to the
/// standard parser for `u128`. Trusted: the call succeeds exactly on the texts
/// that denote an amount, and then returns that amount.
#[verifier::external_body]
pub(crate) fn parse_uint128(text: &str) -> (r: Result<u128, StdError>)
    ensures
        r is Ok <==> amount_of(text@) is Some,
        r matches Ok(value) ==> amount_of(text@) == Some(value),
{
    match Uint128::from_str(text) {
        Ok(value) => Ok(value.u128()),
        Err(e) => Err(e),
    }
}

} // verus!
