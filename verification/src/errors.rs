//! The ways an invocation can be rejected.
use vstd::prelude::*;
use vstd::string::StringExecFns;
use crate::encoding::{decimal_text, push_decimal};

verus! {

/// Why an invocation was rejected. A rejected invocation changes nothing.
#[derive(Clone, Copy, Debug, PartialEq, Eq, Structural)]
pub enum ContractError {
    /// The caller may not perform this operation.
    Unauthorized,
    /// The contract is stopped; only the emergency exit and resuming remain.
    Paused,
    /// The message is not one this contract acts on.
    UnknownAction,
    /// Tokens arrived from a contract other than the incentivized token.
    UnsupportedToken,
    /// A withdrawal asked for more than the position holds.
    InsufficientStake { balance: u128, required: u128 },
    /// An amount fell outside the unsigned 128-bit range.
    Overflow,
    /// A quotient was asked for with a zero divisor.
    DivideByZero,
    /// A message for another contract could not be encoded.
    Encoding,
    /// Nothing is stored under the key that was read.
    NotFound,
    /// A vote names a choice the poll does not have.
    UnknownChoice { choice: u8 },
    /// A stored vote names a choice the poll does not have.
    UnknownPreviousChoice { choice: u8 },
    /// The handshake of a new poll did not match the pending challenge.
    ChallengeMismatch,
    /// The tally was asked for before the poll ended (`ended` false) or
    /// after it ended without reaching validity (`ended` true).
    NotFinalizedOrInvalid { ended: bool },
    /// The poll has ended.
    AlreadyEnded,
    /// The poll's end time has not been reached.
    NotYetEnded,
    /// A poll needs at least two choices.
    TooFewChoices,
    /// A poll title needs at least two characters.
    TitleTooShort,
    /// A poll description needs at least ten characters.
    DescriptionTooShort,
    /// An author alias needs at least three characters.
    AliasTooShort,
    /// The stored tally has no entries.
    CorruptTally,
}

/// The text that tells a caller why an invocation was rejected.
pub open spec fn message_text(e: ContractError) -> Seq<char> {
    match e {
        ContractError::Unauthorized => "unauthorized"@,
        ContractError::Paused => "this contract is stopped and this action is not allowed"@,
        ContractError::UnknownAction => "Unavailable or unknown action"@,
        ContractError::UnsupportedToken => "This token is not supported"@,
        ContractError::InsufficientStake { balance, required } => {
            "insufficient funds to redeem: balance="@ + decimal_text(balance as nat)
                + ", required="@ + decimal_text(required as nat)
        },
        ContractError::Overflow => "amount out of range"@,
        ContractError::DivideByZero => "division by zero"@,
        ContractError::Encoding => "message could not be encoded"@,
        ContractError::NotFound => "not found"@,
        ContractError::UnknownChoice { choice } => "choice "@ + decimal_text(choice as nat)
            + " does not exist in this poll"@,
        ContractError::UnknownPreviousChoice { choice } => "previous choice "@ + decimal_text(
            choice as nat,
        ) + " does not exist in this poll"@,
        ContractError::ChallengeMismatch => {
            "challenge did not match. This function can be called only as a callback from a new poll contract"@
        },
        ContractError::NotFinalizedOrInvalid { ended } => if ended {
            "vote hasn't passed quorum"@
        } else {
            "vote hasn't ended yet"@
        },
        ContractError::AlreadyEnded => "vote has ended"@,
        ContractError::NotYetEnded => "vote has not ended yet"@,
        ContractError::TooFewChoices => "you have to provide at least two choices"@,
        ContractError::TitleTooShort => "poll title must be at least 2 characters long"@,
        ContractError::DescriptionTooShort => {
            "poll description must be at least 10 characters long"@
        },
        ContractError::AliasTooShort => "poll author alias must be at least 3 characters long"@,
        ContractError::CorruptTally => "storage is corrupted"@,
    }
}

impl ContractError {
    /// The text that tells a caller why the invocation was rejected.
    pub fn message(&self) -> (text: String)
        ensures
            text@ == message_text(*self),
    {
        match self {
            ContractError::Unauthorized => String::from_str("unauthorized"),
            ContractError::Paused => String::from_str(
                "this contract is stopped and this action is not allowed",
            ),
            ContractError::UnknownAction => String::from_str("Unavailable or unknown action"),
            ContractError::UnsupportedToken => String::from_str("This token is not supported"),
            ContractError::InsufficientStake { balance, required } => {
                let mut text = String::from_str("insufficient funds to redeem: balance=");
                push_decimal(&mut text, *balance);
                text.append(", required=");
                push_decimal(&mut text, *required);
                text
            },
            ContractError::Overflow => String::from_str("amount out of range"),
            ContractError::DivideByZero => String::from_str("division by zero"),
            ContractError::Encoding => String::from_str("message could not be encoded"),
            ContractError::NotFound => String::from_str("not found"),
            ContractError::UnknownChoice { choice } => {
                let mut text = String::from_str("choice ");
                push_decimal(&mut text, *choice as u128);
                text.append(" does not exist in this poll");
                text
            },
            ContractError::UnknownPreviousChoice { choice } => {
                let mut text = String::from_str("previous choice ");
                push_decimal(&mut text, *choice as u128);
                text.append(" does not exist in this poll");
                text
            },
            ContractError::ChallengeMismatch => String::from_str(
                "challenge did not match. This function can be called only as a callback from a new poll contract",
            ),
            ContractError::NotFinalizedOrInvalid { ended } => if *ended {
                String::from_str("vote hasn't passed quorum")
            } else {
                String::from_str("vote hasn't ended yet")
            },
            ContractError::AlreadyEnded => String::from_str("vote has ended"),
            ContractError::NotYetEnded => String::from_str("vote has not ended yet"),
            ContractError::TooFewChoices => String::from_str(
                "you have to provide at least two choices",
            ),
            ContractError::TitleTooShort => String::from_str(
                "poll title must be at least 2 characters long",
            ),
            ContractError::DescriptionTooShort => String::from_str(
                "poll description must be at least 10 characters long",
            ),
            ContractError::AliasTooShort => String::from_str(
                "poll author alias must be at least 3 characters long",
            ),
            ContractError::CorruptTally => String::from_str("storage is corrupted"),
        }
    }
}

} // verus!
