//! Collecting the factors: what each answer of the person at the terminal
//! leads to. Asking is left to the caller; deciding is done here.

use vstd::prelude::*;
use vstd::string::StringExecFns;
use crate::cli::keyscript::{decimal, decimal_string};
use crate::errors::{AskError, PromptFailure};
use crate::factor::{Factor, FidoItem};

verus! {

/// Number of the last factor that can be asked for.
pub const LAST_NUMBER: u32 = 0xFFFF_FFFE;

/// The kind of a factor, before the factor itself is known.
#[derive(Clone, Copy, Debug, PartialEq, Eq)]
pub enum FactorDiscriminants {
    Password,
    Fido,
}

/// What follows the question for the kind of the next factor.
#[derive(Debug, PartialEq, Eq)]
pub enum AfterKind {
    /// Ask for a factor of this kind.
    Details(FactorDiscriminants),
    /// The list is complete.
    Finish,
    /// Give up with this error.
    Fail(AskError),
}

/// What follows the question for the factor itself.
pub enum AfterDetails {
    /// Add this factor and go on with the next number.
    Add(Factor),
    /// Have the person confirm this device first.
    Confirm(FidoItem),
    /// Ask for the kind again, under the same number; `notice` says whether
    /// to tell first that nothing was there to choose from.
    Retry { notice: bool },
    /// Give up with this error.
    Fail(AskError),
}

/// What follows the question whether the device is the right one.
#[derive(Debug, PartialEq, Eq)]
pub enum AfterConfirm {
    /// Add the device's factor and go on with the next number.
    Add,
    /// Ask for the kind again, under the same number.
    Retry,
    /// Give up with this error.
    Fail(AskError),
}

/// What follows the question for the kind: backing out completes the list,
/// any other failure ends the collection.
pub open spec fn spec_after_kind(answer: Result<FactorDiscriminants, AskError>) -> AfterKind {
    match answer {
        Ok(kind) => AfterKind::Details(kind),
        Err(AskError::Canceled) => AfterKind::Finish,
        Err(e) => AfterKind::Fail(e),
    }
}

/// What follows the question for the factor: a password is added, a device
/// is put up for confirmation, backing out or an empty choice leads back
/// to the question for the kind, any other failure ends the collection.
pub open spec fn spec_after_details(answer: Result<Factor, AskError>) -> AfterDetails {
    match answer {
        Ok(Factor::Password(p)) => AfterDetails::Add(Factor::Password(p)),
        Ok(Factor::Fido(item)) => AfterDetails::Confirm(item),
        Err(AskError::Canceled) => AfterDetails::Retry { notice: false },
        Err(AskError::InquireError(PromptFailure::InvalidConfiguration(_))) => AfterDetails::Retry {
            notice: true,
        },
        Err(e) => AfterDetails::Fail(e),
    }
}

/// What follows the confirmation: yes adds the device, no or backing out
/// leads back to the question for the kind, any other failure ends the
/// collection.
pub open spec fn spec_after_confirm(answer: Result<bool, AskError>) -> AfterConfirm {
    match answer {
        Ok(true) => AfterConfirm::Add,
        Ok(false) => AfterConfirm::Retry,
        Err(AskError::Canceled) => AfterConfirm::Retry,
        Err(e) => AfterConfirm::Fail(e),
    }
}

/// The question for the kind of factor number `n`.
pub open spec fn spec_kind_prompt(n: u32) -> Seq<char> {
    "["@ + decimal(n as nat) + "] Add a factor:"@
}

/// The question that confirms a device, by whether it answered the wink.
pub open spec fn spec_confirm_title(winked: bool) -> Seq<char> {
    if winked {
        "Wink command sent, is this the exact device you selected?"@
    } else {
        "This device is not responding to wink command, continue anyway?"@
    }
}

/// Decides what follows the question for the kind.
pub fn after_kind(answer: Result<FactorDiscriminants, AskError>) -> (next: AfterKind)
    ensures
        next == spec_after_kind(answer),
{
    match answer {
        Ok(kind) => AfterKind::Details(kind),
        Err(AskError::Canceled) => AfterKind::Finish,
        Err(e) => AfterKind::Fail(e),
    }
}

/// Decides what follows the question for the factor.
pub fn after_details(answer: Result<Factor, AskError>) -> (next: AfterDetails)
    ensures
        next == spec_after_details(answer),
{
    match answer {
        Ok(Factor::Password(p)) => AfterDetails::Add(Factor::Password(p)),
        Ok(Factor::Fido(item)) => AfterDetails::Confirm(item),
        Err(AskError::Canceled) => AfterDetails::Retry { notice: false },
        Err(AskError::InquireError(PromptFailure::InvalidConfiguration(_))) => AfterDetails::Retry {
            notice: true,
        },
        Err(e) => AfterDetails::Fail(e),
    }
}

/// Decides what follows the confirmation of a device.
pub fn after_confirm(answer: Result<bool, AskError>) -> (next: AfterConfirm)
    ensures
        next == spec_after_confirm(answer),
{
    match answer {
        Ok(true) => AfterConfirm::Add,
        Ok(false) => AfterConfirm::Retry,
        Err(AskError::Canceled) => AfterConfirm::Retry,
        Err(e) => AfterConfirm::Fail(e),
    }
}

/// The number under which the factor after number `n` is asked for; none
/// once the last number has been used.
pub fn next_number(n: u32) -> (next: Option<u32>)
    ensures
        next == if n < LAST_NUMBER {
            Some((n + 1) as u32)
        } else {
            None
        },
{
    if n < LAST_NUMBER {
        Some(n + 1)
    } else {
        None
    }
}

/// Words the question for the kind of factor number `n`.
pub fn kind_prompt(n: u32) -> (prompt: String)
    ensures
        prompt@ == spec_kind_prompt(n),
{
    let mut prompt = "[".to_owned();
    prompt.append(decimal_string(n).as_str());
    prompt.append("] Add a factor:");
    prompt
}

/// Words the question that confirms a device.
pub fn confirm_title(winked: bool) -> (title: &'static str)
    ensures
        title@ == spec_confirm_title(winked),
{
    if winked {
        "Wink command sent, is this the exact device you selected?"
    } else {
        "This device is not responding to wink command, continue anyway?"
    }
}

} // verus!
