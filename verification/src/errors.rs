//! The failures that a node of the derivation can report.

use vstd::prelude::*;

verus! {

/// `argon2::Error`, carried through unopened.
#[verifier::external_type_specification]
#[verifier::external_body]
pub struct ExArgon2Error(argon2::Error);

/// Why a single node did not deliver its output.
#[derive(Debug, PartialEq, Eq)]
pub enum TaskError {
    /// The worker that ran a blocking step ended without a value.
    JoinError,
    /// The authenticator, or the person holding it, refused.
    FidoError(String),
    /// The KDF rejected its parameters or the length of an input.
    HasherError(argon2::Error),
    /// The authenticator answered with no assertion at all.
    NoAssertionFound,
    /// The authenticator answered with more than one assertion.
    MultipleAssertionFound,
    /// The HMAC secret carries too little entropy to key anything.
    LowEntropy,
    /// The node that should have fed this one delivered nothing.
    SenderDropped,
    /// The node that should have read this one's output is gone.
    ReceiverDropped,
}

/// How a prompt on the terminal failed.
#[derive(Debug, PartialEq, Eq)]
pub enum PromptFailure {
    /// The input is no terminal.
    NotTTY,
    /// The prompt had nothing to offer; the text says what was missing.
    InvalidConfiguration(String),
    /// Reading or writing the terminal failed; the text says how.
    IO(String),
    /// The person backed out of the prompt.
    OperationCanceled,
    /// The person interrupted the program.
    OperationInterrupted,
    /// A check of the input failed; the text says how.
    Custom(String),
}

/// Why a question to the person at the terminal got no answer.
#[derive(Debug, PartialEq, Eq)]
pub enum AskError {
    /// The prompt itself failed.
    InquireError(PromptFailure),
    /// The person interrupted the program.
    Interrupted,
    /// The person backed out of the question.
    Canceled,
}

/// What a failed prompt means for the question: backing out and
/// interrupting are answers of their own, anything else is a failure of
/// the prompt.
pub open spec fn ask_error_of(value: PromptFailure) -> AskError {
    match value {
        PromptFailure::OperationCanceled => AskError::Canceled,
        PromptFailure::OperationInterrupted => AskError::Interrupted,
        other => AskError::InquireError(other),
    }
}

impl AskError {
    /// Sorts a failed prompt into what it means for the question.
    pub fn from(value: PromptFailure) -> (e: AskError)
        ensures
            e == ask_error_of(value),
    {
        match value {
            PromptFailure::NotTTY => AskError::InquireError(PromptFailure::NotTTY),
            PromptFailure::InvalidConfiguration(x) => AskError::InquireError(
                PromptFailure::InvalidConfiguration(x),
            ),
            PromptFailure::IO(x) => AskError::InquireError(PromptFailure::IO(x)),
            PromptFailure::OperationCanceled => AskError::Canceled,
            PromptFailure::OperationInterrupted => AskError::Interrupted,
            PromptFailure::Custom(x) => AskError::InquireError(PromptFailure::Custom(x)),
        }
    }
}

/// A failure as contracts see it: the message of a refusal by its
/// characters, the KDF's refusal without its detail.
pub enum Failure {
    JoinError,
    FidoError(Seq<char>),
    HasherError,
    NoAssertionFound,
    MultipleAssertionFound,
    LowEntropy,
    SenderDropped,
    ReceiverDropped,
}

impl View for TaskError {
    type V = Failure;

    open spec fn view(&self) -> Failure {
        match self {
            TaskError::JoinError => Failure::JoinError,
            TaskError::FidoError(msg) => Failure::FidoError(msg@),
            TaskError::HasherError(_) => Failure::HasherError,
            TaskError::NoAssertionFound => Failure::NoAssertionFound,
            TaskError::MultipleAssertionFound => Failure::MultipleAssertionFound,
            TaskError::LowEntropy => Failure::LowEntropy,
            TaskError::SenderDropped => Failure::SenderDropped,
            TaskError::ReceiverDropped => Failure::ReceiverDropped,
        }
    }
}

} // verus!
