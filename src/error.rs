//! Failures surfaced to callers of the agent client.
use vstd::prelude::*;

use crate::types::ApiErrorBody;

verus! {

/// The closed set of failure kinds. None is retried internally: a caller that
/// wants another try re-invokes the whole operation.
#[derive(Clone, Debug)]
pub enum BankrError {
    /// Network or protocol failure, with the transport's message.
    Transport(String),
    /// Non-success HTTP answer with its error envelope.
    Api {
        /// HTTP status code.
        status: u16,
        /// Parsed error envelope.
        body: ApiErrorBody,
    },
    /// The answer did not have the expected shape.
    Deserialization(String),
    /// Polling used its whole budget while the job stayed non-terminal.
    PollTimeout {
        /// Number of status checks made.
        attempts: u32,
    },
    /// The job reached the Failed status.
    JobFailed {
        /// The job's error text.
        message: String,
    },
    /// The job reached the Cancelled status.
    JobCancelled,
    /// The client could not be constructed.
    Config(String),
}

/// Wraps the message of a transport failure.
pub fn transport_err(message: String) -> (r: BankrError)
    ensures
        r == BankrError::Transport(message),
{
    BankrError::Transport(message)
}

} // verus!
