//! What comes back from the backend, as far as the shell looks at it.

use vstd::prelude::*;
use crate::failure::{parse_failed_message, send_failed_message, FailureKind, RequestFailure};

verus! {

/// The state of a job as the backend describes it. The shell passes it on and
/// reads nothing in it but the handle.
#[derive(Debug, PartialEq, Eq)]
pub struct StatusPayload {
    /// The handle of the job.
    pub job_id: String,
    /// The backend's label for the state of the job.
    pub status: String,
    /// The progress of the job, a fraction: the bits of a 32-bit IEEE 754
    /// number.
    pub progress_bits: u32,
    pub message: Option<String>,
    pub result_url: Option<String>,
}

/// How one exchange with the backend ended, where the response carries a
/// document that is decoded to a `T`.
#[derive(Debug, PartialEq, Eq)]
pub enum Reply<T> {
    /// The request could not be sent, or no response came.
    Unsent { reason: String },
    /// A response came, and its body could not be decoded.
    Unreadable { reason: String },
    /// A response came with this document. Its status is not looked at.
    Decoded(T),
}

/// Turns the end of an exchange into the document received or the failure to
/// report. This is the whole of a status query: the document is handed on
/// as it came.
pub fn settle<T>(reply: Reply<T>) -> (outcome: Result<T, RequestFailure>)
    ensures
        match reply {
            Reply::Decoded(document) => outcome == Ok::<T, RequestFailure>(document),
            Reply::Unsent { reason } => outcome matches Err(failure) && failure.reads(
                FailureKind::Transport,
                send_failed_message(reason@),
            ),
            Reply::Unreadable { reason } => outcome matches Err(failure) && failure.reads(
                FailureKind::Decode,
                parse_failed_message(reason@),
            ),
        },
{
    match reply {
        Reply::Decoded(document) => Ok(document),
        Reply::Unsent { reason } => Err(RequestFailure::send_failed(reason.as_str())),
        Reply::Unreadable { reason } => Err(RequestFailure::parse_failed(reason.as_str())),
    }
}

} // verus!
