//! What the shell tells its caller when an operation does not succeed.

use vstd::prelude::*;
use crate::status::{code_digits, status_display, HttpStatus};
use crate::text::{is_piece_of, joined};

verus! {

/// The four ways in which an operation can fail.
#[derive(Clone, Copy, Debug, PartialEq, Eq, Structural)]
pub enum FailureKind {
    /// A local file could not be read or written, or a path names no file.
    LocalIo,
    /// The request could not be sent, or the response did not arrive whole.
    Transport,
    /// What arrived, or what was read, does not have the expected form.
    Decode,
    /// The backend answered with a status that does not report success.
    Remote,
}

/// The failure of one operation. Each carries the text that is shown for it.
#[derive(Debug, PartialEq, Eq)]
pub enum RequestFailure {
    LocalIo { message: String },
    Transport { message: String },
    Decode { message: String },
    Remote { status: HttpStatus, message: String },
}

/// What is shown for a path that names no file.
pub open spec fn invalid_path_message() -> Seq<char> {
    "Invalid file path"@
}

/// What is shown for a local file that could not be read, for the reason
/// `detail`.
pub open spec fn read_failed_message(detail: Seq<char>) -> Seq<char> {
    "Failed to read file: "@ + detail
}

/// What is shown for a local file that could not be written, for the reason
/// `detail`.
pub open spec fn write_failed_message(detail: Seq<char>) -> Seq<char> {
    "Failed to write file: "@ + detail
}

/// What is shown for a request that could not be sent, for the reason
/// `detail`.
pub open spec fn send_failed_message(detail: Seq<char>) -> Seq<char> {
    "Failed to send request: "@ + detail
}

/// What is shown for a response whose body did not arrive, for the reason
/// `detail`.
pub open spec fn body_failed_message(detail: Seq<char>) -> Seq<char> {
    "Failed to read response: "@ + detail
}

/// What is shown for a response body that is not of the expected form, for
/// the reason `detail`.
pub open spec fn parse_failed_message(detail: Seq<char>) -> Seq<char> {
    "Failed to parse response: "@ + detail
}

/// What is shown for a local file that does not hold text.
pub open spec fn invalid_text_message() -> Seq<char> {
    read_failed_message("stream did not contain valid UTF-8"@)
}

/// What is shown for a download that the backend refused with a status that
/// reads `shown`.
pub open spec fn download_refused_message(shown: Seq<char>) -> Seq<char> {
    "Failed to download result: "@ + shown
}

/// What is shown for a cancellation that the backend refused with a status
/// that reads `shown`.
pub open spec fn cancel_refused_message(shown: Seq<char>) -> Seq<char> {
    "Failed to cancel job: "@ + shown
}

/// `text` names the status numbered `code`: the three digits of the number
/// stand in it.
pub open spec fn names_code(text: Seq<char>, code: u16) -> bool {
    is_piece_of(code_digits(code), text)
}

impl RequestFailure {
    /// The kind of the failure.
    pub open spec fn spec_kind(&self) -> FailureKind {
        match self {
            RequestFailure::LocalIo { .. } => FailureKind::LocalIo,
            RequestFailure::Transport { .. } => FailureKind::Transport,
            RequestFailure::Decode { .. } => FailureKind::Decode,
            RequestFailure::Remote { .. } => FailureKind::Remote,
        }
    }

    /// The text that is shown for the failure.
    pub open spec fn text(&self) -> Seq<char> {
        match self {
            RequestFailure::LocalIo { message } => message@,
            RequestFailure::Transport { message } => message@,
            RequestFailure::Decode { message } => message@,
            RequestFailure::Remote { message, .. } => message@,
        }
    }

    /// The status that the backend answered with, for a failure of kind
    /// `Remote`.
    pub open spec fn spec_status(&self) -> Option<HttpStatus> {
        match self {
            RequestFailure::Remote { status, .. } => Some(*status),
            _ => None,
        }
    }

    /// The failure is of kind `kind` and reads `text`.
    pub open spec fn reads(&self, kind: FailureKind, text: Seq<char>) -> bool {
        self.spec_kind() == kind && self.text() == text
    }

    /// The failure is the refusal of a download with `status`: it is of kind
    /// `Remote`, carries the status, and reads as a refused download does,
    /// with the number of the status in it.
    pub open spec fn is_download_refusal(&self, status: HttpStatus) -> bool {
        &&& self.reads(
            FailureKind::Remote,
            download_refused_message(status_display(status.number())),
        )
        &&& self.spec_status() == Some(status)
        &&& names_code(self.text(), status.number())
    }

    /// The failure is the refusal of a cancellation with `status`: it is of
    /// kind `Remote`, carries the status, and reads as a refused cancellation
    /// does, with the number of the status in it.
    pub open spec fn is_cancel_refusal(&self, status: HttpStatus) -> bool {
        &&& self.reads(
            FailureKind::Remote,
            cancel_refused_message(status_display(status.number())),
        )
        &&& self.spec_status() == Some(status)
        &&& names_code(self.text(), status.number())
    }

    /// The kind of the failure.
    #[verifier::when_used_as_spec(spec_kind)]
    pub fn kind(&self) -> (kind: FailureKind)
        ensures
            kind == self.spec_kind(),
    {
        match self {
            RequestFailure::LocalIo { .. } => FailureKind::LocalIo,
            RequestFailure::Transport { .. } => FailureKind::Transport,
            RequestFailure::Decode { .. } => FailureKind::Decode,
            RequestFailure::Remote { .. } => FailureKind::Remote,
        }
    }

    /// The text that is shown for the failure.
    pub fn message(&self) -> (message: String)
        ensures
            message@ == self.text(),
    {
        match self {
            RequestFailure::LocalIo { message } => message.clone(),
            RequestFailure::Transport { message } => message.clone(),
            RequestFailure::Decode { message } => message.clone(),
            RequestFailure::Remote { message, .. } => message.clone(),
        }
    }

    /// The status that the backend answered with, for a failure of kind
    /// `Remote`.
    #[verifier::when_used_as_spec(spec_status)]
    pub fn status(&self) -> (status: Option<HttpStatus>)
        ensures
            status == self.spec_status(),
    {
        match self {
            RequestFailure::Remote { status, .. } => Some(*status),
            _ => None,
        }
    }

    /// A path that names no file.
    pub fn invalid_path() -> (failure: RequestFailure)
        ensures
            failure.reads(FailureKind::LocalIo, invalid_path_message()),
    {
        RequestFailure::LocalIo { message: String::from_str("Invalid file path") }
    }

    /// A local file that could not be read, for the reason in `detail`.
    pub fn read_failed(detail: &str) -> (failure: RequestFailure)
        ensures
            failure.reads(FailureKind::LocalIo, read_failed_message(detail@)),
    {
        RequestFailure::LocalIo { message: joined("Failed to read file: ", detail) }
    }

    /// A local file that could not be written, for the reason in `detail`.
    pub fn write_failed(detail: &str) -> (failure: RequestFailure)
        ensures
            failure.reads(FailureKind::LocalIo, write_failed_message(detail@)),
    {
        RequestFailure::LocalIo { message: joined("Failed to write file: ", detail) }
    }

    /// A request that could not be sent, for the reason in `detail`.
    pub fn send_failed(detail: &str) -> (failure: RequestFailure)
        ensures
            failure.reads(FailureKind::Transport, send_failed_message(detail@)),
    {
        RequestFailure::Transport { message: joined("Failed to send request: ", detail) }
    }

    /// A response whose body did not arrive, for the reason in `detail`.
    pub fn body_failed(detail: &str) -> (failure: RequestFailure)
        ensures
            failure.reads(FailureKind::Transport, body_failed_message(detail@)),
    {
        RequestFailure::Transport { message: joined("Failed to read response: ", detail) }
    }

    /// A response body that is not of the expected form, for the reason in
    /// `detail`.
    pub fn parse_failed(detail: &str) -> (failure: RequestFailure)
        ensures
            failure.reads(FailureKind::Decode, parse_failed_message(detail@)),
    {
        RequestFailure::Decode { message: joined("Failed to parse response: ", detail) }
    }

    /// A local file that does not hold text.
    pub fn invalid_text() -> (failure: RequestFailure)
        ensures
            failure.reads(FailureKind::Decode, invalid_text_message()),
    {
        RequestFailure::Decode {
            message: joined("Failed to read file: ", "stream did not contain valid UTF-8"),
        }
    }

    /// A download that the backend refused with `status`, which reads
    /// `shown`.
    pub fn download_refused_as(status: HttpStatus, shown: &str) -> (failure: RequestFailure)
        ensures
            failure.reads(FailureKind::Remote, download_refused_message(shown@)),
            failure.spec_status() == Some(status),
    {
        RequestFailure::Remote { status, message: joined("Failed to download result: ", shown) }
    }

    /// A download that the backend refused with `status`.
    pub fn download_refused(status: HttpStatus) -> (failure: RequestFailure)
        ensures
            failure.is_download_refusal(status),
    {
        let shown = status.text();
        let failure = RequestFailure::download_refused_as(status, shown.as_str());
        proof {
            let at = "Failed to download result: "@.len() as int;
            assert(failure.text().subrange(at, at + 3) =~= shown@.subrange(0, 3));
        }
        failure
    }

    /// A cancellation that the backend refused with `status`, which reads
    /// `shown`.
    pub fn cancel_refused_as(status: HttpStatus, shown: &str) -> (failure: RequestFailure)
        ensures
            failure.reads(FailureKind::Remote, cancel_refused_message(shown@)),
            failure.spec_status() == Some(status),
    {
        RequestFailure::Remote { status, message: joined("Failed to cancel job: ", shown) }
    }

    /// A cancellation that the backend refused with `status`.
    pub fn cancel_refused(status: HttpStatus) -> (failure: RequestFailure)
        ensures
            failure.is_cancel_refusal(status),
    {
        let shown = status.text();
        let failure = RequestFailure::cancel_refused_as(status, shown.as_str());
        proof {
            let at = "Failed to cancel job: "@.len() as int;
            assert(failure.text().subrange(at, at + 3) =~= shown@.subrange(0, 3));
        }
        failure
    }
}

} // verus!
