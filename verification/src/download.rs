//! Fetching the result of a job and saving it to a local file.

use vstd::prelude::*;
use crate::failure::{
    body_failed_message, send_failed_message, write_failed_message, FailureKind, RequestFailure,
};
use crate::status::HttpStatus;

verus! {

/// A file to write: every byte of `content` goes to `path`, in place of what
/// the file held.
#[derive(Debug, PartialEq, Eq)]
pub struct FileWrite {
    pub path: String,
    pub content: Vec<u8>,
}

/// Decides, once the head of the response is there, whether the download
/// goes on. `sent` is the status of the response together with the response
/// itself, still unread, or the reason why none came. Only a status that
/// reports success hands the response on for its body to be read; any other
/// is reported with its number in the message, and nothing is written.
pub fn admit_download<R>(sent: Result<(HttpStatus, R), String>) -> (go: Result<
    R,
    RequestFailure,
>)
    ensures
        match sent {
            Err(reason) => go matches Err(failure) && failure.reads(
                FailureKind::Transport,
                send_failed_message(reason@),
            ),
            Ok((status, response)) => if status.success() {
                go == Ok::<R, RequestFailure>(response)
            } else {
                go matches Err(failure) && failure.is_download_refusal(status)
            },
        },
{
    match sent {
        Err(reason) => Err(RequestFailure::send_failed(reason.as_str())),
        Ok((status, response)) => if status.is_success() {
            Ok(response)
        } else {
            Err(RequestFailure::download_refused(status))
        },
    }
}

/// What to write once the body of the response has been read. `body` is the
/// body, or the reason why it did not arrive. The file gets the body as it
/// came, byte for byte.
pub fn file_to_write(save_path: String, body: Result<Vec<u8>, String>) -> (write: Result<
    FileWrite,
    RequestFailure,
>)
    ensures
        match body {
            Ok(bytes) => write matches Ok(w) && w.path@ == save_path@ && w.content@ == bytes@,
            Err(reason) => write matches Err(failure) && failure.reads(
                FailureKind::Transport,
                body_failed_message(reason@),
            ),
        },
{
    match body {
        Ok(bytes) => Ok(FileWrite { path: save_path, content: bytes }),
        Err(reason) => Err(RequestFailure::body_failed(reason.as_str())),
    }
}

/// Ends a download, given how writing the file went: the path that was
/// written to, or the failure to report.
pub fn conclude_download(write: FileWrite, written: Result<(), String>) -> (saved: Result<
    String,
    RequestFailure,
>)
    ensures
        match written {
            Ok(_) => saved == Ok::<String, RequestFailure>(write.path),
            Err(reason) => saved matches Err(failure) && failure.reads(
                FailureKind::LocalIo,
                write_failed_message(reason@),
            ),
        },
{
    match written {
        Ok(_) => Ok(write.path),
        Err(reason) => Err(RequestFailure::write_failed(reason.as_str())),
    }
}

} // verus!
