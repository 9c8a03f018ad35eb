//! Submitting a local file or a URL for processing.

use vstd::prelude::*;
use crate::failure::{
    invalid_path_message, parse_failed_message, read_failed_message, send_failed_message,
    FailureKind, RequestFailure,
};
use crate::registry::JobRegistry;
use crate::reply::{settle, Reply, StatusPayload};
use crate::request::{file_submission_request, Backend, Request};
use crate::text::is_piece_of;

verus! {

/// The final component of a path, as `std::path::Path::file_name` gives it:
/// the name of the file or directory that the path ends in, and none where
/// the path ends in no such name. It reads nothing but the path. Which
/// characters separate components is settled when the library is built for
/// a platform, so the value is left unstated.
pub uninterp spec fn final_component(path: Seq<char>) -> Option<Seq<char>>;

/// The final component of `path`, by `std::path::Path::file_name`. Trusted:
/// the result is a function of the characters of `path` alone; and where
/// there is a component, it is a stretch of the path and not empty, as std
/// documents the components of a path: the substrings between its
/// separators, with none for a repeated separator.
#[verifier::external_body]
fn path_file_name(path: &str) -> (name: Option<String>)
    ensures
        match name {
            Some(n) => final_component(path@) == Some(n@),
            None => final_component(path@) is None,
        },
        name matches Some(n) ==> n@.len() > 0 && is_piece_of(n@, path@),
{
    match std::path::Path::new(path).file_name() {
        Some(name) => Some(name.to_string_lossy().into_owned()),
        None => None,
    }
}

/// The name under which a file is uploaded, given the final component of
/// its path: that component, and a failure where the path has none.
pub fn require_file_name(component: Option<String>) -> (name: Result<String, RequestFailure>)
    ensures
        match component {
            Some(n) => name == Ok::<String, RequestFailure>(n),
            None => name matches Err(failure) && failure.reads(
                FailureKind::LocalIo,
                invalid_path_message(),
            ),
        },
{
    match component {
        Some(n) => Ok(n),
        None => Err(RequestFailure::invalid_path()),
    }
}

/// The name under which the file at `path` is uploaded: the final component
/// of the path, which is a stretch of the path and not empty. Where the path
/// has none, the upload fails before the file is touched.
pub fn upload_name(path: &str) -> (name: Result<String, RequestFailure>)
    ensures
        match final_component(path@) {
            Some(n) => {
                &&& name matches Ok(s)
                &&& s@ == n
                &&& n.len() > 0
                &&& is_piece_of(n, path@)
            },
            None => name matches Err(failure) && failure.reads(
                FailureKind::LocalIo,
                invalid_path_message(),
            ),
        },
{
    require_file_name(path_file_name(path))
}

/// The request that uploads a file, given what reading the file gave: its
/// bytes, or the reason why it could not be read. The bytes are sent as they
/// were read, all of them.
pub fn upload_request(
    backend: &Backend,
    file_name: String,
    read: Result<Vec<u8>, String>,
) -> (request: Result<Request, RequestFailure>)
    ensures
        match read {
            Ok(content) => request matches Ok(r) && r@ == file_submission_request(
                backend.base(),
                file_name@,
                content@,
            ),
            Err(reason) => request matches Err(failure) && failure.reads(
                FailureKind::LocalIo,
                read_failed_message(reason@),
            ),
        },
{
    match read {
        Ok(content) => Ok(backend.file_submission(file_name, content)),
        Err(reason) => Err(RequestFailure::read_failed(reason.as_str())),
    }
}

/// Ends a submission. Where the backend's answer was decoded, the job's
/// handle is appended to the registry and returned. In every other case the
/// registry stays as it was.
pub fn complete_submission(
    registry: &mut JobRegistry,
    reply: Reply<StatusPayload>,
) -> (job_id: Result<String, RequestFailure>)
    ensures
        match reply {
            Reply::Decoded(payload) => {
                &&& job_id matches Ok(id)
                &&& id@ == payload.job_id@
                &&& final(registry)@ == old(registry)@.push(payload.job_id@)
            },
            Reply::Unsent { reason } => {
                &&& job_id matches Err(failure)
                &&& failure.reads(FailureKind::Transport, send_failed_message(reason@))
                &&& final(registry)@ == old(registry)@
            },
            Reply::Unreadable { reason } => {
                &&& job_id matches Err(failure)
                &&& failure.reads(FailureKind::Decode, parse_failed_message(reason@))
                &&& final(registry)@ == old(registry)@
            },
        },
{
    match settle(reply) {
        Ok(payload) => {
            registry.record(payload.job_id.clone());
            Ok(payload.job_id)
        },
        Err(failure) => Err(failure),
    }
}

} // verus!
