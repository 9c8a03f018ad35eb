//! Cancelling a job.

use vstd::prelude::*;
use crate::failure::{send_failed_message, FailureKind, RequestFailure};
use crate::registry::JobRegistry;
use crate::status::HttpStatus;

verus! {

/// Ends a cancellation. `head` is the status of the backend's response, or
/// the reason why none came.
///
/// Where the status reports success, the first handle equal to `job_id`
/// leaves the registry, if there is one, and the answer is `true` whether
/// there was one or not. In every other case the registry stays as it was.
pub fn complete_cancellation(
    registry: &mut JobRegistry,
    job_id: &String,
    head: Result<HttpStatus, String>,
) -> (done: Result<bool, RequestFailure>)
    ensures
        match head {
            Err(reason) => {
                &&& done matches Err(failure)
                &&& failure.reads(FailureKind::Transport, send_failed_message(reason@))
                &&& final(registry)@ == old(registry)@
            },
            Ok(status) => if status.success() {
                &&& done == Ok::<bool, RequestFailure>(true)
                &&& final(registry)@ == old(registry)@.remove_value(job_id@)
            } else {
                &&& done matches Err(failure)
                &&& failure.is_cancel_refusal(status)
                &&& final(registry)@ == old(registry)@
            },
        },
{
    match head {
        Err(reason) => Err(RequestFailure::send_failed(reason.as_str())),
        Ok(status) => if status.is_success() {
            registry.forget(job_id);
            Ok(true)
        } else {
            Err(RequestFailure::cancel_refused(status))
        },
    }
}

} // verus!
