//! The decision core of a desktop shell that forwards media-processing jobs
//! to a backend service over HTTP.
//!
//! The shell itself owns the sockets and the files. This library owns every
//! choice around them: which request an operation sends, what a reply means,
//! which failure the caller is told about, and how the list of jobs started
//! in this session changes. The shell performs one piece of I/O, hands its
//! outcome to the next function here, and does what that function returns.
//!
//! The operations, each with its steps in order:
//!
//! - Submitting a file: [`submit::upload_name`]; read the file;
//!   [`submit::upload_request`]; send and decode;
//!   [`submit::complete_submission`].
//! - Submitting a URL: [`request::Backend::url_submission`]; send and decode;
//!   [`submit::complete_submission`].
//! - Asking for the state of a job: [`request::Backend::status_query`]; send
//!   and decode; [`reply::settle`].
//! - Downloading a result: [`request::Backend::download_query`]; send;
//!   [`download::admit_download`]; read the body;
//!   [`download::file_to_write`]; write the file;
//!   [`download::conclude_download`].
//! - Reading a local file as text: read the file; [`local::local_text`].
//! - Cancelling a job: [`request::Backend::cancellation`]; send;
//!   [`cancel::complete_cancellation`].
//!
//! A failed step ends its operation: nothing is tried again and nothing is
//! undone.

pub mod cancel;
pub mod download;
pub mod failure;
pub mod local;
pub mod registry;
pub mod reply;
pub mod request;
pub mod status;
pub mod submit;
pub mod text;
