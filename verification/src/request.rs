//! The requests that the shell sends to the backend.

use vstd::prelude::*;

verus! {

/// The JSON text that `serde_json` writes for a string with the characters
/// `text`: the characters between double quotes, escaped where JSON asks for
/// it.
pub uninterp spec fn json_string_text(text: Seq<char>) -> Seq<char>;

/// Whether `c` stands for itself inside a JSON string as `serde_json` writes
/// it: every character but the double quote, the backslash and the control
/// characters below U+0020.
pub open spec fn stands_for_itself(c: char) -> bool {
    c != '"' && c != '\\' && c as u32 >= 0x20
}

/// Whether every character of `text` stands for itself inside a JSON string.
pub open spec fn needs_no_escape(text: Seq<char>) -> bool {
    forall|i: int| 0 <= i < text.len() ==> stands_for_itself(#[trigger] text[i])
}

/// `text` between two double quotes.
pub open spec fn quoted(text: Seq<char>) -> Seq<char> {
    seq!['"'] + text + seq!['"']
}

/// Writes `text` as a JSON string, by the `Display` impl of
/// `serde_json::Value` on `Value::String`. Trusted: the result is a function
/// of the characters of `text` alone; and where no character of `text` is a
/// double quote, a backslash or a control character below U+0020, which are
/// the only ones that `serde_json` escapes, it is `text` between two double
/// quotes. How the others are escaped is left unstated.
#[verifier::external_body]
fn json_string(text: &str) -> (encoded: String)
    ensures
        encoded@ == json_string_text(text@),
        needs_no_escape(text@) ==> encoded@ == quoted(text@),
{
    serde_json::Value::String(text.to_owned()).to_string()
}

/// The method of a request.
#[derive(Clone, Copy, Debug, PartialEq, Eq, Structural)]
pub enum Method {
    Get,
    Post,
    Delete,
}

/// What a request carries.
#[derive(Debug, PartialEq, Eq)]
pub enum Payload {
    /// Nothing.
    Empty,
    /// A JSON document, given as its text.
    Json { text: String },
    /// A multipart form with one part, named `field`, that holds a file.
    FileForm { field: String, file_name: String, content: Vec<u8> },
}

/// One request to the backend.
#[derive(Debug, PartialEq, Eq)]
pub struct Request {
    pub method: Method,
    pub url: String,
    pub payload: Payload,
}

/// A payload as a mathematical value.
pub ghost enum PayloadView {
    Empty,
    Json { text: Seq<char> },
    FileForm { field: Seq<char>, file_name: Seq<char>, content: Seq<u8> },
}

/// A request as a mathematical value.
pub ghost struct RequestView {
    pub method: Method,
    pub url: Seq<char>,
    pub payload: PayloadView,
}

impl View for Payload {
    type V = PayloadView;

    open spec fn view(&self) -> PayloadView {
        match self {
            Payload::Empty => PayloadView::Empty,
            Payload::Json { text } => PayloadView::Json { text: text@ },
            Payload::FileForm { field, file_name, content } => PayloadView::FileForm {
                field: field@,
                file_name: file_name@,
                content: content@,
            },
        }
    }
}

impl View for Request {
    type V = RequestView;

    open spec fn view(&self) -> RequestView {
        RequestView { method: self.method, url: self.url@, payload: self.payload@ }
    }
}

/// The address at which the backend listens unless another is given.
pub open spec fn local_base() -> Seq<char> {
    "http://localhost:8000"@
}

/// The body that asks the backend to process what `encoded_url`, a JSON
/// string, points to.
pub open spec fn url_submission_body(encoded_url: Seq<char>) -> Seq<char> {
    "{\"url\":"@ + encoded_url + ",\"options\":{}}"@
}

/// The request that uploads a file for processing.
pub open spec fn file_submission_request(
    base: Seq<char>,
    file_name: Seq<char>,
    content: Seq<u8>,
) -> RequestView {
    RequestView {
        method: Method::Post,
        url: base + "/process/file"@,
        payload: PayloadView::FileForm { field: "file"@, file_name, content },
    }
}

/// The request that submits a URL for processing.
pub open spec fn url_submission_request(base: Seq<char>, url: Seq<char>) -> RequestView {
    RequestView {
        method: Method::Post,
        url: base + "/process/url"@,
        payload: PayloadView::Json { text: url_submission_body(json_string_text(url)) },
    }
}

/// The request that asks for the state of a job.
pub open spec fn status_request(base: Seq<char>, job_id: Seq<char>) -> RequestView {
    RequestView {
        method: Method::Get,
        url: base + "/status/"@ + job_id,
        payload: PayloadView::Empty,
    }
}

/// The request that fetches the result of a job in one format.
pub open spec fn download_request(
    base: Seq<char>,
    job_id: Seq<char>,
    format: Seq<char>,
) -> RequestView {
    RequestView {
        method: Method::Get,
        url: base + "/download/"@ + job_id + "/"@ + format,
        payload: PayloadView::Empty,
    }
}

/// The request that cancels a job.
pub open spec fn cancel_request(base: Seq<char>, job_id: Seq<char>) -> RequestView {
    RequestView {
        method: Method::Delete,
        url: base + "/job/"@ + job_id,
        payload: PayloadView::Empty,
    }
}

/// Puts a URL that is already written as a JSON string into the body of a
/// submission.
pub fn frame_url_submission(encoded_url: &str) -> (body: String)
    ensures
        body@ == url_submission_body(encoded_url@),
{
    let mut body = String::from_str("{\"url\":");
    body.append(encoded_url);
    body.append(",\"options\":{}}");
    body
}

/// Where the backend listens.
#[derive(Debug, PartialEq, Eq)]
pub struct Backend {
    base: String,
}

impl Backend {
    /// The address of the backend, as it was given.
    pub closed spec fn base(&self) -> Seq<char> {
        self.base@
    }

    /// The backend on this machine, at `http://localhost:8000`.
    pub fn local() -> (backend: Backend)
        ensures
            backend.base() == local_base(),
    {
        Backend { base: String::from_str("http://localhost:8000") }
    }

    /// The backend at `base`. The paths of the requests are appended to
    /// `base` as it is given, each with a slash at its start.
    pub fn at(base: String) -> (backend: Backend)
        ensures
            backend.base() == base@,
    {
        Backend { base }
    }

    /// The address of the backend followed by `path`.
    fn url(&self, path: &str) -> (url: String)
        ensures
            url@ == self.base() + path@,
    {
        let mut url = self.base.clone();
        url.append(path);
        url
    }

    /// The request that uploads `content` under the name `file_name`.
    pub fn file_submission(&self, file_name: String, content: Vec<u8>) -> (request: Request)
        ensures
            request@ == file_submission_request(self.base(), file_name@, content@),
    {
        Request {
            method: Method::Post,
            url: self.url("/process/file"),
            payload: Payload::FileForm { field: String::from_str("file"), file_name, content },
        }
    }

    /// The request that submits `url`. The URL is not checked: it is sent
    /// as it is given, written as a JSON string. Where none of its characters
    /// needs an escape, that string is the URL between two double quotes.
    pub fn url_submission(&self, url: &str) -> (request: Request)
        ensures
            request@ == url_submission_request(self.base(), url@),
            needs_no_escape(url@) ==> request@.payload == (PayloadView::Json {
                text: url_submission_body(quoted(url@)),
            }),
    {
        let encoded = json_string(url);
        Request {
            method: Method::Post,
            url: self.url("/process/url"),
            payload: Payload::Json { text: frame_url_submission(encoded.as_str()) },
        }
    }

    /// The request that asks for the state of the job `job_id`.
    pub fn status_query(&self, job_id: &str) -> (request: Request)
        ensures
            request@ == status_request(self.base(), job_id@),
    {
        let mut url = self.url("/status/");
        url.append(job_id);
        Request { method: Method::Get, url, payload: Payload::Empty }
    }

    /// The request that fetches the result of the job `job_id` as `format`.
    pub fn download_query(&self, job_id: &str, format: &str) -> (request: Request)
        ensures
            request@ == download_request(self.base(), job_id@, format@),
    {
        let mut url = self.url("/download/");
        url.append(job_id);
        url.append("/");
        url.append(format);
        Request { method: Method::Get, url, payload: Payload::Empty }
    }

    /// The request that cancels the job `job_id`.
    pub fn cancellation(&self, job_id: &str) -> (request: Request)
        ensures
            request@ == cancel_request(self.base(), job_id@),
    {
        let mut url = self.url("/job/");
        url.append(job_id);
        Request { method: Method::Delete, url, payload: Payload::Empty }
    }
}

} // verus!
