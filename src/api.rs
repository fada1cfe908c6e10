//! What a call to the dashboard's HTTP API can end in, and how a finished
//! POST request is classified.
use crate::text::{decimal, decimal_text};
use vstd::prelude::*;

verus! {

/// The body that the API sends with a failed request when it explains the failure.
#[derive(Clone, Debug, PartialEq)]
pub struct ErrorResponse {
    pub success: bool,
    pub message: String,
    pub timestamp: Option<String>,
}

/// Why an API call did not succeed.
#[derive(Clone, Debug, PartialEq)]
pub enum ApiError {
    /// The request never got an answer.
    Network(String),
    /// An answer came but could not be read.
    Parse(String),
    /// The server answered with a failure status; `is_structured` tells whether
    /// `message` came from an `ErrorResponse` body.
    Request { status: u16, message: String, is_structured: bool },
}

impl ApiError {
    /// The text shown for the error.
    pub open spec fn describe_view(&self) -> Seq<char> {
        match self {
            ApiError::Network(s) => "Network Error: "@ + s@,
            ApiError::Parse(s) => "Parsing Error: "@ + s@,
            ApiError::Request { status, message, is_structured } => {
                if *is_structured {
                    message@
                } else {
                    "HTTP Error: "@ + decimal(*status as nat) + " - "@ + message@
                }
            },
        }
    }

    /// The text shown for the error.
    pub fn describe(&self) -> (r: String)
        ensures
            r@ == self.describe_view(),
    {
        match self {
            ApiError::Network(s) => {
                let mut r = "Network Error: ".to_owned();
                r.append(s.as_str());
                r
            },
            ApiError::Parse(s) => {
                let mut r = "Parsing Error: ".to_owned();
                r.append(s.as_str());
                r
            },
            ApiError::Request { status, message, is_structured } => {
                if *is_structured {
                    message.clone()
                } else {
                    let mut r = "HTTP Error: ".to_owned();
                    let code = decimal_text(*status as u64);
                    r.append(code.as_str());
                    r.append(" - ");
                    r.append(message.as_str());
                    r
                }
            },
        }
    }
}

/// The error for a request that got no answer; `detail` is the transport's own text.
pub fn network_error(detail: &str) -> (r: ApiError)
    ensures
        r matches ApiError::Network(s) && s@ == "Network Error: "@ + detail@,
{
    let mut s = "Network Error: ".to_owned();
    s.append(detail);
    ApiError::Network(s)
}

/// The error for a request that could not be put together.
pub fn build_error(detail: &str) -> (r: ApiError)
    ensures
        r matches ApiError::Request { status, message, is_structured }
            && status == 0 && !is_structured && message@ == "Failed to build request: "@ + detail@,
{
    let mut s = "Failed to build request: ".to_owned();
    s.append(detail);
    ApiError::Request { status: 0, message: s, is_structured: false }
}

/// Classifies the answer to a POST request.
///
/// `ok` tells whether the status was a success, `body` is the answer's text or
/// the reader's error, and `explained` is the body read as an `ErrorResponse`
/// where it is one (it is looked at only for a failure status).
pub fn response_outcome(
    ok: bool,
    status: u16,
    body: Result<String, String>,
    explained: Option<ErrorResponse>,
) -> (r: Result<String, ApiError>)
    ensures
        ok && body is Ok ==> (r matches Ok(t) && t@ == body->Ok_0@),
        ok && body is Err ==> (r matches Err(ApiError::Parse(s))
            && s@ == "Failed to read response: "@ + body->Err_0@),
        !ok && body is Ok && explained is Some ==> (r matches Err(
            ApiError::Request { status: st, message: m, is_structured: true },
        ) && st == status && m@ == explained->Some_0.message@),
        !ok && body is Ok && explained is None ==> (r matches Err(
            ApiError::Request { status: st, message: m, is_structured: false },
        ) && st == status && m@ == body->Ok_0@),
        !ok && body is Err ==> (r matches Err(
            ApiError::Request { status: st, message: m, is_structured: false },
        ) && st == status && m@ == "Unknown error"@),
{
    if ok {
        match body {
            Ok(text) => Ok(text),
            Err(e) => {
                let mut s = "Failed to read response: ".to_owned();
                s.append(e.as_str());
                Err(ApiError::Parse(s))
            },
        }
    } else {
        match body {
            Ok(text) => match explained {
                Some(er) => Err(ApiError::Request { status, message: er.message, is_structured: true }),
                None => Err(ApiError::Request { status, message: text, is_structured: false }),
            },
            Err(_) => Err(ApiError::Request { status, message: "Unknown error".to_owned(), is_structured: false }),
        }
    }
}

} // verus!
