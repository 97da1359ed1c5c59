//! The error taxonomy of one API call: three mutually exclusive kinds, each
//! surfaced to the caller as a typed result, never retried or logged here.

use crate::wire::{spec_decimal, StatusCode};
use vstd::prelude::*;
use vstd::string::StringExecFns;

verus! {

/// The classified failure of one API call.
pub enum Error {
    /// The server answered with a non-success status; carries that status and
    /// the best-effort parse of the response body as a generic JSON value
    /// (`None` when the body was absent or not valid JSON).
    ResponseError((StatusCode, Option<serde_json::Value>)),
    /// The transport failed before producing an HTTP response; no status or
    /// body is available.
    ClientError,
    /// The server answered with a success status, but the body could not be
    /// decoded into the expected result type; carries the decoder's message.
    ClientDecodeError(String),
}

impl Error {
    /// What [`Error::message`] says of each kind of failure.
    pub open spec fn message_spec(self) -> Seq<char> {
        match self {
            Error::ResponseError(p) => "API response error with status "@ + spec_decimal(
                p.0.0 as int,
            ) + (if p.1 is Some {
                " and a JSON body"@
            } else {
                " and no JSON body"@
            }),
            Error::ClientError => "HTTP client error"@,
            Error::ClientDecodeError(m) => "HTTP client failed to decode response: "@ + m@,
        }
    }

    /// A human-readable account of the failure: its kind, the status code of
    /// a response error in decimal, and whether an error payload came along.
    pub fn message(&self) -> (r: String)
        ensures
            r@ == self.message_spec(),
    {
        match self {
            Error::ResponseError((status, body)) => {
                let mut s = "API response error with status ".to_owned();
                let digits = status.decimal_string();
                s.append(digits.as_str());
                match body {
                    Some(_) => s.append(" and a JSON body"),
                    None => s.append(" and no JSON body"),
                }
                s
            },
            Error::ClientError => "HTTP client error".to_owned(),
            Error::ClientDecodeError(m) => {
                let mut s = "HTTP client failed to decode response: ".to_owned();
                s.append(m.as_str());
                s
            },
        }
    }
}

} // verus!
