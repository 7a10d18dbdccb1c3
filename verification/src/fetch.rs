//! The requests that handlers ask for and the way a raw HTTP outcome
//! becomes a typed record or a distinct failure.

use vstd::prelude::*;
use crate::text::option_view;

verus! {

/// The HTTP method of a request.
#[derive(Debug, Clone, Copy, PartialEq, Eq, Structural)]
pub enum Method {
    Get,
    Post,
}

/// One request header.
#[derive(Debug, Clone, PartialEq, Eq)]
pub struct Header {
    pub name: String,
    pub value: String,
}

/// A request for the transport to perform.
#[derive(Debug, Clone, PartialEq, Eq)]
pub struct Request {
    pub method: Method,
    pub url: String,
    pub headers: Vec<Header>,
    pub body: Option<String>,
}

/// What a [`Request`] holds, as plain sequences; each header is a pair of
/// name and value.
pub struct RequestView {
    pub method: Method,
    pub url: Seq<char>,
    pub headers: Seq<(Seq<char>, Seq<char>)>,
    pub body: Option<Seq<char>>,
}

/// The headers in `v` as pairs of name and value.
pub open spec fn header_views(v: Seq<Header>) -> Seq<(Seq<char>, Seq<char>)> {
    Seq::new(v.len(), |i: int| (v[i].name@, v[i].value@))
}

impl View for Request {
    type V = RequestView;

    open spec fn view(&self) -> RequestView {
        RequestView {
            method: self.method,
            url: self.url@,
            headers: header_views(self.headers@),
            body: option_view(self.body),
        }
    }
}

/// Why a fetch produced no record.
#[derive(Debug, Clone, Copy, PartialEq, Eq, Structural)]
pub enum FetchError {
    /// The request never got an answer: connection, DNS or timeout.
    Transport,
    /// The server answered outside the 2xx range.
    HttpStatus(u16),
    /// The body did not have the expected shape.
    Decode,
}

/// What the transport observed for one request. `body` is the decoded
/// record, absent when the body did not match the expected shape.
pub enum Delivery<T> {
    Unreachable,
    Answered { status: u16, body: Option<T> },
}

/// Tells whether `status` lies in the 2xx range.
pub open spec fn is_success(status: u16) -> bool {
    200 <= status <= 299
}

/// The result of a fetch as a function of what the transport observed.
pub open spec fn fetch_outcome<T>(delivery: Delivery<T>) -> Result<T, FetchError> {
    match delivery {
        Delivery::Unreachable => Err(FetchError::Transport),
        Delivery::Answered { status, body } => if !is_success(status) {
            Err(FetchError::HttpStatus(status))
        } else {
            match body {
                Some(record) => Ok(record),
                None => Err(FetchError::Decode),
            }
        },
    }
}

/// Turns what the transport observed into a record or a failure. A status
/// outside 2xx wins over a body that failed to decode.
pub fn fetch_json<T>(delivery: Delivery<T>) -> (r: Result<T, FetchError>)
    ensures
        r == fetch_outcome(delivery),
{
    match delivery {
        Delivery::Unreachable => Err(FetchError::Transport),
        Delivery::Answered { status, body } => {
            if status < 200 || status > 299 {
                Err(FetchError::HttpStatus(status))
            } else {
                match body {
                    Some(record) => Ok(record),
                    None => Err(FetchError::Decode),
                }
            }
        },
    }
}

} // verus!
