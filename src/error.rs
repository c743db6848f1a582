//! The failures that any operation of the client can report.

use vstd::prelude::*;
use crate::text::{decimal, decimal_text};

verus! {

/// Every failure is one of three kinds.
#[derive(Debug)]
pub enum Error {
    /// The request could not be sent or no response came back.
    TransportError(String),
    /// A body was received but does not have the expected shape.
    DecodeError(String),
    /// The server answered with a status outside 200..=299; carries the
    /// status and the body text.
    ApiError(u16, String),
}

/// The text that describes `e`.
pub open spec fn message_text(e: Error) -> Seq<char> {
    match e {
        Error::TransportError(d) => "HTTP error: "@ + d@,
        Error::DecodeError(d) => "Parse error: "@ + d@,
        Error::ApiError(status, body) => "API error: HTTP "@ + decimal(status as nat) + ": "@ + body@,
    }
}

impl Error {
    /// A one-line description, for display.
    pub fn message(&self) -> (r: String)
        ensures
            r@ == message_text(*self),
    {
        match self {
            Error::TransportError(d) => {
                let mut m = String::from_str("HTTP error: ");
                m.append(d.as_str());
                m
            },
            Error::DecodeError(d) => {
                let mut m = String::from_str("Parse error: ");
                m.append(d.as_str());
                m
            },
            Error::ApiError(status, body) => {
                let mut m = String::from_str("API error: HTTP ");
                m.append(decimal_text(*status as u64).as_str());
                m.append(": ");
                m.append(body.as_str());
                m
            },
        }
    }
}

} // verus!
