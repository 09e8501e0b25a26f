//! The closed set of failures a fetch-and-extract operation can end in.
//! Per-href troubles never appear here: they only cost the offending
//! href its place in the output.

use vstd::prelude::*;

verus! {

/// One attributable failure of the whole operation. The `String` field
/// carries the underlying cause: the transport's own description for
/// the two transport kinds, the offending input text for the third.
#[derive(Debug, PartialEq, Eq)]
pub enum GetLinksError {
    /// The GET request could not be sent, or no response arrived.
    SendRequest(String),
    /// A response arrived but its body could not be read as text.
    ResponseBody(String),
    /// The supplied URL string does not parse as an absolute URL.
    InvalidUrl(String),
}

impl GetLinksError {
    /// The text carried by the error: the transport's description of
    /// what went wrong, or the URL text that was rejected.
    pub fn message(&self) -> (r: &str)
        ensures
            (match self {
                GetLinksError::SendRequest(m) => r@ == m@,
                GetLinksError::ResponseBody(m) => r@ == m@,
                GetLinksError::InvalidUrl(u) => r@ == u@,
            }),
    {
        match self {
            GetLinksError::SendRequest(m) => m.as_str(),
            GetLinksError::ResponseBody(m) => m.as_str(),
            GetLinksError::InvalidUrl(u) => u.as_str(),
        }
    }
}

} // verus!
