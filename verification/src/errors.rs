//! The error taxonomy of the client framework.
//!
//! Every fallible operation of the library reports one of these variants;
//! no failure is ever swallowed or defaulted to an empty value.
use vstd::prelude::*;

verus! {

/// One terminal outcome of a construction attempt or of a single call.
#[derive(Debug, Clone, PartialEq)]
pub enum RpcError {
    /// Invalid connection info or protocol initialization failure,
    /// surfaced immediately from a constructor.
    ConstructionError(String),
    /// The protocol could not turn a typed request into wire form;
    /// no transmission is attempted after this.
    EncodingError(String),
    /// The underlying exchange failed outright (connection refused,
    /// timeout, malformed locator).
    TransportError(String),
    /// The exchange completed but the HTTP status was not the accepted
    /// code; carries the status and the response body as text.
    HttpStatusError(u32, String),
    /// The response bytes could not be parsed into the typed response.
    DecodingError(String),
    /// The concrete transport was asked to perform a method variant it
    /// does not implement; no exchange is attempted.
    UnsupportedMethodError,
}

impl RpcError {
    /// A short label naming the variant, for diagnostics.
    pub fn kind(&self) -> (r: &'static str)
        ensures
            r@ == match self {
                RpcError::ConstructionError(_) => "construction error"@,
                RpcError::EncodingError(_) => "encoding error"@,
                RpcError::TransportError(_) => "transport error"@,
                RpcError::HttpStatusError(_, _) => "http status error"@,
                RpcError::DecodingError(_) => "decoding error"@,
                RpcError::UnsupportedMethodError => "unsupported method error"@,
            },
    {
        match self {
            RpcError::ConstructionError(_) => "construction error",
            RpcError::EncodingError(_) => "encoding error",
            RpcError::TransportError(_) => "transport error",
            RpcError::HttpStatusError(_, _) => "http status error",
            RpcError::DecodingError(_) => "decoding error",
            RpcError::UnsupportedMethodError => "unsupported method error",
        }
    }
}

} // verus!
