//! The encode/decode contract: how a typed request becomes wire bytes and
//! how wire bytes become a typed response.
use vstd::prelude::*;
use vstd::utf8::{decode_utf8, encode_utf8, valid_utf8};

use crate::errors::RpcError;
use crate::json::{json_parse, json_wf, utf8_decode};

verus! {

/// The text encoding a response body may be declared to use.
/// Only UTF-8 is defined.
#[derive(Debug, Clone, Copy, PartialEq, Eq, Structural)]
pub enum Encoding {
    UTF8,
}

/// The encode/decode capability bound to one payload type.
///
/// Each method's behaviour is pinned by a relation the implementor defines
/// (`new_post`, `to_request_post`, `encode_post`, `from_request_post`):
/// the executable method is proved to return only results the relation
/// admits, and the error taxonomy is fixed for every implementation.
pub trait Protocol: Sized + Clone {
    /// The single payload shape, shared by request and response.
    type InnerType;

    /// Which outcomes a default construction may have.
    spec fn new_post(r: Result<Self, RpcError>) -> bool;

    /// Which outcomes building a request may have, given the method name
    /// and the typed request.
    spec fn to_request_post(
        &self,
        method: Seq<char>,
        request: Self::InnerType,
        r: Result<(String, Self::InnerType), RpcError>,
    ) -> bool;

    /// Which wire bytes a typed value may encode to.
    spec fn encode_post(&self, value: Self::InnerType, r: Result<Vec<u8>, RpcError>) -> bool;

    /// Which typed responses raw response bytes may decode to.
    spec fn from_request_post(
        &self,
        content: Seq<u8>,
        encoding: Option<Encoding>,
        r: Result<Self::InnerType, RpcError>,
    ) -> bool;

    /// Construct a default protocol instance; fails only with
    /// `ConstructionError` when setup-time configuration is invalid.
    fn new() -> (r: Result<Self, RpcError>)
        ensures
            Self::new_post(r),
            r matches Err(e) ==> e matches RpcError::ConstructionError(_),
    ;

    /// Given a method name and a typed request, produce the string to merge
    /// with the transport's addressing target and the value to actually put
    /// on the wire; fails only with `EncodingError`.
    fn to_request(&self, method: &str, request: &Self::InnerType) -> (r: Result<
        (String, Self::InnerType),
        RpcError,
    >)
        ensures
            self.to_request_post(method@, *request, r),
            r matches Err(e) ==> e matches RpcError::EncodingError(_),
    ;

    /// Serialize a typed value to wire bytes; fails only with
    /// `EncodingError`.
    fn encode(&self, value: &Self::InnerType) -> (r: Result<Vec<u8>, RpcError>)
        ensures
            self.encode_post(*value, r),
            r matches Err(e) ==> e matches RpcError::EncodingError(_),
    ;

    /// Parse raw response bytes, optionally given an expected text
    /// encoding, into the typed response; fails only with `DecodingError`.
    fn from_request(&self, content: &[u8], encoding: Option<Encoding>) -> (r: Result<
        Self::InnerType,
        RpcError,
    >)
        ensures
            self.from_request_post(content@, encoding, r),
            r matches Err(e) ==> e matches RpcError::DecodingError(_),
    ;
}

/// The reference protocol: the payload is one JSON document kept as text.
///
/// Building a request passes the method name through as the locator suffix
/// and the payload through unchanged; encoding is the text's UTF-8 bytes;
/// decoding accepts exactly the byte sequences that form one well-formed
/// JSON document and returns them as text.
#[derive(Debug, Clone, PartialEq, Eq, Structural)]
pub struct JsonProtocol;

impl Protocol for JsonProtocol {
    type InnerType = String;

    open spec fn new_post(r: Result<Self, RpcError>) -> bool {
        r is Ok
    }

    open spec fn to_request_post(
        &self,
        method: Seq<char>,
        request: String,
        r: Result<(String, String), RpcError>,
    ) -> bool {
        match r {
            Ok((locator, encoded)) => locator@ == method && encoded@ == request@,
            Err(_) => false,
        }
    }

    open spec fn encode_post(&self, value: String, r: Result<Vec<u8>, RpcError>) -> bool {
        match r {
            Ok(bytes) => bytes@ == encode_utf8(value@),
            Err(_) => false,
        }
    }

    open spec fn from_request_post(
        &self,
        content: Seq<u8>,
        encoding: Option<Encoding>,
        r: Result<String, RpcError>,
    ) -> bool {
        match r {
            Ok(text) => json_wf(content) && valid_utf8(content) && text@ == decode_utf8(content),
            Err(RpcError::DecodingError(m)) => (!json_wf(content) && m@
                == "response body is not valid JSON"@) || (json_wf(content) && !valid_utf8(content)
                && m@ == "response body is not valid UTF-8"@),
            Err(_) => false,
        }
    }

    fn new() -> (r: Result<Self, RpcError>) {
        Ok(JsonProtocol)
    }

    fn to_request(&self, method: &str, request: &String) -> (r: Result<(String, String), RpcError>) {
        Ok((method.to_owned(), request.clone()))
    }

    fn encode(&self, value: &String) -> (r: Result<Vec<u8>, RpcError>) {
        Ok(vstd::slice::slice_to_vec(value.as_str().as_bytes()))
    }

    fn from_request(&self, content: &[u8], encoding: Option<Encoding>) -> (r: Result<
        String,
        RpcError,
    >) {
        match json_parse(content) {
            Err(_) => Err(RpcError::DecodingError("response body is not valid JSON".to_owned())),
            Ok(_) => match utf8_decode(content) {
                Some(text) => Ok(text),
                None => Err(
                    RpcError::DecodingError("response body is not valid UTF-8".to_owned()),
                ),
            },
        }
    }
}

} // verus!
