//! The delivery contract: how a method selector and an encoded request are
//! carried to the peer and a response obtained.
use vstd::prelude::*;

use crate::errors::RpcError;
use crate::protocol::Protocol;

pub mod http;

verus! {

/// The kind of exchange a transport is asked to perform. The string inside
/// `Post` and `Get` is the addressing target the final request locator is
/// built from; `Custom` names a non-HTTP channel by an identifier and a
/// target, for transports that support one.
#[derive(Debug, Clone, PartialEq, Eq)]
pub enum TransportMethod {
    /// A body-bearing exchange against the given target.
    Post(String),
    /// A locator-only exchange against the given target, with no body.
    Get(String),
    /// A channel the reference transport does not implement: an identifier
    /// (for example a local socket) and a target.
    Custom(String, String),
}

/// The communication layer bound to one protocol.
///
/// As with [`Protocol`], each implementation pins its own behaviour through
/// the relations `new_post` and `call_post`, and the executable methods are
/// proved to return only results those relations admit.
pub trait Transport<P: Protocol>: Sized {
    /// Which outcomes binding this transport to a connection target and a
    /// protocol instance may have.
    spec fn new_post(info: Seq<char>, protocol: P, r: Result<Self, RpcError>) -> bool;

    /// Which outcomes one full round trip may have.
    spec fn call_post(
        &self,
        method: TransportMethod,
        request: P::InnerType,
        r: Result<P::InnerType, RpcError>,
    ) -> bool;

    /// Bind the transport to a connection target, taking ownership of one
    /// protocol instance; fails only with `ConstructionError`.
    fn new(info: &str, protocol: P) -> (r: Result<Self, RpcError>)
        ensures
            Self::new_post(info@, protocol, r),
            r matches Err(e) ==> e matches RpcError::ConstructionError(_),
    ;

    /// Perform one full round trip: encode through the owned protocol,
    /// transmit, receive, decode, and return the typed result. A failure is
    /// a single terminal outcome; construction errors cannot arise here.
    fn call(&self, method: TransportMethod, request: &P::InnerType) -> (r: Result<
        P::InnerType,
        RpcError,
    >)
        ensures
            self.call_post(method, *request, r),
            r matches Err(e) ==> !(e matches RpcError::ConstructionError(_)),
    ;
}

} // verus!
