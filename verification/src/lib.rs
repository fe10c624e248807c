//! A small, generically typed request/response client framework.
//!
//! The crate decouples how a request or response is encoded (a
//! [`protocol::Protocol`]) from how bytes move between processes (a
//! [`transport::Transport`]), and ships one concrete transport over HTTP.
//! The facade [`EliteRPC`] binds exactly one protocol type to exactly one
//! transport type at compile time and exposes a single `call` entry point.
use core::marker::PhantomData;
use vstd::prelude::*;

pub mod errors;
pub mod json;
pub mod protocol;
pub mod transport;

pub use crate::errors::RpcError;

use crate::protocol::Protocol;
use crate::transport::{Transport, TransportMethod};

verus! {

/// The client facade: one owned transport, bound to one protocol type by
/// a compile-time marker that carries no runtime data.
pub struct EliteRPC<T: Transport<P>, P: Protocol> {
    transport: T,
    phantom: PhantomData<P>,
}

impl<P: Protocol, T: Transport<P>> EliteRPC<T, P> {
    /// The transport this client owns.
    pub closed spec fn transport_spec(&self) -> T {
        self.transport
    }

    /// Construct a default protocol, then bind the transport to
    /// `info` with it. Every outcome is one the two constructors'
    /// relations admit: a client built over some protocol instance both
    /// accepted, or the error of whichever constructor refused.
    pub fn new(info: &str) -> (r: Result<Self, RpcError>)
        ensures
            r matches Ok(c) ==> exists|p: P|
                #[trigger] T::new_post(info@, p, Ok(c.transport_spec())) && P::new_post(Ok(p)),
            r matches Err(e) ==> P::new_post(Err(e)) || exists|p: P|
                #[trigger] T::new_post(info@, p, Err(e)) && P::new_post(Ok(p)),
            r matches Err(e) ==> e matches RpcError::ConstructionError(_),
    {
        let protocol = match P::new() {
            Ok(p) => p,
            Err(e) => {
                return Err(e);
            },
        };
        let ghost protocol0 = protocol;
        let transport = match T::new(info, protocol) {
            Ok(t) => t,
            Err(e) => {
                proof {
                    assert(T::new_post(info@, protocol0, Err(e)));
                }
                return Err(e);
            },
        };
        let client = EliteRPC { transport, phantom: PhantomData };
        proof {
            assert(T::new_post(info@, protocol0, Ok(client.transport_spec())));
        }
        Ok(client)
    }

    /// Forward one call to the owned transport unchanged: the result is
    /// exactly one the transport's own contract admits for this method
    /// and request.
    pub fn call(&self, method: TransportMethod, request: &P::InnerType) -> (r: Result<
        P::InnerType,
        RpcError,
    >)
        ensures
            self.transport_spec().call_post(method, *request, r),
            r matches Err(e) ==> !(e matches RpcError::ConstructionError(_)),
    {
        self.transport.call(method, request)
    }
}

/// Law: the facade adds nothing to a call. For any client over a transport
/// that can only echo — its relation admits no outcome but returning the
/// request — every outcome the facade's own contract admits is exactly the
/// request, whatever the method and whatever the protocol.
pub proof fn lemma_echo_transport_identity<P: Protocol, T: Transport<P>>(
    client: EliteRPC<T, P>,
    method: TransportMethod,
    request: P::InnerType,
    r: Result<P::InnerType, RpcError>,
)
    requires
        forall|m: TransportMethod, q: P::InnerType, out: Result<P::InnerType, RpcError>|
            #[trigger] client.transport_spec().call_post(m, q, out) ==> out == Ok::<
                P::InnerType,
                RpcError,
            >(q),
        client.transport_spec().call_post(method, request, r),
    ensures
        r == Ok::<P::InnerType, RpcError>(request),
{
}

} // verus!
