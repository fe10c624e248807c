//! Tests of the client facade over mock protocols and transports.
use elite_rpc::errors::RpcError;
use elite_rpc::protocol::{Encoding, Protocol};
use elite_rpc::transport::{Transport, TransportMethod};
use elite_rpc::EliteRPC;

pub struct MockTransport;

#[derive(Clone)]
pub struct MockProtocol;

impl Transport<MockProtocol> for MockTransport {
    fn new_post(_: vstd::seq::Seq<char>, _: MockProtocol, _: Result<Self, RpcError>) -> bool {
        true
    }

    fn call_post(
        &self,
        _: TransportMethod,
        _: (),
        _: Result<(), RpcError>,
    ) -> bool {
        true
    }

    fn new(_: &str, _: MockProtocol) -> Result<Self, RpcError> {
        Ok(Self)
    }

    fn call(&self, _: TransportMethod, _: &()) -> Result<(), RpcError> {
        Ok(())
    }
}

impl Protocol for MockProtocol {
    type InnerType = ();
    fn new_post(_: Result<Self, RpcError>) -> bool {
        true
    }

    fn to_request_post(
        &self,
        _: vstd::seq::Seq<char>,
        _: (),
        _: Result<(String, ()), RpcError>,
    ) -> bool {
        true
    }

    fn encode_post(&self, _: (), _: Result<Vec<u8>, RpcError>) -> bool {
        true
    }

    fn from_request_post(
        &self,
        _: vstd::seq::Seq<u8>,
        _: Option<Encoding>,
        _: Result<(), RpcError>,
    ) -> bool {
        true
    }


    fn new() -> Result<Self, RpcError> {
        Ok(MockProtocol)
    }

    fn to_request(&self, _: &str, _: &()) -> Result<(String, ()), RpcError> {
        Ok((String::new(), ()))
    }

    fn encode(&self, _: &()) -> Result<Vec<u8>, RpcError> {
        Ok(Vec::new())
    }

    fn from_request(&self, _: &[u8], _: Option<Encoding>) -> Result<(), RpcError> {
        Ok(())
    }
}

#[test]
pub fn test_init_example() {
    let rpc = EliteRPC::<MockTransport, MockProtocol>::new("").unwrap();
    let response = rpc.call(TransportMethod::Post("foo".to_string()), &()).unwrap();
    assert_eq!(response, ());
}

#[derive(Clone)]
pub struct TextProtocol;

impl Protocol for TextProtocol {
    type InnerType = String;
    fn new_post(_: Result<Self, RpcError>) -> bool {
        true
    }

    fn to_request_post(
        &self,
        _: vstd::seq::Seq<char>,
        _: String,
        _: Result<(String, String), RpcError>,
    ) -> bool {
        true
    }

    fn encode_post(&self, _: String, _: Result<Vec<u8>, RpcError>) -> bool {
        true
    }

    fn from_request_post(
        &self,
        _: vstd::seq::Seq<u8>,
        _: Option<Encoding>,
        _: Result<String, RpcError>,
    ) -> bool {
        true
    }


    fn new() -> Result<Self, RpcError> {
        Ok(TextProtocol)
    }

    fn to_request(&self, method: &str, request: &String) -> Result<(String, String), RpcError> {
        Ok((method.to_string(), request.clone()))
    }

    fn encode(&self, value: &String) -> Result<Vec<u8>, RpcError> {
        Ok(value.as_bytes().to_vec())
    }

    fn from_request(&self, content: &[u8], _: Option<Encoding>) -> Result<String, RpcError> {
        String::from_utf8(content.to_vec())
            .map_err(|e| RpcError::DecodingError(format!("{e}")))
    }
}

pub struct EchoTransport;

impl Transport<TextProtocol> for EchoTransport {
    fn new_post(_: vstd::seq::Seq<char>, _: TextProtocol, _: Result<Self, RpcError>) -> bool {
        true
    }

    fn call_post(
        &self,
        _: TransportMethod,
        _: String,
        _: Result<String, RpcError>,
    ) -> bool {
        true
    }

    fn new(_: &str, _: TextProtocol) -> Result<Self, RpcError> {
        Ok(Self)
    }

    fn call(&self, _: TransportMethod, request: &String) -> Result<String, RpcError> {
        Ok(request.clone())
    }
}

#[test]
fn echo_round_trip_returns_request_unchanged() {
    let rpc = EliteRPC::<EchoTransport, TextProtocol>::new("ignored").unwrap();
    let request = String::from("{\"x\":1}");
    let get = rpc.call(TransportMethod::Get("status".to_string()), &request).unwrap();
    assert_eq!(get, request);
    let post = rpc.call(TransportMethod::Post("rpc".to_string()), &request).unwrap();
    assert_eq!(post, request);
}

#[derive(Clone)]
pub struct MisconfiguredProtocol;

impl Protocol for MisconfiguredProtocol {
    type InnerType = String;
    fn new_post(_: Result<Self, RpcError>) -> bool {
        true
    }

    fn to_request_post(
        &self,
        _: vstd::seq::Seq<char>,
        _: String,
        _: Result<(String, String), RpcError>,
    ) -> bool {
        true
    }

    fn encode_post(&self, _: String, _: Result<Vec<u8>, RpcError>) -> bool {
        true
    }

    fn from_request_post(
        &self,
        _: vstd::seq::Seq<u8>,
        _: Option<Encoding>,
        _: Result<String, RpcError>,
    ) -> bool {
        true
    }


    fn new() -> Result<Self, RpcError> {
        Err(RpcError::ConstructionError("invalid setup-time configuration".to_string()))
    }

    fn to_request(&self, _: &str, request: &String) -> Result<(String, String), RpcError> {
        Ok((String::new(), request.clone()))
    }

    fn encode(&self, value: &String) -> Result<Vec<u8>, RpcError> {
        Ok(value.as_bytes().to_vec())
    }

    fn from_request(&self, content: &[u8], _: Option<Encoding>) -> Result<String, RpcError> {
        String::from_utf8(content.to_vec())
            .map_err(|e| RpcError::DecodingError(format!("{e}")))
    }
}

pub struct NeverTransport;

impl Transport<MisconfiguredProtocol> for NeverTransport {
    fn new_post(_: vstd::seq::Seq<char>, _: MisconfiguredProtocol, _: Result<Self, RpcError>) -> bool {
        true
    }

    fn call_post(
        &self,
        _: TransportMethod,
        _: String,
        _: Result<String, RpcError>,
    ) -> bool {
        true
    }

    fn new(_: &str, _: MisconfiguredProtocol) -> Result<Self, RpcError> {
        panic!("the transport must not be constructed when the protocol fails");
    }

    fn call(&self, _: TransportMethod, _: &String) -> Result<String, RpcError> {
        panic!("the transport must not be invoked");
    }
}

#[test]
fn protocol_construction_failure_surfaces_from_new() {
    let r = EliteRPC::<NeverTransport, MisconfiguredProtocol>::new("http://localhost:8080");
    match r {
        Err(e) => assert_eq!(
            e,
            RpcError::ConstructionError("invalid setup-time configuration".to_string())
        ),
        Ok(_) => panic!("expected a construction error"),
    }
}
