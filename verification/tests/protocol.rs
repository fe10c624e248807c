//! Tests of the reference JSON protocol and the error taxonomy labels.
use elite_rpc::errors::RpcError;
use elite_rpc::protocol::{Encoding, JsonProtocol, Protocol};

#[test]
fn to_request_passes_method_and_payload_through() {
    let p = JsonProtocol;
    let (locator, encoded) = p.to_request("getinfo", &String::from("{\"a\":1}")).unwrap();
    assert_eq!(locator, "getinfo".to_string());
    assert_eq!(encoded, "{\"a\":1}".to_string());
}

#[test]
fn encode_yields_the_utf8_bytes_of_the_text() {
    let p = JsonProtocol;
    assert_eq!(p.encode(&String::from("{\"a\":1}")).unwrap(), b"{\"a\":1}".to_vec());
    assert_eq!(p.encode(&String::new()).unwrap(), Vec::<u8>::new());
}

#[test]
fn from_request_returns_well_formed_json_text_verbatim() {
    let p = JsonProtocol;
    let text = p.from_request(b"{\"a\": 1, \"b\": [true, null]}", None).unwrap();
    assert_eq!(text, "{\"a\": 1, \"b\": [true, null]}".to_string());
    let scalar = p.from_request(b"42", Some(Encoding::UTF8)).unwrap();
    assert_eq!(scalar, "42".to_string());
}

#[test]
fn from_request_rejects_malformed_bytes() {
    let p = JsonProtocol;
    let r = p.from_request(b"{\"a\": ", None);
    assert_eq!(
        r.unwrap_err(),
        RpcError::DecodingError("response body is not valid JSON".to_string())
    );
    let r = p.from_request(&[0xff, 0xfe], None);
    assert_eq!(
        r.unwrap_err(),
        RpcError::DecodingError("response body is not valid JSON".to_string())
    );
}

#[test]
fn protocol_construction_succeeds() {
    assert!(JsonProtocol::new().is_ok());
}

#[test]
fn error_kinds_name_their_variant() {
    assert_eq!(RpcError::ConstructionError(String::new()).kind(), "construction error");
    assert_eq!(RpcError::EncodingError(String::new()).kind(), "encoding error");
    assert_eq!(RpcError::TransportError(String::new()).kind(), "transport error");
    assert_eq!(RpcError::HttpStatusError(404, String::new()).kind(), "http status error");
    assert_eq!(RpcError::DecodingError(String::new()).kind(), "decoding error");
    assert_eq!(RpcError::UnsupportedMethodError.kind(), "unsupported method error");
}
