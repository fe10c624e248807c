//! The reference transport: request/response exchanges over HTTP.
//!
//! The byte-level HTTP engine is an outside collaborator reached through
//! [`HttpEngine`]; everything around it — locator construction, method
//! dispatch, status classification and decoding — is verified here.
//!
//! A response is successful exactly when its status code is 200, and GET
//! and POST exchanges are classified identically; every other status is an
//! error carrying the code and the body.
use vstd::prelude::*;
use vstd::string::StringExecFns;
use vstd::utf8::{decode_utf8, valid_utf8};

use crate::errors::RpcError;
use crate::json::{json_parse, json_wf, utf8_lossy, utf8_lossy_of};
use crate::protocol::Protocol;
use crate::transport::{Transport, TransportMethod};

verus! {

/// The two HTTP request kinds the reference transport issues.
#[derive(Debug, Clone, Copy, PartialEq, Eq, Structural)]
pub enum HttpMethod {
    Get,
    Post,
}

/// One outbound HTTP request, fully determined before the engine runs:
/// the final locator, the method, an optional body, and the headers.
#[derive(Debug, Clone, PartialEq)]
pub struct HttpRequest {
    pub method: HttpMethod,
    pub url: String,
    pub body: Option<Vec<u8>>,
    pub headers: Vec<String>,
}

/// What one completed exchange reports back: the status code and the
/// collected response body.
#[derive(Debug, Clone, PartialEq)]
pub struct HttpResponse {
    pub status: u32,
    pub body: Vec<u8>,
}

/// The outside collaborator that actually moves bytes.
///
/// Each engine pins its own behaviour through the relation `perform_post`,
/// as [`Transport`] and [`Protocol`] do; an engine over a real network
/// admits every outcome (any status code and any body may come back, and
/// the exchange may fail outright with a message), so the transport's
/// contracts state what holds of every outcome of the request they built.
pub trait HttpEngine: Sized {
    /// Which outcomes one exchange of `request` may have.
    spec fn perform_post(&self, request: HttpRequest, r: Result<HttpResponse, String>) -> bool;

    /// Obtain a fresh engine handle.
    fn create() -> (r: Self);

    /// Perform one synchronous exchange.
    fn perform(&self, request: &HttpRequest) -> (r: Result<HttpResponse, String>)
        ensures
            self.perform_post(*request, r),
    ;
}

/// An engine that never reaches a peer: every exchange fails outright,
/// with a fixed message. The do-nothing default for wiring a transport
/// where no network is available.
pub struct OfflineEngine;

impl HttpEngine for OfflineEngine {
    open spec fn perform_post(&self, request: HttpRequest, r: Result<HttpResponse, String>) -> bool {
        r matches Err(m) && m@ == "offline engine: no exchange is performed"@
    }

    fn create() -> (r: Self) {
        OfflineEngine
    }

    fn perform(&self, request: &HttpRequest) -> (r: Result<HttpResponse, String>) {
        Err("offline engine: no exchange is performed".to_owned())
    }
}

/// The decimal digit character for one digit value.
pub open spec fn dec_digit(d: nat) -> char
    recommends
        d < 10,
{
    if d == 0 {
        '0'
    } else if d == 1 {
        '1'
    } else if d == 2 {
        '2'
    } else if d == 3 {
        '3'
    } else if d == 4 {
        '4'
    } else if d == 5 {
        '5'
    } else if d == 6 {
        '6'
    } else if d == 7 {
        '7'
    } else if d == 8 {
        '8'
    } else {
        '9'
    }
}

/// The decimal digit string of a number, most significant digit first.
pub open spec fn dec_str_of(n: nat) -> Seq<char>
    decreases n,
{
    if n < 10 {
        seq![dec_digit(n)]
    } else {
        dec_str_of(n / 10) + seq![dec_digit(n % 10)]
    }
}

/// The base locator `build` assembles from a scheme, a host and a port.
pub open spec fn base_locator(prefix: Seq<char>, host: Seq<char>, port: u64) -> Seq<char> {
    prefix + "://"@ + host + ":"@ + dec_str_of(port as nat)
}

fn digit_str(d: u64) -> (s: &'static str)
    requires
        d < 10,
    ensures
        s@ == seq![dec_digit(d as nat)],
{
    proof {
        reveal_strlit("0");
        reveal_strlit("1");
        reveal_strlit("2");
        reveal_strlit("3");
        reveal_strlit("4");
        reveal_strlit("5");
        reveal_strlit("6");
        reveal_strlit("7");
        reveal_strlit("8");
        reveal_strlit("9");
        assert("0"@ =~= seq![dec_digit(0)]);
        assert("1"@ =~= seq![dec_digit(1)]);
        assert("2"@ =~= seq![dec_digit(2)]);
        assert("3"@ =~= seq![dec_digit(3)]);
        assert("4"@ =~= seq![dec_digit(4)]);
        assert("5"@ =~= seq![dec_digit(5)]);
        assert("6"@ =~= seq![dec_digit(6)]);
        assert("7"@ =~= seq![dec_digit(7)]);
        assert("8"@ =~= seq![dec_digit(8)]);
        assert("9"@ =~= seq![dec_digit(9)]);
    }
    if d == 0 {
        "0"
    } else if d == 1 {
        "1"
    } else if d == 2 {
        "2"
    } else if d == 3 {
        "3"
    } else if d == 4 {
        "4"
    } else if d == 5 {
        "5"
    } else if d == 6 {
        "6"
    } else if d == 7 {
        "7"
    } else if d == 8 {
        "8"
    } else {
        "9"
    }
}

fn u64_to_string(n: u64) -> (s: String)
    ensures
        s@ == dec_str_of(n as nat),
    decreases n,
{
    if n < 10 {
        digit_str(n).to_owned()
    } else {
        let mut s = u64_to_string(n / 10);
        s.append(digit_str(n % 10));
        s
    }
}

/// Split a completed exchange into the success path and the error path:
/// status 200 hands the body through for decoding; any other status
/// becomes an `HttpStatusError` carrying the status and the body as text
/// (decoded leniently, valid UTF-8 passing through unchanged).
pub fn classify_status(response: HttpResponse) -> (r: Result<Vec<u8>, RpcError>)
    ensures
        response.status == 200 ==> (r matches Ok(b) && b@ == response.body@),
        response.status != 200 ==> (r matches Err(e) && e matches RpcError::HttpStatusError(c, t)
            && c == response.status && t@ == utf8_lossy_of(response.body@)),
        response.status != 200 && valid_utf8(response.body@) ==> (r matches Err(e) && e matches
            RpcError::HttpStatusError(c, t) && t@ == decode_utf8(response.body@)),
{
    if response.status != 200 {
        let text = utf8_lossy(response.body.as_slice());
        Err(RpcError::HttpStatusError(response.status, text))
    } else {
        Ok(response.body)
    }
}

/// The concrete transport: a base locator, one owned protocol instance,
/// and the engine that carries the bytes.
pub struct HttpTransport<P: Protocol, E: HttpEngine> {
    base_url: String,
    protocol: P,
    engine: E,
}

impl<P: Protocol, E: HttpEngine> HttpTransport<P, E> {
    /// The base locator every request is addressed under.
    pub closed spec fn base_url_spec(&self) -> Seq<char> {
        self.base_url@
    }

    /// The protocol instance this transport owns.
    pub closed spec fn protocol_spec(&self) -> P {
        self.protocol
    }

    /// The engine this transport drives.
    pub closed spec fn engine_spec(&self) -> E {
        self.engine
    }

    /// The base locator, verbatim as construction received it.
    pub fn base_url(&self) -> (r: &str)
        ensures
            r@ == self.base_url_spec(),
    {
        self.base_url.as_str()
    }

    /// The exact shape of the one request an unencoded exchange performs:
    /// the base locator joined with `addons`; a GET with no body and no
    /// headers when `body` is absent, else a POST of those bytes with the
    /// JSON content-type header.
    pub open spec fn request_shape(
        &self,
        addons: Seq<char>,
        body: Option<Seq<u8>>,
        q: HttpRequest,
    ) -> bool {
        q.url@ == self.base_url_spec() + "/"@ + addons && match body {
            None => q.method == HttpMethod::Get && q.body is None && q.headers@.len() == 0,
            Some(b) => q.method == HttpMethod::Post && (q.body matches Some(w) && w@ == b)
                && q.headers@.len() == 1 && q.headers@[0]@
                == "Content-Type: application/json"@,
        }
    }

    /// Everything one unencoded exchange against `addons` may come to:
    /// the engine performed exactly the request of [`Self::request_shape`],
    /// and the result reports that exchange's own outcome — the body of a
    /// status-200 response, the engine's failure message as a transport
    /// error, or any other status with that response's body as text.
    pub open spec fn raw_exchange_post(
        &self,
        addons: Seq<char>,
        body: Option<Seq<u8>>,
        r: Result<Vec<u8>, RpcError>,
    ) -> bool {
        exists|q: HttpRequest|
            (#[trigger] self.request_shape(addons, body, q)) && match r {
                Ok(bytes) => exists|resp: HttpResponse|
                    #[trigger] self.engine_spec().perform_post(q, Ok(resp)) && resp.status == 200
                        && bytes@ == resp.body@,
                Err(e) => match e {
                    RpcError::TransportError(m) => self.engine_spec().perform_post(q, Err(m)),
                    RpcError::HttpStatusError(status, text) => status != 200 && exists|
                        resp: HttpResponse,
                    |
                        #[trigger] self.engine_spec().perform_post(q, Ok(resp)) && resp.status
                            == status && text@ == utf8_lossy_of(resp.body@) && (valid_utf8(
                            resp.body@,
                        ) ==> text@ == decode_utf8(resp.body@)),
                    _ => false,
                },
            }
    }

    /// Whether the error `e` reports a failure to build the request: the
    /// protocol refused the request itself, or (for a body-bearing
    /// exchange) refused to serialize the encoded value.
    pub open spec fn encoding_failed(
        &self,
        target: Seq<char>,
        request: P::InnerType,
        with_body: bool,
        e: RpcError,
    ) -> bool {
        self.protocol_spec().to_request_post(target, request, Err(e)) || (with_body
            && exists|loc: String, enc: P::InnerType|
            (#[trigger] self.protocol_spec().to_request_post(target, request, Ok((loc, enc))))
                && self.protocol_spec().encode_post(enc, Err(e)))
    }

    /// What one performed exchange makes of the round trip's result: a
    /// typed success or a decoding failure reports the decode of exactly
    /// the body a status-200 exchange returned — a failed response is
    /// never decoded as a typed success — and a transport or status error
    /// is that exchange's own outcome.
    pub open spec fn exchange_result(
        &self,
        addons: Seq<char>,
        body: Option<Seq<u8>>,
        r: Result<P::InnerType, RpcError>,
    ) -> bool {
        match r {
            Ok(v) => exists|bytes: Vec<u8>|
                #[trigger] self.raw_exchange_post(addons, body, Ok(bytes))
                    && self.protocol_spec().from_request_post(bytes@, None, Ok(v)),
            Err(e) => match e {
                RpcError::TransportError(_) => self.raw_exchange_post(addons, body, Err(e)),
                RpcError::HttpStatusError(_, _) => self.raw_exchange_post(addons, body, Err(e)),
                RpcError::DecodingError(_) => exists|bytes: Vec<u8>|
                    #[trigger] self.raw_exchange_post(addons, body, Ok(bytes))
                        && self.protocol_spec().from_request_post(bytes@, None, Err(e)),
                _ => false,
            },
        }
    }

    /// Everything one call against `target` may come to: the protocol
    /// refused to build the request (and nothing was exchanged), or the
    /// engine performed exactly the request built from the protocol's
    /// locator suffix — and, for a body-bearing call, the protocol's wire
    /// bytes — and the result is that exchange's outcome.
    pub open spec fn exchange_post(
        &self,
        target: Seq<char>,
        request: P::InnerType,
        with_body: bool,
        r: Result<P::InnerType, RpcError>,
    ) -> bool {
        (r matches Err(e) && e matches RpcError::EncodingError(_) && self.encoding_failed(
            target,
            request,
            with_body,
            e,
        )) || exists|loc: String, enc: P::InnerType|
            (#[trigger] self.protocol_spec().to_request_post(target, request, Ok((loc, enc))))
                && if with_body {
                exists|w: Vec<u8>|
                    #[trigger] self.protocol_spec().encode_post(enc, Ok(w))
                        && self.exchange_result(loc@, Some(w@), r)
            } else {
                self.exchange_result(loc@, None, r)
            }
    }

    /// Build the locator-only request every plain call starts from: the
    /// base locator joined with the addressing suffix, marked GET, with
    /// no body and no headers.
    pub fn client(&self, addons: &str) -> (r: HttpRequest)
        ensures
            r.method == HttpMethod::Get,
            r.url@ == self.base_url_spec() + "/"@ + addons@,
            r.body is None,
            r.headers@.len() == 0,
    {
        let mut url = self.base_url.clone();
        url.append("/");
        url.append(addons);
        HttpRequest { method: HttpMethod::Get, url, body: None, headers: Vec::new() }
    }

    /// Build a body-bearing request: the same locator join, marked POST,
    /// carrying the given bytes and the JSON content-type header.
    pub fn post_request(&self, addons: &str, body: &[u8]) -> (r: HttpRequest)
        ensures
            r.method == HttpMethod::Post,
            r.url@ == self.base_url_spec() + "/"@ + addons@,
            r.body matches Some(b) && b@ == body@,
            r.headers@.len() == 1,
            r.headers@[0]@ == "Content-Type: application/json"@,
    {
        let mut url = self.base_url.clone();
        url.append("/");
        url.append(addons);
        let mut headers: Vec<String> = Vec::new();
        headers.push("Content-Type: application/json".to_owned());
        HttpRequest {
            method: HttpMethod::Post,
            url,
            body: Some(vstd::slice::slice_to_vec(body)),
            headers,
        }
    }

    /// Perform an unencoded GET against the base locator joined with
    /// `addons`: the engine carries exactly that locator-only request, a
    /// successful exchange's body comes back raw, and every failure is
    /// that exchange's own transport or status outcome.
    pub fn raw_call(&self, addons: &str) -> (r: Result<Vec<u8>, RpcError>)
        ensures
            self.raw_exchange_post(addons@, None, r),
    {
        let request = self.client(addons);
        proof {
            assert(self.request_shape(addons@, None, request));
        }
        match self.engine.perform(&request) {
            Err(m) => {
                proof {
                    assert(self.engine_spec().perform_post(request, Err(m)));
                }
                Err(RpcError::TransportError(m))
            },
            Ok(response) => {
                let ghost response0 = response;
                proof {
                    assert(self.engine_spec().perform_post(request, Ok(response0)));
                }
                classify_status(response)
            },
        }
    }

    /// Perform an unencoded POST of the given bytes: the engine carries
    /// exactly that request — locator join, those body bytes, the JSON
    /// content-type header — and every outcome is that exchange's own.
    pub fn raw_post(&self, addons: &str, body: &[u8]) -> (r: Result<Vec<u8>, RpcError>)
        ensures
            self.raw_exchange_post(addons@, Some(body@), r),
    {
        let request = self.post_request(addons, body);
        proof {
            assert(self.request_shape(addons@, Some(body@), request));
        }
        match self.engine.perform(&request) {
            Err(m) => {
                proof {
                    assert(self.engine_spec().perform_post(request, Err(m)));
                }
                Err(RpcError::TransportError(m))
            },
            Ok(response) => {
                let ghost response0 = response;
                proof {
                    assert(self.engine_spec().perform_post(request, Ok(response0)));
                }
                classify_status(response)
            },
        }
    }

    /// Perform a raw GET and parse the bytes as one JSON document,
    /// bypassing the owned protocol: an ad hoc typed read. It succeeds
    /// exactly when the exchange's status-200 body is well-formed JSON;
    /// a malformed body is a decoding error carrying the parser's message.
    pub fn inner(&self, addons: &str) -> (r: Result<serde_json::Value, RpcError>)
        ensures
            match r {
                Ok(_) => exists|bytes: Vec<u8>|
                    #[trigger] self.raw_exchange_post(addons@, None, Ok(bytes)) && json_wf(bytes@),
                Err(e) => match e {
                    RpcError::TransportError(_) => self.raw_exchange_post(addons@, None, Err(e)),
                    RpcError::HttpStatusError(_, _) => self.raw_exchange_post(
                        addons@,
                        None,
                        Err(e),
                    ),
                    RpcError::DecodingError(_) => exists|bytes: Vec<u8>|
                        #[trigger] self.raw_exchange_post(addons@, None, Ok(bytes)) && !json_wf(
                            bytes@,
                        ),
                    _ => false,
                },
            },
    {
        let body = match self.raw_call(addons) {
            Ok(b) => b,
            Err(e) => {
                return Err(e);
            },
        };
        proof {
            assert(self.raw_exchange_post(addons@, None, Ok(body)));
        }
        match json_parse(body.as_slice()) {
            Ok(value) => Ok(value),
            Err(message) => Err(RpcError::DecodingError(message)),
        }
    }

    /// Convenience constructor: format `prefix://host:port` and bind the
    /// transport to it.
    pub fn build(prefix: &str, host: &str, port: u64, protocol: P) -> (r: Result<Self, RpcError>)
        ensures
            <Self as Transport<P>>::new_post(base_locator(prefix@, host@, port), protocol, r),
    {
        let mut url = prefix.to_owned();
        url.append("://");
        url.append(host);
        url.append(":");
        let port_text = u64_to_string(port);
        url.append(port_text.as_str());
        <Self as Transport<P>>::new(url.as_str(), protocol)
    }
}

impl<P: Protocol, E: HttpEngine> Transport<P> for HttpTransport<P, E> {
    /// Binding never fails: the connection info is taken verbatim as the
    /// base locator and the protocol instance is owned as given.
    open spec fn new_post(info: Seq<char>, protocol: P, r: Result<Self, RpcError>) -> bool {
        r matches Ok(t) && t.base_url_spec() == info && t.protocol_spec() == protocol
    }

    /// GET and POST exchanges come to whatever [`Self::exchange_post`]
    /// admits; a `Custom` method is refused outright, before any exchange.
    open spec fn call_post(
        &self,
        method: TransportMethod,
        request: P::InnerType,
        r: Result<P::InnerType, RpcError>,
    ) -> bool {
        match method {
            TransportMethod::Get(target) => self.exchange_post(target@, request, false, r),
            TransportMethod::Post(target) => self.exchange_post(target@, request, true, r),
            TransportMethod::Custom(_, _) => r == Err::<P::InnerType, RpcError>(
                RpcError::UnsupportedMethodError,
            ),
        }
    }

    fn new(info: &str, protocol: P) -> (r: Result<Self, RpcError>) {
        Ok(HttpTransport { base_url: info.to_owned(), protocol, engine: E::create() })
    }

    fn call(&self, method: TransportMethod, request: &P::InnerType) -> (r: Result<
        P::InnerType,
        RpcError,
    >) {
        match method {
            TransportMethod::Custom(_, _) => Err(RpcError::UnsupportedMethodError),
            TransportMethod::Get(target) => {
                let (locator, encoded) = match self.protocol.to_request(target.as_str(), request) {
                    Ok((locator, encoded)) => (locator, encoded),
                    Err(e) => {
                        proof {
                            assert(self.protocol_spec().to_request_post(target@, *request, Err(e)));
                        }
                        return Err(e);
                    },
                };
                proof {
                    assert(self.protocol_spec().to_request_post(
                        target@,
                        *request,
                        Ok((locator, encoded)),
                    ));
                }
                let body = match self.raw_call(locator.as_str()) {
                    Ok(b) => b,
                    Err(e) => {
                        proof {
                            assert(self.exchange_result(locator@, None, Err(e)));
                        }
                        return Err(e);
                    },
                };
                proof {
                    assert(self.raw_exchange_post(locator@, None, Ok(body)));
                }
                let result = self.protocol.from_request(body.as_slice(), None);
                proof {
                    if result is Ok {
                        assert(self.protocol_spec().from_request_post(
                            body@,
                            None,
                            Ok(result->Ok_0),
                        ));
                    } else {
                        assert(self.protocol_spec().from_request_post(
                            body@,
                            None,
                            Err(result->Err_0),
                        ));
                    }
                    assert(self.exchange_result(locator@, None, result));
                }
                result
            },
            TransportMethod::Post(target) => {
                let (locator, encoded) = match self.protocol.to_request(target.as_str(), request) {
                    Ok((locator, encoded)) => (locator, encoded),
                    Err(e) => {
                        proof {
                            assert(self.protocol_spec().to_request_post(target@, *request, Err(e)));
                        }
                        return Err(e);
                    },
                };
                proof {
                    assert(self.protocol_spec().to_request_post(
                        target@,
                        *request,
                        Ok((locator, encoded)),
                    ));
                }
                let wire = match self.protocol.encode(&encoded) {
                    Ok(w) => w,
                    Err(e) => {
                        proof {
                            assert(self.protocol_spec().encode_post(encoded, Err(e)));
                        }
                        return Err(e);
                    },
                };
                proof {
                    assert(self.protocol_spec().encode_post(encoded, Ok(wire)));
                }
                let body = match self.raw_post(locator.as_str(), wire.as_slice()) {
                    Ok(b) => b,
                    Err(e) => {
                        proof {
                            assert(self.exchange_result(locator@, Some(wire@), Err(e)));
                        }
                        return Err(e);
                    },
                };
                proof {
                    assert(self.raw_exchange_post(locator@, Some(wire@), Ok(body)));
                }
                let result = self.protocol.from_request(body.as_slice(), None);
                proof {
                    if result is Ok {
                        assert(self.protocol_spec().from_request_post(
                            body@,
                            None,
                            Ok(result->Ok_0),
                        ));
                    } else {
                        assert(self.protocol_spec().from_request_post(
                            body@,
                            None,
                            Err(result->Err_0),
                        ));
                    }
                    assert(self.exchange_result(locator@, Some(wire@), result));
                }
                result
            },
        }
    }
}

} // verus!
