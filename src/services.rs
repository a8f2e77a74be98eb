//! The transport-facing shapes: the outbound request description handed to
//! the HTTP client, and the response it hands back, with its body decoded
//! against the schema that the flow expects.
use vstd::prelude::*;

use crate::transformers::{
    DummyConnectorErrorResponse, DummyConnectorPaymentsRequest, DummyConnectorRefundRequest,
    PaymentsResponse, RefundResponse,
};

verus! {

#[derive(Clone, Copy, Debug, PartialEq, Eq, Structural)]
pub enum Method {
    Get,
    Post,
    Put,
    Delete,
}

/// The payload of an outbound request, before it is encoded as JSON.
#[derive(Clone, Debug, PartialEq, Eq)]
pub enum RequestBody {
    Payment(DummyConnectorPaymentsRequest),
    Refund(DummyConnectorRefundRequest),
}

/// One outbound transport call.
#[derive(Clone, Debug, PartialEq, Eq)]
pub struct Request {
    pub method: Method,
    pub url: String,
    pub headers: Vec<(String, String)>,
    pub body: Option<RequestBody>,
}

pub open spec fn headers_view(h: Seq<(String, String)>) -> Seq<(Seq<char>, Seq<char>)> {
    h.map_values(|p: (String, String)| (p.0@, p.1@))
}

/// Viewing headers commutes with putting two lists together.
pub proof fn lemma_headers_view_concat(a: Seq<(String, String)>, b: Seq<(String, String)>)
    ensures
        headers_view(a + b) == headers_view(a) + headers_view(b),
{
    assert(headers_view(a + b) =~= headers_view(a) + headers_view(b));
}

impl Request {
    /// The request as method, URL, headers and body.
    pub open spec fn model(self) -> (Method, Seq<char>, Seq<(Seq<char>, Seq<char>)>, Option<RequestBody>) {
        (self.method, self.url@, headers_view(self.headers@), self.body)
    }
}

/// The schema that a response body is expected to follow.
#[derive(Clone, Copy, Debug, PartialEq, Eq, Structural)]
pub enum ResponseSchema {
    Payment,
    Refund,
    Error,
}

/// A response body, decoded against the schema that was expected of it.
#[derive(Clone, Debug, PartialEq, Eq)]
pub enum ResponsePayload {
    Payment(PaymentsResponse),
    Refund(RefundResponse),
    Error(DummyConnectorErrorResponse),
    /// The body did not follow the expected schema.
    Undecodable,
}

/// A transport response: its status and its decoded body.
#[derive(Clone, Debug, PartialEq, Eq)]
pub struct Response {
    pub status_code: u16,
    pub payload: ResponsePayload,
}

pub open spec fn spec_is_success_status(status_code: u16) -> bool {
    200 <= status_code && status_code < 300
}

impl Response {
    /// Whether the status is a 2xx success.
    pub fn is_success(&self) -> (r: bool)
        ensures
            r == spec_is_success_status(self.status_code),
    {
        200 <= self.status_code && self.status_code < 300
    }
}

/// The headers that every outbound request carries.
pub fn attach_default_headers() -> (r: Vec<(String, String)>)
    ensures
        headers_view(r@) == seq![("Via"@, "HyperSwitch"@)],
{
    let r = vec![("Via".to_owned(), "HyperSwitch".to_owned())];
    proof {
        assert(headers_view(r@) =~= seq![("Via"@, "HyperSwitch"@)]);
    }
    r
}

} // verus!
