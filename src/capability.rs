//! Capability registration: for every flow, what a connector that does not
//! provide it gets instead. A connector declares which flows it provides; each
//! other flow runs the shared default below, with the same call shape.
use vstd::prelude::*;

use crate::errors::{ConnectorError, ErrorResponse};
use crate::types::Flow;

verus! {

/// Whether a connector provides its own contract for a flow.
#[derive(Clone, Copy, Debug, PartialEq, Eq, Structural)]
pub enum Integration {
    Custom,
    Default,
}

/// What the shared default does for a flow that a connector does not provide.
#[derive(Clone, Copy, Debug, PartialEq, Eq, Structural)]
pub enum AbsencePolicy {
    /// The flow is a valid no-op: no transport request, the attempt unchanged.
    NoOp,
    /// The flow fails with `NotImplemented`.
    NotImplemented,
}

pub open spec fn spec_absence_policy(flow: Flow) -> AbsencePolicy {
    match flow {
        Flow::Void | Flow::Session | Flow::AccessTokenAuth | Flow::Verify
        | Flow::PaymentMethodToken | Flow::CreateConnectorCustomer
        | Flow::PreProcessing => AbsencePolicy::NoOp,
        _ => AbsencePolicy::NotImplemented,
    }
}

/// The registered meaning of a flow's absence. Pre-steps, sessions, token
/// acquisition, verification and void are optional and skip; every other flow
/// fails closed. Verification is a zero-amount check of an instrument ahead of
/// a later payment: a connector without it makes no such check, and the
/// payment itself still goes through its own flow, so skipping loses nothing
/// that a failure would protect.
pub fn absence_policy(flow: Flow) -> (r: AbsencePolicy)
    ensures
        r == spec_absence_policy(flow),
{
    match flow {
        Flow::Void | Flow::Session | Flow::AccessTokenAuth | Flow::Verify
        | Flow::PaymentMethodToken | Flow::CreateConnectorCustomer
        | Flow::PreProcessing => AbsencePolicy::NoOp,
        _ => AbsencePolicy::NotImplemented,
    }
}

pub open spec fn is_not_implemented_with(e: ConnectorError, what: Seq<char>) -> bool {
    e matches ConnectorError::NotImplemented(m) && m@ == what
}

/// The default content type.
pub fn default_content_type() -> (r: &'static str)
    ensures
        r@ == "application/json"@,
{
    "application/json"
}

/// The default headers: none.
pub fn default_headers() -> (r: Vec<(String, String)>)
    ensures
        r@.len() == 0,
{
    Vec::new()
}

/// The default URL builder: there is no endpoint.
pub fn default_url() -> (r: ConnectorError)
    ensures
        is_not_implemented_with(r, "get_url method"@),
{
    ConnectorError::NotImplemented("get_url method".to_owned())
}

/// The default request builder: no transport request for a no-op flow, else
/// the failure of the missing URL.
pub fn default_build_request(flow: Flow) -> (r: Result<(), ConnectorError>)
    ensures
        spec_absence_policy(flow) == AbsencePolicy::NoOp <==> r is Ok,
        r matches Err(e) ==> is_not_implemented_with(e, "get_url method"@),
{
    match absence_policy(flow) {
        AbsencePolicy::NoOp => Ok(()),
        AbsencePolicy::NotImplemented => Err(default_url()),
    }
}

/// The default response decoder: leaves the attempt as it is for a no-op
/// flow, else fails.
pub fn default_handle_response(flow: Flow) -> (r: Result<(), ConnectorError>)
    ensures
        spec_absence_policy(flow) == AbsencePolicy::NoOp <==> r is Ok,
        r matches Err(e) ==> is_not_implemented_with(e, "handle_response method"@),
{
    match absence_policy(flow) {
        AbsencePolicy::NoOp => Ok(()),
        AbsencePolicy::NotImplemented => Err(
            ConnectorError::NotImplemented("handle_response method".to_owned()),
        ),
    }
}

/// The default error decoder: the normalized "not implemented" error.
pub fn default_error_response() -> (r: ErrorResponse)
    ensures
        r.is_not_implemented(),
{
    ErrorResponse::get_not_implemented()
}

} // verus!
