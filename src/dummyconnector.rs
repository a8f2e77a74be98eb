//! A minimal, fully wired connector. It provides authorize, sync, capture,
//! refund and refund sync itself; every other flow falls to the shared
//! defaults. The tag `T` gives four identities that share one implementation.
use vstd::prelude::*;

use crate::capability::{
    default_build_request, default_content_type, default_error_response, default_handle_response,
    default_headers, default_url, is_not_implemented_with, spec_absence_policy, AbsencePolicy,
    Integration,
};
use crate::errors::{concat2, concat3, ConnectorError, ErrorResponse};
use crate::services::{
    attach_default_headers, headers_view, lemma_headers_view_concat, spec_is_success_status, Method,
    Request, RequestBody, Response, ResponsePayload, ResponseSchema,
};
use crate::transformers::{
    payments_request_error, spec_payments_request, DummyConnectorAuthType,
    DummyConnectorPaymentsRequest, DummyConnectorRefundRequest,
};
use crate::flows::{CallConnectorAction, PaymentAction};
use crate::types::{
    ConnectorAuthType, Connectors, Flow, FlowRequest, FlowResponse, IncomingWebhookEvent,
    IncomingWebhookRequestDetails, ObjectReferenceId, PaymentExperience, PaymentMethodData,
    PaymentsResponseData, RefundsResponseData, ResponseId, RouterData,
};

verus! {

#[derive(Clone, Copy, Debug)]
pub struct DummyConnector<const T: u8>;

/// A list of headers, as names and values.
pub type HeadersModel = Seq<(Seq<char>, Seq<char>)>;

/// An outbound request, as method, URL, headers and body.
pub type RequestModel = (Method, Seq<char>, HeadersModel, Option<RequestBody>);

impl<const T: u8> DummyConnector<T> {
    pub open spec fn spec_id() -> Seq<char> {
        if T == 1 {
            "dummyconnector1"@
        } else if T == 2 {
            "dummyconnector2"@
        } else if T == 3 {
            "dummyconnector3"@
        } else {
            "dummyconnector"@
        }
    }

    /// The connector's name, which tells the four identities apart.
    pub fn id(&self) -> (r: &'static str)
        ensures
            r@ == Self::spec_id(),
    {
        if T == 1 {
            "dummyconnector1"
        } else if T == 2 {
            "dummyconnector2"
        } else if T == 3 {
            "dummyconnector3"
        } else {
            "dummyconnector"
        }
    }

    pub fn common_get_content_type(&self) -> (r: &'static str)
        ensures
            r@ == "application/json"@,
    {
        "application/json"
    }

    pub fn base_url<'a>(&self, connectors: &'a Connectors) -> (r: &'a str)
        ensures
            r@ == connectors.dummyconnector.base_url@,
    {
        connectors.dummyconnector.base_url.as_str()
    }

    pub open spec fn spec_integration(flow: Flow) -> Integration {
        match flow {
            Flow::Authorize | Flow::PSync | Flow::Capture | Flow::RefundExecute
            | Flow::RefundSync => Integration::Custom,
            _ => Integration::Default,
        }
    }

    /// The flows that this connector provides itself.
    pub fn integration(&self, flow: Flow) -> (r: Integration)
        ensures
            r == Self::spec_integration(flow),
    {
        match flow {
            Flow::Authorize | Flow::PSync | Flow::Capture | Flow::RefundExecute
            | Flow::RefundSync => Integration::Custom,
            _ => Integration::Default,
        }
    }

    pub open spec fn spec_auth_headers(auth: ConnectorAuthType) -> Option<HeadersModel> {
        match auth {
            ConnectorAuthType::HeaderKey { api_key } => Some(seq![("Authorization"@, api_key@)]),
            _ => None,
        }
    }

    /// The authentication header, from a header-key credential.
    pub fn get_auth_header(&self, auth: &ConnectorAuthType) -> (r: Result<Vec<(String, String)>, ConnectorError>)
        ensures
            match r {
                Ok(v) => Self::spec_auth_headers(*auth) == Some(headers_view(v@)),
                Err(e) => Self::spec_auth_headers(*auth) is None && e
                    == ConnectorError::FailedToObtainAuthType,
            },
    {
        let auth = DummyConnectorAuthType::try_from(auth)?;
        let v = vec![("Authorization".to_owned(), auth.api_key)];
        proof {
            assert(headers_view(v@) =~= seq![("Authorization"@, auth.api_key@)]);
        }
        Ok(v)
    }

    pub open spec fn spec_common_headers(auth: ConnectorAuthType) -> Option<HeadersModel> {
        match Self::spec_auth_headers(auth) {
            Some(h) => Some(seq![("Content-Type"@, "application/json"@)] + h),
            None => None,
        }
    }

    /// The content type followed by the authentication header.
    pub fn build_headers(&self, req: &RouterData, connectors: &Connectors) -> (r: Result<
        Vec<(String, String)>,
        ConnectorError,
    >)
        ensures
            match r {
                Ok(v) => Self::spec_common_headers(req.connector_auth_type) == Some(
                    headers_view(v@),
                ),
                Err(e) => Self::spec_common_headers(req.connector_auth_type) is None && e
                    == ConnectorError::FailedToObtainAuthType,
            },
    {
        let mut header = vec![
            ("Content-Type".to_owned(), self.common_get_content_type().to_owned()),
        ];
        proof {
            assert(headers_view(header@) =~= seq![("Content-Type"@, "application/json"@)]);
        }
        let mut api_key = self.get_auth_header(&req.connector_auth_type)?;
        proof {
            lemma_headers_view_concat(header@, api_key@);
        }
        header.append(&mut api_key);
        Ok(header)
    }

    pub open spec fn spec_headers(req: RouterData) -> Option<HeadersModel> {
        match Self::spec_integration(req.spec_flow()) {
            Integration::Custom => Self::spec_common_headers(req.connector_auth_type),
            Integration::Default => Some(seq![]),
        }
    }

    /// The headers of the attempt's flow.
    pub fn get_headers(&self, req: &RouterData, connectors: &Connectors) -> (r: Result<
        Vec<(String, String)>,
        ConnectorError,
    >)
        ensures
            match r {
                Ok(v) => Self::spec_headers(*req) == Some(headers_view(v@)),
                Err(e) => Self::spec_headers(*req) is None && e
                    == ConnectorError::FailedToObtainAuthType,
            },
    {
        match self.integration(req.request.flow()) {
            Integration::Custom => self.build_headers(req, connectors),
            Integration::Default => {
                let v = default_headers();
                proof {
                    assert(headers_view(v@) =~= seq![]);
                }
                Ok(v)
            },
        }
    }

    /// The content type of the flow's request body.
    pub fn get_content_type(&self, flow: Flow) -> (r: &'static str)
        ensures
            r@ == "application/json"@,
    {
        match self.integration(flow) {
            Integration::Custom => self.common_get_content_type(),
            Integration::Default => default_content_type(),
        }
    }

    pub open spec fn spec_url(req: RouterData, base: Seq<char>) -> Option<Seq<char>> {
        match req.request {
            FlowRequest::Authorize(d) => if d.payment_method_type is Some
                && d.payment_method_data is Card {
                Some(base + "/payment"@)
            } else {
                None
            },
            FlowRequest::PSync(d) => match d.connector_transaction_id {
                ResponseId::ConnectorTransactionId(id) => if id@.len() > 0 {
                    Some(base + "/payments/"@ + id@)
                } else {
                    None
                },
                _ => None,
            },
            FlowRequest::RefundExecute(d) => if d.connector_transaction_id@.len() > 0 {
                Some(base + "/"@ + d.connector_transaction_id@ + "/refund"@)
            } else {
                None
            },
            FlowRequest::RefundSync(d) => match d.connector_refund_id {
                Some(id) => if id@.len() > 0 {
                    Some(base + "/refunds/"@ + id@)
                } else {
                    None
                },
                None => None,
            },
            _ => None,
        }
    }

    /// The failure of building the URL, where it fails.
    pub open spec fn url_error(req: RouterData, e: ConnectorError) -> bool {
        match req.request {
            FlowRequest::Authorize(d) => match d.payment_method_type {
                None => e == ConnectorError::MissingRequiredField {
                    field_name: "payment_method_type",
                },
                Some(t) => e matches ConnectorError::NotSupported {
                    message,
                    connector,
                    payment_experience,
                } && message@ == "The payment method "@ + t.spec_name() + " is not supported by "@
                    + "dummyconnector"@ && connector@ == "dummyconnector"@ && payment_experience@
                    == "redirect_to_url"@,
            },
            FlowRequest::PSync(_) => e == ConnectorError::MissingConnectorTransactionID,
            FlowRequest::RefundExecute(_) => e == ConnectorError::MissingConnectorTransactionID,
            FlowRequest::RefundSync(_) => e == ConnectorError::MissingConnectorRefundID,
            _ => is_not_implemented_with(e, "get_url method"@),
        }
    }

    /// The endpoint of the attempt's flow. Authorization has an endpoint for
    /// cards only, and for any other instrument fails with a message that names
    /// the instrument type and the connector; the upstream ids that sync and refund name must be present.
    pub fn get_url(&self, req: &RouterData, connectors: &Connectors) -> (r: Result<
        String,
        ConnectorError,
    >)
        ensures
            match r {
                Ok(u) => Self::spec_url(*req, connectors.dummyconnector.base_url@) == Some(u@),
                Err(e) => Self::spec_url(*req, connectors.dummyconnector.base_url@) is None
                    && Self::url_error(*req, e),
            },
    {
        match &req.request {
            FlowRequest::Authorize(d) => {
                let payment_method_type = d.get_payment_method_type()?;
                match &d.payment_method_data {
                    PaymentMethodData::Card(_) => Ok(concat2(self.base_url(connectors), "/payment")),
                    _ => {
                        let mut message = concat3(
                            "The payment method ",
                            payment_method_type.name(),
                            " is not supported by ",
                        );
                        message.append("dummyconnector");
                        Err(
                        ConnectorError::NotSupported {
                            message,
                            connector: "dummyconnector",
                            payment_experience: PaymentExperience::RedirectToUrl.name().to_owned(),
                        },
                        )
                    },
                }
            },
            FlowRequest::PSync(d) => {
                let transaction_id = d.connector_transaction_id.get_connector_transaction_id()?;
                Ok(concat3(self.base_url(connectors), "/payments/", transaction_id.as_str()))
            },
            FlowRequest::RefundExecute(d) => {
                if d.connector_transaction_id.as_str().unicode_len() == 0 {
                    return Err(ConnectorError::MissingConnectorTransactionID);
                }
                let mut url = concat3(
                    self.base_url(connectors),
                    "/",
                    d.connector_transaction_id.as_str(),
                );
                url.append("/refund");
                Ok(url)
            },
            FlowRequest::RefundSync(d) => {
                let refund_id = d.get_connector_refund_id()?;
                Ok(concat3(self.base_url(connectors), "/refunds/", refund_id.as_str()))
            },
            _ => Err(default_url()),
        }
    }

    pub open spec fn spec_body(req: RouterData) -> Option<Option<RequestBody>> {
        match req.request {
            FlowRequest::Authorize(d) => match spec_payments_request(d) {
                Some(p) => Some(Some(RequestBody::Payment(p))),
                None => None,
            },
            FlowRequest::Capture(_) => None,
            FlowRequest::RefundExecute(d) => Some(
                Some(RequestBody::Refund(DummyConnectorRefundRequest { amount: d.refund_amount })),
            ),
            _ => Some(None),
        }
    }

    /// The failure of building the body, where it fails.
    pub open spec fn body_error(req: RouterData, e: ConnectorError) -> bool {
        match req.request {
            FlowRequest::Authorize(d) => payments_request_error(d, e),
            _ => is_not_implemented_with(e, "get_request_body method"@),
        }
    }

    /// The wire payload of the attempt's flow, if the flow sends one.
    pub fn get_request_body(&self, req: &RouterData) -> (r: Result<Option<RequestBody>, ConnectorError>)
        ensures
            match r {
                Ok(b) => Self::spec_body(*req) == Some(b),
                Err(e) => Self::spec_body(*req) is None && Self::body_error(*req, e),
            },
    {
        match &req.request {
            FlowRequest::Authorize(d) => {
                let p = DummyConnectorPaymentsRequest::try_from(d)?;
                Ok(Some(RequestBody::Payment(p)))
            },
            FlowRequest::Capture(_) => Err(
                ConnectorError::NotImplemented("get_request_body method".to_owned()),
            ),
            FlowRequest::RefundExecute(d) => Ok(
                Some(RequestBody::Refund(DummyConnectorRefundRequest::try_from(d))),
            ),
            _ => Ok(None),
        }
    }

    pub open spec fn spec_method(flow: Flow) -> Method {
        match flow {
            Flow::PSync | Flow::RefundSync => Method::Get,
            _ => Method::Post,
        }
    }

    pub open spec fn sends_body(flow: Flow) -> bool {
        !(flow == Flow::PSync || flow == Flow::Capture)
    }

    /// The outbound request of the attempt: `Some(None)` where the flow makes
    /// no transport call, `None` where building fails.
    pub open spec fn spec_build(req: RouterData, base: Seq<char>) -> Option<Option<RequestModel>> {
        let flow = req.spec_flow();
        match Self::spec_integration(flow) {
            Integration::Default => if spec_absence_policy(flow) == AbsencePolicy::NoOp {
                Some(None)
            } else {
                None
            },
            Integration::Custom => match (Self::spec_url(req, base), Self::spec_headers(req)) {
                (Some(u), Some(h)) => {
                    let hs = seq![("Via"@, "HyperSwitch"@)] + h;
                    if Self::sends_body(flow) {
                        match Self::spec_body(req) {
                            Some(b) => Some(Some((Self::spec_method(flow), u, hs, b))),
                            None => None,
                        }
                    } else {
                        Some(Some((Self::spec_method(flow), u, hs, None)))
                    }
                },
                _ => None,
            },
        }
    }

    /// The failure of building the request: that of the URL, else of the
    /// headers, else of the body.
    pub open spec fn build_error(req: RouterData, base: Seq<char>, e: ConnectorError) -> bool {
        match Self::spec_integration(req.spec_flow()) {
            Integration::Default => is_not_implemented_with(e, "get_url method"@),
            Integration::Custom => if Self::spec_url(req, base) is None {
                Self::url_error(req, e)
            } else if Self::spec_headers(req) is None {
                e == ConnectorError::FailedToObtainAuthType
            } else {
                Self::body_error(req, e)
            },
        }
    }

    /// The transport request of the attempt's flow: method, URL, the default
    /// headers followed by the flow's headers, and the body.
    pub fn build_request(&self, req: &RouterData, connectors: &Connectors) -> (r: Result<
        Option<Request>,
        ConnectorError,
    >)
        ensures
            match r {
                Ok(None) => Self::spec_build(*req, connectors.dummyconnector.base_url@) == Some(
                    None::<RequestModel>,
                ),
                Ok(Some(q)) => Self::spec_build(*req, connectors.dummyconnector.base_url@)
                    == Some(Some(q.model())),
                Err(e) => Self::spec_build(*req, connectors.dummyconnector.base_url@) is None
                    && Self::build_error(*req, connectors.dummyconnector.base_url@, e),
            },
    {
        let flow = req.request.flow();
        match self.integration(flow) {
            Integration::Default => {
                default_build_request(flow)?;
                Ok(None)
            },
            Integration::Custom => {
                let url = self.get_url(req, connectors)?;
                let mut headers = attach_default_headers();
                let mut flow_headers = self.get_headers(req, connectors)?;
                proof {
                    lemma_headers_view_concat(headers@, flow_headers@);
                }
                headers.append(&mut flow_headers);
                let body = match flow {
                    Flow::PSync | Flow::Capture => None,
                    _ => self.get_request_body(req)?,
                };
                let method = match flow {
                    Flow::PSync | Flow::RefundSync => Method::Get,
                    _ => Method::Post,
                };
                Ok(Some(Request { method, url, headers, body }))
            },
        }
    }

    /// The attempt after a success response has been decoded, or `None` where
    /// it cannot be.
    pub open spec fn spec_handle(data: RouterData, res: Response) -> Option<RouterData> {
        let flow = data.spec_flow();
        match Self::spec_integration(flow) {
            Integration::Default => if spec_absence_policy(flow) == AbsencePolicy::NoOp {
                Some(data)
            } else {
                None
            },
            Integration::Custom => match flow {
                Flow::RefundExecute | Flow::RefundSync => match res.payload {
                    ResponsePayload::Refund(r) => Some(
                        RouterData {
                            response: Some(
                                Ok(
                                    FlowResponse::Refunds(
                                        RefundsResponseData {
                                            connector_refund_id: r.id,
                                            refund_status: r.status.spec_refund_status(),
                                        },
                                    ),
                                ),
                            ),
                            ..data
                        },
                    ),
                    _ => None,
                },
                _ => match res.payload {
                    ResponsePayload::Payment(p) => Some(
                        RouterData {
                            status: p.status.spec_attempt_status(),
                            response: Some(
                                Ok(
                                    FlowResponse::Payments(
                                        PaymentsResponseData::TransactionResponse {
                                            resource_id: ResponseId::ConnectorTransactionId(p.id),
                                        },
                                    ),
                                ),
                            ),
                            ..data
                        },
                    ),
                    _ => None,
                },
            },
        }
    }

    pub open spec fn handle_error(data: RouterData, res: Response, e: ConnectorError) -> bool {
        match Self::spec_integration(data.spec_flow()) {
            Integration::Default => is_not_implemented_with(e, "handle_response method"@),
            Integration::Custom => e == ConnectorError::ResponseDeserializationFailed {
                status_code: res.status_code,
            },
        }
    }

    /// Decodes a success response into the attempt: the reported status and
    /// the upstream id for payments, the refund id and status for refunds. On
    /// failure the attempt is left as it was.
    pub fn handle_response(&self, data: &mut RouterData, res: Response) -> (r: Result<
        (),
        ConnectorError,
    >)
        ensures
            match r {
                Ok(()) => Self::spec_handle(*old(data), res) == Some(*final(data)),
                Err(e) => Self::spec_handle(*old(data), res) is None && *final(data) == *old(data)
                    && Self::handle_error(*old(data), res, e),
            },
    {
        let flow = data.request.flow();
        match self.integration(flow) {
            Integration::Default => default_handle_response(flow),
            Integration::Custom => {
                let status_code = res.status_code;
                match flow {
                    Flow::RefundExecute | Flow::RefundSync => match res.payload {
                        ResponsePayload::Refund(r) => {
                            let refund_status = r.status.refund_status();
                            data.response = Some(
                                Ok(
                                    FlowResponse::Refunds(
                                        RefundsResponseData {
                                            connector_refund_id: r.id,
                                            refund_status,
                                        },
                                    ),
                                ),
                            );
                            Ok(())
                        },
                        _ => Err(ConnectorError::ResponseDeserializationFailed { status_code }),
                    },
                    _ => match res.payload {
                        ResponsePayload::Payment(p) => {
                            data.status = p.status.attempt_status();
                            data.response = Some(
                                Ok(
                                    FlowResponse::Payments(
                                        PaymentsResponseData::TransactionResponse {
                                            resource_id: ResponseId::ConnectorTransactionId(p.id),
                                        },
                                    ),
                                ),
                            );
                            Ok(())
                        },
                        _ => Err(ConnectorError::ResponseDeserializationFailed { status_code }),
                    },
                }
            },
        }
    }

    /// Decodes the connector's error body into the normalized error, keeping
    /// the response's status.
    pub fn build_error_response(&self, res: Response) -> (r: Result<ErrorResponse, ConnectorError>)
        ensures
            match res.payload {
                ResponsePayload::Error(b) => r == Ok::<ErrorResponse, ConnectorError>(
                    ErrorResponse {
                        code: b.error.code,
                        message: b.error.message,
                        reason: b.error.reason,
                        status_code: res.status_code,
                    },
                ),
                _ => r == Err::<ErrorResponse, ConnectorError>(
                    ConnectorError::ResponseDeserializationFailed { status_code: res.status_code },
                ),
            },
    {
        let status_code = res.status_code;
        match res.payload {
            ResponsePayload::Error(b) => Ok(
                ErrorResponse {
                    code: b.error.code,
                    message: b.error.message,
                    reason: b.error.reason,
                    status_code,
                },
            ),
            _ => Err(ConnectorError::ResponseDeserializationFailed { status_code }),
        }
    }

    /// The error decoder of a flow: the connector's own for the flows it
    /// provides, else the shared default.
    pub fn get_error_response(&self, flow: Flow, res: Response) -> (r: Result<
        ErrorResponse,
        ConnectorError,
    >)
        ensures
            Self::spec_integration(flow) == Integration::Default ==> (r matches Ok(x)
                && x.is_not_implemented()),
            Self::spec_integration(flow) == Integration::Custom ==> match res.payload {
                ResponsePayload::Error(b) => r == Ok::<ErrorResponse, ConnectorError>(
                    ErrorResponse {
                        code: b.error.code,
                        message: b.error.message,
                        reason: b.error.reason,
                        status_code: res.status_code,
                    },
                ),
                _ => r == Err::<ErrorResponse, ConnectorError>(
                    ConnectorError::ResponseDeserializationFailed { status_code: res.status_code },
                ),
            },
    {
        match self.integration(flow) {
            Integration::Custom => self.build_error_response(res),
            Integration::Default => Ok(default_error_response()),
        }
    }

    /// Webhooks are not provided: the reference id cannot be read.
    pub fn get_webhook_object_reference_id(&self, _request: &IncomingWebhookRequestDetails) -> (r:
        Result<ObjectReferenceId, ConnectorError>)
        ensures
            r == Err::<ObjectReferenceId, ConnectorError>(ConnectorError::WebhooksNotImplemented),
    {
        Err(ConnectorError::WebhooksNotImplemented)
    }

    /// Webhooks are not provided: the event type cannot be read.
    pub fn get_webhook_event_type(&self, _request: &IncomingWebhookRequestDetails) -> (r: Result<
        IncomingWebhookEvent,
        ConnectorError,
    >)
        ensures
            r == Err::<IncomingWebhookEvent, ConnectorError>(ConnectorError::WebhooksNotImplemented),
    {
        Err(ConnectorError::WebhooksNotImplemented)
    }

    /// Webhooks are not provided: the resource payload cannot be read.
    pub fn get_webhook_resource_object(&self, _request: &IncomingWebhookRequestDetails) -> (r:
        Result<serde_json::Value, ConnectorError>)
        ensures
            r == Err::<serde_json::Value, ConnectorError>(ConnectorError::WebhooksNotImplemented),
    {
        Err(ConnectorError::WebhooksNotImplemented)
    }

    /// Redirect callbacks are not classified: the main call is always made.
    pub fn get_flow_type(
        &self,
        _query_params: &str,
        _json_payload: Option<serde_json::Value>,
        _action: PaymentAction,
    ) -> (r: Result<CallConnectorAction, ConnectorError>)
        ensures
            r == Ok::<CallConnectorAction, ConnectorError>(CallConnectorAction::Trigger),
    {
        Ok(CallConnectorAction::Trigger)
    }

    pub open spec fn spec_response_schema(flow: Flow, status_code: u16) -> Option<ResponseSchema> {
        if !spec_is_success_status(status_code) {
            Some(ResponseSchema::Error)
        } else {
            match flow {
                Flow::Authorize | Flow::PSync | Flow::Capture => Some(ResponseSchema::Payment),
                Flow::RefundExecute | Flow::RefundSync => Some(ResponseSchema::Refund),
                _ => None,
            }
        }
    }

    /// The schema that a response body to the flow is decoded against: the
    /// error schema for a non-2xx status, else the flow's success schema.
    pub fn response_schema(&self, flow: Flow, status_code: u16) -> (r: Option<ResponseSchema>)
        ensures
            r == Self::spec_response_schema(flow, status_code),
    {
        if !(200 <= status_code && status_code < 300) {
            Some(ResponseSchema::Error)
        } else {
            match flow {
                Flow::Authorize | Flow::PSync | Flow::Capture => Some(ResponseSchema::Payment),
                Flow::RefundExecute | Flow::RefundSync => Some(ResponseSchema::Refund),
                _ => None,
            }
        }
    }
}

/// A flow that the connector does not provide, and whose absence is not a
/// registered no-op, fails on every attempt with `NotImplemented`: building
/// its request fails, and so does decoding a response to it; neither yields
/// an empty success.
pub proof fn lemma_absent_flow_not_implemented<const T: u8>(
    req: RouterData,
    base: Seq<char>,
    res: Response,
)
    requires
        DummyConnector::<T>::spec_integration(req.spec_flow()) == Integration::Default,
        spec_absence_policy(req.spec_flow()) == AbsencePolicy::NotImplemented,
    ensures
        DummyConnector::<T>::spec_build(req, base) is None,
        forall|e: ConnectorError|
            DummyConnector::<T>::build_error(req, base, e) ==> is_not_implemented_with(
                e,
                "get_url method"@,
            ),
        DummyConnector::<T>::spec_handle(req, res) is None,
        forall|e: ConnectorError|
            DummyConnector::<T>::handle_error(req, res, e) ==> is_not_implemented_with(
                e,
                "handle_response method"@,
            ),
{
}

} // verus!
