//! Internal failure kinds, the connector-agnostic error shape, and the total
//! mapping of both into client-facing API errors.
use vstd::prelude::*;

use crate::api_error_response::{ApiErrorResponse, NotImplementedMessage};

verus! {

/// A transport, protocol, capability or validation failure inside a
/// connector contract or the orchestrator.
#[derive(Clone, Debug, PartialEq, Eq)]
pub enum ConnectorError {
    FailedToObtainIntegrationUrl,
    RequestEncodingFailed,
    ParsingFailed,
    /// The body of a response with this status could not be decoded.
    ResponseDeserializationFailed { status_code: u16 },
    ResponseHandlingFailed,
    FailedToObtainAuthType,
    NoConnectorMetaData,
    NotImplemented(String),
    /// An instrument or option that the connector has no endpoint for; the
    /// message names both it and the connector.
    NotSupported { message: String, connector: &'static str, payment_experience: String },
    FlowNotSupported { flow: String, connector: String },
    CaptureMethodNotSupported,
    MissingConnectorMandateID,
    MissingConnectorTransactionID,
    MissingConnectorRefundID,
    MissingRequiredField { field_name: &'static str },
    InvalidDataFormat { field_name: &'static str },
    MismatchedPaymentData,
    WebhookSourceVerificationFailed,
    WebhookReferenceIdNotFound,
    WebhookEventTypeNotFound,
    WebhookResourceObjectNotFound,
    WebhookBodyDecodingFailed,
    WebhooksNotImplemented,
    ProcessingStepFailed,
    RequestTimeoutReceived,
    TransportFailed,
}

/// The connector-agnostic shape of an error that a connector returned.
#[derive(Clone, Debug, PartialEq, Eq)]
pub struct ErrorResponse {
    pub code: String,
    pub message: String,
    pub reason: Option<String>,
    pub status_code: u16,
}

pub open spec fn opt_view(o: Option<String>) -> Option<Seq<char>> {
    match o {
        Some(s) => Some(s@),
        None => None,
    }
}

/// `a + b` as a new string.
pub fn concat2(a: &str, b: &str) -> (r: String)
    ensures
        r@ == a@ + b@,
{
    let mut s = a.to_owned();
    s.append(b);
    s
}

/// `a + b + c` as a new string.
pub fn concat3(a: &str, b: &str, c: &str) -> (r: String)
    ensures
        r@ == a@ + b@ + c@,
{
    let mut s = a.to_owned();
    s.append(b);
    s.append(c);
    s
}

/// A copy of an optional string.
pub fn clone_opt(o: &Option<String>) -> (r: Option<String>)
    ensures
        r == *o,
{
    match o {
        Some(s) => Some(s.clone()),
        None => None,
    }
}

impl ErrorResponse {
    pub open spec fn is_not_implemented(self) -> bool {
        &&& self.code@ == "IR_00"@
        &&& self.message@ == "This API is under development and will be made available soon."@
        &&& self.reason is None
        &&& self.status_code == 500
    }

    /// The normalized error of a contract that does not decode error bodies.
    pub fn get_not_implemented() -> (r: ErrorResponse)
        ensures
            r.is_not_implemented(),
    {
        ErrorResponse {
            code: "IR_00".to_owned(),
            message: "This API is under development and will be made available soon.".to_owned(),
            reason: None,
            status_code: 500,
        }
    }

    /// The client-facing error for a connector's own error: its code, message
    /// and reason are kept verbatim.
    pub fn to_api_error(&self, connector: &str) -> (r: ApiErrorResponse)
        ensures
            r matches ApiErrorResponse::ExternalConnectorError {
                code,
                message,
                connector: c,
                status_code,
                reason,
            } && code@ == self.code@ && message@ == self.message@ && c@ == connector@
                && status_code == self.status_code && opt_view(reason) == opt_view(self.reason),
    {
        ApiErrorResponse::ExternalConnectorError {
            code: self.code.clone(),
            message: self.message.clone(),
            connector: connector.to_owned(),
            status_code: self.status_code,
            reason: clone_opt(&self.reason),
        }
    }
}

impl ConnectorError {
    /// Whether the error says that a capability is absent.
    pub open spec fn is_capability_absence(self) -> bool {
        ||| self is NotImplemented
        ||| self is NotSupported
        ||| self is FlowNotSupported
        ||| self is WebhooksNotImplemented
    }

    /// The client-facing error of each internal failure kind; the mapping is
    /// total and depends on the variant and its fields alone.
    pub open spec fn api_error_matches(self, r: ApiErrorResponse) -> bool {
        match self {
            ConnectorError::NotImplemented(reason) => r matches ApiErrorResponse::NotImplemented {
                message: NotImplementedMessage::Reason(m),
            } && m@ == reason@,
            ConnectorError::NotSupported { message, .. } => r matches ApiErrorResponse::NotSupported {
                message: m,
            } && m@ == message@,
            ConnectorError::FlowNotSupported { flow, connector } => r matches ApiErrorResponse::FlowNotSupported {
                flow: f,
                connector: c,
            } && f@ == flow@ && c@ == connector@,
            ConnectorError::WebhooksNotImplemented => r matches ApiErrorResponse::NotImplemented {
                message: NotImplementedMessage::Reason(m),
            } && m@ == "Webhooks"@,
            ConnectorError::CaptureMethodNotSupported => r matches ApiErrorResponse::NotSupported {
                message: m,
            } && m@ == "Capture Method Not Supported"@,
            ConnectorError::MissingRequiredField { field_name } => r matches ApiErrorResponse::MissingRequiredField {
                field_name: f,
            } && f@ == field_name@,
            ConnectorError::MissingConnectorTransactionID => r matches ApiErrorResponse::MissingRequiredField {
                field_name: f,
            } && f@ == "connector_transaction_id"@,
            ConnectorError::MissingConnectorRefundID => r matches ApiErrorResponse::MissingRequiredField {
                field_name: f,
            } && f@ == "connector_refund_id"@,
            ConnectorError::MissingConnectorMandateID => r matches ApiErrorResponse::MissingRequiredField {
                field_name: f,
            } && f@ == "connector_mandate_id"@,
            ConnectorError::InvalidDataFormat { field_name } => r matches ApiErrorResponse::InvalidDataValue {
                field_name: f,
            } && f@ == field_name@,
            ConnectorError::MismatchedPaymentData => r matches ApiErrorResponse::InvalidDataValue {
                field_name: f,
            } && f@ == "payment_method_data, payment_method_type and payment_experience does not match"@,
            ConnectorError::FailedToObtainAuthType => r matches ApiErrorResponse::InvalidDataFormat {
                field_name: f,
                expected_format: e,
            } && f@ == "connector_account_details"@ && e@ == "auth_type and api_key"@,
            ConnectorError::WebhookSourceVerificationFailed => r is WebhookAuthenticationFailed,
            ConnectorError::WebhookReferenceIdNotFound => r is WebhookResourceNotFound,
            ConnectorError::WebhookEventTypeNotFound => r is WebhookResourceNotFound,
            ConnectorError::WebhookResourceObjectNotFound => r is WebhookResourceNotFound,
            ConnectorError::WebhookBodyDecodingFailed => r is WebhookUnprocessableEntity,
            _ => r is InternalServerError,
        }
    }

    /// The client-facing error that this failure becomes at the boundary.
    pub fn to_api_error(&self) -> (r: ApiErrorResponse)
        ensures
            self.api_error_matches(r),
    {
        match self {
            ConnectorError::NotImplemented(reason) => ApiErrorResponse::NotImplemented {
                message: NotImplementedMessage::Reason(reason.clone()),
            },
            ConnectorError::NotSupported { message, .. } => ApiErrorResponse::NotSupported {
                message: message.clone(),
            },
            ConnectorError::FlowNotSupported { flow, connector } => ApiErrorResponse::FlowNotSupported {
                flow: flow.clone(),
                connector: connector.clone(),
            },
            ConnectorError::WebhooksNotImplemented => ApiErrorResponse::NotImplemented {
                message: NotImplementedMessage::Reason("Webhooks".to_owned()),
            },
            ConnectorError::CaptureMethodNotSupported => ApiErrorResponse::NotSupported {
                message: "Capture Method Not Supported".to_owned(),
            },
            ConnectorError::MissingRequiredField { field_name } => {
                ApiErrorResponse::MissingRequiredField { field_name: (*field_name).to_owned() }
            },
            ConnectorError::MissingConnectorTransactionID => ApiErrorResponse::MissingRequiredField {
                field_name: "connector_transaction_id".to_owned(),
            },
            ConnectorError::MissingConnectorRefundID => ApiErrorResponse::MissingRequiredField {
                field_name: "connector_refund_id".to_owned(),
            },
            ConnectorError::MissingConnectorMandateID => ApiErrorResponse::MissingRequiredField {
                field_name: "connector_mandate_id".to_owned(),
            },
            ConnectorError::InvalidDataFormat { field_name } => {
                ApiErrorResponse::InvalidDataValue { field_name: (*field_name).to_owned() }
            },
            ConnectorError::MismatchedPaymentData => ApiErrorResponse::InvalidDataValue {
                field_name: "payment_method_data, payment_method_type and payment_experience does not match".to_owned(),
            },
            ConnectorError::FailedToObtainAuthType => ApiErrorResponse::InvalidDataFormat {
                field_name: "connector_account_details".to_owned(),
                expected_format: "auth_type and api_key".to_owned(),
            },
            ConnectorError::WebhookSourceVerificationFailed => {
                ApiErrorResponse::WebhookAuthenticationFailed
            },
            ConnectorError::WebhookReferenceIdNotFound => ApiErrorResponse::WebhookResourceNotFound,
            ConnectorError::WebhookEventTypeNotFound => ApiErrorResponse::WebhookResourceNotFound,
            ConnectorError::WebhookResourceObjectNotFound => ApiErrorResponse::WebhookResourceNotFound,
            ConnectorError::WebhookBodyDecodingFailed => ApiErrorResponse::WebhookUnprocessableEntity,
            _ => ApiErrorResponse::InternalServerError,
        }
    }
}

/// Every internal failure has exactly one client-facing form: any two API
/// errors that the mapping allows for it agree on type, code, message,
/// response kind, number and client message; a failure that says a
/// capability is absent becomes a "not implemented" or "not supported" error.
pub proof fn lemma_connector_error_mapping_unique(
    e: ConnectorError,
    r1: ApiErrorResponse,
    r2: ApiErrorResponse,
)
    requires
        e.api_error_matches(r1),
        e.api_error_matches(r2),
    ensures
        r1.spec_error_type() == r2.spec_error_type(),
        r1.spec_error_code() == r2.spec_error_code(),
        r1.spec_error_message() == r2.spec_error_message(),
        r1.spec_switch_code() == r2.spec_switch_code(),
        r1.spec_switch_message() == r2.spec_switch_message(),
        e.is_capability_absence() ==> (r1 is NotImplemented || r1 is NotSupported
            || r1 is FlowNotSupported),
{
}

} // verus!
