//! The client-facing error taxonomy: every failure that reaches a client is
//! one of these kinds, each with a class, a code, a message and an HTTP status.
use vstd::prelude::*;

use crate::errors::{clone_opt, concat2, opt_view};

verus! {

#[verifier::external_type_specification]
#[verifier::external_body]
pub struct ExJsonValue(serde_json::Value);

/// Relies on `http::StatusCode::from_u16`, which accepts exactly the codes
/// from 100 to 999.
#[verifier::external_body]
fn is_valid_status_code(code: u16) -> (r: bool)
    ensures
        r == (100 <= code && code < 1000),
{
    http::StatusCode::from_u16(code).is_ok()
}

/// Relies on the `Clone` that `serde_json::Value` derives: a structural copy.
#[verifier::external_body]
fn clone_json(v: &Option<serde_json::Value>) -> (r: Option<serde_json::Value>)
    ensures
        r == *v,
{
    v.clone()
}

/// Relies on `serde_json::Value::from` on a `Vec`, which builds a JSON array of
/// the strings.
#[verifier::external_body]
fn json_string_array(names: &Vec<String>) -> (r: serde_json::Value) {
    serde_json::Value::from(names.clone())
}

pub open spec fn spec_status_or_internal(code: u16) -> u16 {
    if 100 <= code && code < 1000 {
        code
    } else {
        500
    }
}

/// The status itself where it is a valid HTTP status, else 500.
pub fn status_or_internal(code: u16) -> (r: u16)
    ensures
        r == spec_status_or_internal(code),
{
    if is_valid_status_code(code) {
        code
    } else {
        500
    }
}

#[derive(Clone, Copy, Debug, PartialEq, Eq, Structural)]
pub enum ErrorType {
    InvalidRequestError,
    ObjectNotFound,
    RouterError,
    ProcessingError,
    BadGateway,
    ServerNotAvailable,
    DuplicateRequest,
    ValidationError,
    ConnectorError,
}

#[derive(Clone, Debug, PartialEq, Eq)]
pub enum NotImplementedMessage {
    Reason(String),
    Default,
}

impl NotImplementedMessage {
    pub open spec fn spec_message(&self) -> Seq<char> {
        match self {
            NotImplementedMessage::Reason(m) => m@ + " is not implemented"@,
            NotImplementedMessage::Default => "This API is under development and will be made available soon."@,
        }
    }

    /// What is not implemented, in words.
    pub fn message(&self) -> (r: String)
        ensures
            r@ == self.spec_message(),
    {
        match self {
            NotImplementedMessage::Reason(m) => {
                let mut s = m.clone();
                s.append(" is not implemented");
                s
            },
            NotImplementedMessage::Default => {
                "This API is under development and will be made available soon.".to_owned()
            },
        }
    }
}

/// The kind of response that a client receives, which fixes its status.
#[derive(Clone, Copy, Debug, PartialEq, Eq, Structural)]
pub enum ClientErrorKind {
    BadRequest,
    Unauthorized,
    ForbiddenCommonResource,
    NotFound,
    MethodNotAllowed,
    Unprocessable,
    InternalServerError,
    NotImplemented,
    /// An upstream connector's error, under its own status.
    ConnectorError(u16),
}

impl ClientErrorKind {
    pub open spec fn spec_status(self) -> u16 {
        match self {
            ClientErrorKind::BadRequest => 400,
            ClientErrorKind::Unauthorized => 401,
            ClientErrorKind::ForbiddenCommonResource => 403,
            ClientErrorKind::NotFound => 404,
            ClientErrorKind::MethodNotAllowed => 405,
            ClientErrorKind::Unprocessable => 422,
            ClientErrorKind::InternalServerError => 500,
            ClientErrorKind::NotImplemented => 501,
            ClientErrorKind::ConnectorError(s) => s,
        }
    }

    /// The HTTP status of a response of this kind.
    pub fn status(&self) -> (r: u16)
        ensures
            r == self.spec_status(),
    {
        match self {
            ClientErrorKind::BadRequest => 400,
            ClientErrorKind::Unauthorized => 401,
            ClientErrorKind::ForbiddenCommonResource => 403,
            ClientErrorKind::NotFound => 404,
            ClientErrorKind::MethodNotAllowed => 405,
            ClientErrorKind::Unprocessable => 422,
            ClientErrorKind::InternalServerError => 500,
            ClientErrorKind::NotImplemented => 501,
            ClientErrorKind::ConnectorError(s) => *s,
        }
    }
}

/// Structured data that accompanies a client-visible error.
#[derive(Clone, Debug, PartialEq)]
pub struct Extra {
    pub payment_id: Option<String>,
    pub data: Option<serde_json::Value>,
    pub reason: Option<String>,
    pub connector: Option<String>,
}

/// The body of a client-visible error: class prefix, number, message.
#[derive(Clone, Debug, PartialEq)]
pub struct ApiError {
    pub sub_code: &'static str,
    pub error_identifier: u16,
    pub error_message: String,
    pub extra: Option<Extra>,
}

pub open spec fn digit_char(d: nat) -> char {
    if d == 0 {
        '0'
    } else if d == 1 {
        '1'
    } else if d == 2 {
        '2'
    } else if d == 3 {
        '3'
    } else if d == 4 {
        '4'
    } else if d == 5 {
        '5'
    } else if d == 6 {
        '6'
    } else if d == 7 {
        '7'
    } else if d == 8 {
        '8'
    } else {
        '9'
    }
}

/// The decimal digits of `n`, without leading zeros.
pub open spec fn spec_decimal(n: nat) -> Seq<char>
    decreases n,
{
    if n < 10 {
        seq![digit_char(n)]
    } else {
        spec_decimal(n / 10) + seq![digit_char(n % 10)]
    }
}

/// The decimal digits of `n`, padded to at least two.
pub open spec fn spec_two_digits(n: nat) -> Seq<char> {
    if n < 10 {
        seq!['0'] + spec_decimal(n)
    } else {
        spec_decimal(n)
    }
}

fn digit_str(d: u16) -> (r: &'static str)
    requires
        d < 10,
    ensures
        r@ == seq![digit_char(d as nat)],
{
    proof {
        reveal_strlit("0");
        reveal_strlit("1");
        reveal_strlit("2");
        reveal_strlit("3");
        reveal_strlit("4");
        reveal_strlit("5");
        reveal_strlit("6");
        reveal_strlit("7");
        reveal_strlit("8");
        reveal_strlit("9");
    }
    if d == 0 {
        "0"
    } else if d == 1 {
        "1"
    } else if d == 2 {
        "2"
    } else if d == 3 {
        "3"
    } else if d == 4 {
        "4"
    } else if d == 5 {
        "5"
    } else if d == 6 {
        "6"
    } else if d == 7 {
        "7"
    } else if d == 8 {
        "8"
    } else {
        "9"
    }
}

fn decimal(n: u16) -> (r: String)
    ensures
        r@ == spec_decimal(n as nat),
    decreases n,
{
    if n < 10 {
        digit_str(n).to_owned()
    } else {
        let mut s = decimal(n / 10);
        s.append(digit_str(n % 10));
        s
    }
}

impl ApiError {
    pub open spec fn spec_code(&self) -> Seq<char> {
        self.sub_code@ + "_"@ + spec_two_digits(self.error_identifier as nat)
    }

    /// The code that a client sees: class prefix, `_`, and the number in at
    /// least two digits, as in `IR_04`.
    pub fn code(&self) -> (r: String)
        ensures
            r@ == self.spec_code(),
    {
        let mut s = concat2(self.sub_code, "_");
        if self.error_identifier < 10 {
            s.append("0");
            proof {
                reveal_strlit("0");
            }
        }
        let digits = decimal(self.error_identifier);
        s.append(digits.as_str());
        s
    }
}

/// A client-visible error: the kind of response and its body.
#[derive(Clone, Debug, PartialEq)]
pub struct ClientError {
    pub kind: ClientErrorKind,
    pub error: ApiError,
}

/// A client-visible failure. Each kind carries a class, a code, a message
/// template and an HTTP status; the kinds that stand for "already exists",
/// "not found" and validation failures share their codes.
#[derive(Clone, Debug, PartialEq)]
pub enum ApiErrorResponse {
    NotImplemented { message: NotImplementedMessage },
    Unauthorized,
    InvalidRequestUrl,
    InvalidHttpMethod,
    MissingRequiredField { field_name: String },
    InvalidDataFormat { field_name: String, expected_format: String },
    InvalidRequestData { message: String },
    /// Typically used when a field has invalid value, or deserialization of the value contained in a field fails.
    InvalidDataValue { field_name: String },
    ClientSecretNotGiven,
    ClientSecretExpired,
    ClientSecretInvalid,
    MandateActive,
    CustomerRedacted,
    MaximumRefundCount,
    RefundAmountExceedsPaymentAmount,
    PaymentUnexpectedState { current_flow: String, field_name: String, current_value: String, states: String },
    InvalidEphemeralKey,
    /// Typically used when information involving multiple fields or previously provided information doesn't satisfy a condition.
    PreconditionFailed { message: String },
    InvalidJwtToken,
    GenericUnauthorized { message: String },
    NotSupported { message: String },
    FlowNotSupported { flow: String, connector: String },
    MissingRequiredFields { field_names: Vec<String> },
    AccessForbidden,
    FileProviderNotSupported { message: String },
    ExternalConnectorError { code: String, message: String, connector: String, status_code: u16, reason: Option<String> },
    PaymentAuthorizationFailed { data: Option<serde_json::Value> },
    PaymentAuthenticationFailed { data: Option<serde_json::Value> },
    PaymentCaptureFailed { data: Option<serde_json::Value> },
    InvalidCardData { data: Option<serde_json::Value> },
    CardExpired { data: Option<serde_json::Value> },
    RefundFailed { data: Option<serde_json::Value> },
    VerificationFailed { data: Option<serde_json::Value> },
    DisputeFailed { data: Option<serde_json::Value> },
    InternalServerError,
    DuplicateRefundRequest,
    DuplicateMandate,
    DuplicateMerchantAccount,
    DuplicateMerchantConnectorAccount { connector_label: String },
    DuplicatePaymentMethod,
    DuplicatePayment { payment_id: String },
    RefundNotFound,
    CustomerNotFound,
    ConfigNotFound,
    PaymentNotFound,
    PaymentMethodNotFound,
    MerchantAccountNotFound,
    MerchantConnectorAccountNotFound { id: String },
    ResourceIdNotFound,
    MandateNotFound,
    MandateUpdateFailed,
    ApiKeyNotFound,
    ReturnUrlUnavailable,
    RefundNotPossible { connector: String },
    MandateValidationFailed { reason: String },
    PaymentNotSucceeded,
    MerchantConnectorAccountDisabled,
    SuccessfulPaymentNotFound,
    IncorrectConnectorNameGiven,
    AddressNotFound,
    DisputeNotFound { dispute_id: String },
    FileNotFound,
    FileNotAvailable,
    DisputeStatusValidationFailed { reason: String },
    InvalidCardIin,
    InvalidCardIinLength,
    FileValidationFailed { reason: String },
    MissingFile,
    MissingDisputeId,
    MissingFilePurpose,
    MissingFileContentType,
    WebhookAuthenticationFailed,
    WebhookResourceNotFound,
    WebhookBadRequest,
    WebhookProcessingFailure,
    IncorrectPaymentMethodConfiguration,
    WebhookUnprocessableEntity,
}

impl ApiErrorResponse {
    pub open spec fn spec_error_type(&self) -> ErrorType {
        match self {
            ApiErrorResponse::NotImplemented { .. } => ErrorType::ServerNotAvailable,
            ApiErrorResponse::Unauthorized => ErrorType::InvalidRequestError,
            ApiErrorResponse::InvalidRequestUrl => ErrorType::InvalidRequestError,
            ApiErrorResponse::InvalidHttpMethod => ErrorType::InvalidRequestError,
            ApiErrorResponse::MissingRequiredField { .. } => ErrorType::InvalidRequestError,
            ApiErrorResponse::InvalidDataFormat { .. } => ErrorType::InvalidRequestError,
            ApiErrorResponse::InvalidRequestData { .. } => ErrorType::InvalidRequestError,
            ApiErrorResponse::InvalidDataValue { .. } => ErrorType::InvalidRequestError,
            ApiErrorResponse::ClientSecretNotGiven => ErrorType::InvalidRequestError,
            ApiErrorResponse::ClientSecretExpired => ErrorType::InvalidRequestError,
            ApiErrorResponse::ClientSecretInvalid => ErrorType::InvalidRequestError,
            ApiErrorResponse::MandateActive => ErrorType::InvalidRequestError,
            ApiErrorResponse::CustomerRedacted => ErrorType::InvalidRequestError,
            ApiErrorResponse::MaximumRefundCount => ErrorType::InvalidRequestError,
            ApiErrorResponse::RefundAmountExceedsPaymentAmount => ErrorType::InvalidRequestError,
            ApiErrorResponse::PaymentUnexpectedState { .. } => ErrorType::InvalidRequestError,
            ApiErrorResponse::InvalidEphemeralKey => ErrorType::InvalidRequestError,
            ApiErrorResponse::PreconditionFailed { .. } => ErrorType::InvalidRequestError,
            ApiErrorResponse::InvalidJwtToken => ErrorType::InvalidRequestError,
            ApiErrorResponse::GenericUnauthorized { .. } => ErrorType::InvalidRequestError,
            ApiErrorResponse::NotSupported { .. } => ErrorType::InvalidRequestError,
            ApiErrorResponse::FlowNotSupported { .. } => ErrorType::InvalidRequestError,
            ApiErrorResponse::MissingRequiredFields { .. } => ErrorType::InvalidRequestError,
            ApiErrorResponse::AccessForbidden => ErrorType::InvalidRequestError,
            ApiErrorResponse::FileProviderNotSupported { .. } => ErrorType::InvalidRequestError,
            ApiErrorResponse::ExternalConnectorError { .. } => ErrorType::ConnectorError,
            ApiErrorResponse::PaymentAuthorizationFailed { .. } => ErrorType::ProcessingError,
            ApiErrorResponse::PaymentAuthenticationFailed { .. } => ErrorType::ProcessingError,
            ApiErrorResponse::PaymentCaptureFailed { .. } => ErrorType::ProcessingError,
            ApiErrorResponse::InvalidCardData { .. } => ErrorType::ProcessingError,
            ApiErrorResponse::CardExpired { .. } => ErrorType::ProcessingError,
            ApiErrorResponse::RefundFailed { .. } => ErrorType::ProcessingError,
            ApiErrorResponse::VerificationFailed { .. } => ErrorType::ProcessingError,
            ApiErrorResponse::DisputeFailed { .. } => ErrorType::ProcessingError,
            ApiErrorResponse::InternalServerError => ErrorType::ServerNotAvailable,
            ApiErrorResponse::DuplicateRefundRequest => ErrorType::DuplicateRequest,
            ApiErrorResponse::DuplicateMandate => ErrorType::DuplicateRequest,
            ApiErrorResponse::DuplicateMerchantAccount => ErrorType::DuplicateRequest,
            ApiErrorResponse::DuplicateMerchantConnectorAccount { .. } => ErrorType::DuplicateRequest,
            ApiErrorResponse::DuplicatePaymentMethod => ErrorType::DuplicateRequest,
            ApiErrorResponse::DuplicatePayment { .. } => ErrorType::DuplicateRequest,
            ApiErrorResponse::RefundNotFound => ErrorType::ObjectNotFound,
            ApiErrorResponse::CustomerNotFound => ErrorType::ObjectNotFound,
            ApiErrorResponse::ConfigNotFound => ErrorType::ObjectNotFound,
            ApiErrorResponse::PaymentNotFound => ErrorType::ObjectNotFound,
            ApiErrorResponse::PaymentMethodNotFound => ErrorType::ObjectNotFound,
            ApiErrorResponse::MerchantAccountNotFound => ErrorType::ObjectNotFound,
            ApiErrorResponse::MerchantConnectorAccountNotFound { .. } => ErrorType::ObjectNotFound,
            ApiErrorResponse::ResourceIdNotFound => ErrorType::ObjectNotFound,
            ApiErrorResponse::MandateNotFound => ErrorType::ObjectNotFound,
            ApiErrorResponse::MandateUpdateFailed => ErrorType::ObjectNotFound,
            ApiErrorResponse::ApiKeyNotFound => ErrorType::ObjectNotFound,
            ApiErrorResponse::ReturnUrlUnavailable => ErrorType::ValidationError,
            ApiErrorResponse::RefundNotPossible { .. } => ErrorType::ValidationError,
            ApiErrorResponse::MandateValidationFailed { .. } => ErrorType::ValidationError,
            ApiErrorResponse::PaymentNotSucceeded => ErrorType::ValidationError,
            ApiErrorResponse::MerchantConnectorAccountDisabled => ErrorType::ValidationError,
            ApiErrorResponse::SuccessfulPaymentNotFound => ErrorType::ObjectNotFound,
            ApiErrorResponse::IncorrectConnectorNameGiven => ErrorType::ObjectNotFound,
            ApiErrorResponse::AddressNotFound => ErrorType::ObjectNotFound,
            ApiErrorResponse::DisputeNotFound { .. } => ErrorType::ObjectNotFound,
            ApiErrorResponse::FileNotFound => ErrorType::ObjectNotFound,
            ApiErrorResponse::FileNotAvailable => ErrorType::ObjectNotFound,
            ApiErrorResponse::DisputeStatusValidationFailed { .. } => ErrorType::InvalidRequestError,
            ApiErrorResponse::InvalidCardIin => ErrorType::InvalidRequestError,
            ApiErrorResponse::InvalidCardIinLength => ErrorType::InvalidRequestError,
            ApiErrorResponse::FileValidationFailed { .. } => ErrorType::ValidationError,
            ApiErrorResponse::MissingFile => ErrorType::InvalidRequestError,
            ApiErrorResponse::MissingDisputeId => ErrorType::InvalidRequestError,
            ApiErrorResponse::MissingFilePurpose => ErrorType::InvalidRequestError,
            ApiErrorResponse::MissingFileContentType => ErrorType::InvalidRequestError,
            ApiErrorResponse::WebhookAuthenticationFailed => ErrorType::InvalidRequestError,
            ApiErrorResponse::WebhookResourceNotFound => ErrorType::ObjectNotFound,
            ApiErrorResponse::WebhookBadRequest => ErrorType::InvalidRequestError,
            ApiErrorResponse::WebhookProcessingFailure => ErrorType::RouterError,
            ApiErrorResponse::IncorrectPaymentMethodConfiguration => ErrorType::InvalidRequestError,
            ApiErrorResponse::WebhookUnprocessableEntity => ErrorType::InvalidRequestError,
        }
    }

    /// The broad kind of the failure.
    pub fn error_type(&self) -> (r: ErrorType)
        ensures
            r == self.spec_error_type(),
    {
        match self {
            ApiErrorResponse::NotImplemented { .. } => ErrorType::ServerNotAvailable,
            ApiErrorResponse::Unauthorized => ErrorType::InvalidRequestError,
            ApiErrorResponse::InvalidRequestUrl => ErrorType::InvalidRequestError,
            ApiErrorResponse::InvalidHttpMethod => ErrorType::InvalidRequestError,
            ApiErrorResponse::MissingRequiredField { .. } => ErrorType::InvalidRequestError,
            ApiErrorResponse::InvalidDataFormat { .. } => ErrorType::InvalidRequestError,
            ApiErrorResponse::InvalidRequestData { .. } => ErrorType::InvalidRequestError,
            ApiErrorResponse::InvalidDataValue { .. } => ErrorType::InvalidRequestError,
            ApiErrorResponse::ClientSecretNotGiven => ErrorType::InvalidRequestError,
            ApiErrorResponse::ClientSecretExpired => ErrorType::InvalidRequestError,
            ApiErrorResponse::ClientSecretInvalid => ErrorType::InvalidRequestError,
            ApiErrorResponse::MandateActive => ErrorType::InvalidRequestError,
            ApiErrorResponse::CustomerRedacted => ErrorType::InvalidRequestError,
            ApiErrorResponse::MaximumRefundCount => ErrorType::InvalidRequestError,
            ApiErrorResponse::RefundAmountExceedsPaymentAmount => ErrorType::InvalidRequestError,
            ApiErrorResponse::PaymentUnexpectedState { .. } => ErrorType::InvalidRequestError,
            ApiErrorResponse::InvalidEphemeralKey => ErrorType::InvalidRequestError,
            ApiErrorResponse::PreconditionFailed { .. } => ErrorType::InvalidRequestError,
            ApiErrorResponse::InvalidJwtToken => ErrorType::InvalidRequestError,
            ApiErrorResponse::GenericUnauthorized { .. } => ErrorType::InvalidRequestError,
            ApiErrorResponse::NotSupported { .. } => ErrorType::InvalidRequestError,
            ApiErrorResponse::FlowNotSupported { .. } => ErrorType::InvalidRequestError,
            ApiErrorResponse::MissingRequiredFields { .. } => ErrorType::InvalidRequestError,
            ApiErrorResponse::AccessForbidden => ErrorType::InvalidRequestError,
            ApiErrorResponse::FileProviderNotSupported { .. } => ErrorType::InvalidRequestError,
            ApiErrorResponse::ExternalConnectorError { .. } => ErrorType::ConnectorError,
            ApiErrorResponse::PaymentAuthorizationFailed { .. } => ErrorType::ProcessingError,
            ApiErrorResponse::PaymentAuthenticationFailed { .. } => ErrorType::ProcessingError,
            ApiErrorResponse::PaymentCaptureFailed { .. } => ErrorType::ProcessingError,
            ApiErrorResponse::InvalidCardData { .. } => ErrorType::ProcessingError,
            ApiErrorResponse::CardExpired { .. } => ErrorType::ProcessingError,
            ApiErrorResponse::RefundFailed { .. } => ErrorType::ProcessingError,
            ApiErrorResponse::VerificationFailed { .. } => ErrorType::ProcessingError,
            ApiErrorResponse::DisputeFailed { .. } => ErrorType::ProcessingError,
            ApiErrorResponse::InternalServerError => ErrorType::ServerNotAvailable,
            ApiErrorResponse::DuplicateRefundRequest => ErrorType::DuplicateRequest,
            ApiErrorResponse::DuplicateMandate => ErrorType::DuplicateRequest,
            ApiErrorResponse::DuplicateMerchantAccount => ErrorType::DuplicateRequest,
            ApiErrorResponse::DuplicateMerchantConnectorAccount { .. } => ErrorType::DuplicateRequest,
            ApiErrorResponse::DuplicatePaymentMethod => ErrorType::DuplicateRequest,
            ApiErrorResponse::DuplicatePayment { .. } => ErrorType::DuplicateRequest,
            ApiErrorResponse::RefundNotFound => ErrorType::ObjectNotFound,
            ApiErrorResponse::CustomerNotFound => ErrorType::ObjectNotFound,
            ApiErrorResponse::ConfigNotFound => ErrorType::ObjectNotFound,
            ApiErrorResponse::PaymentNotFound => ErrorType::ObjectNotFound,
            ApiErrorResponse::PaymentMethodNotFound => ErrorType::ObjectNotFound,
            ApiErrorResponse::MerchantAccountNotFound => ErrorType::ObjectNotFound,
            ApiErrorResponse::MerchantConnectorAccountNotFound { .. } => ErrorType::ObjectNotFound,
            ApiErrorResponse::ResourceIdNotFound => ErrorType::ObjectNotFound,
            ApiErrorResponse::MandateNotFound => ErrorType::ObjectNotFound,
            ApiErrorResponse::MandateUpdateFailed => ErrorType::ObjectNotFound,
            ApiErrorResponse::ApiKeyNotFound => ErrorType::ObjectNotFound,
            ApiErrorResponse::ReturnUrlUnavailable => ErrorType::ValidationError,
            ApiErrorResponse::RefundNotPossible { .. } => ErrorType::ValidationError,
            ApiErrorResponse::MandateValidationFailed { .. } => ErrorType::ValidationError,
            ApiErrorResponse::PaymentNotSucceeded => ErrorType::ValidationError,
            ApiErrorResponse::MerchantConnectorAccountDisabled => ErrorType::ValidationError,
            ApiErrorResponse::SuccessfulPaymentNotFound => ErrorType::ObjectNotFound,
            ApiErrorResponse::IncorrectConnectorNameGiven => ErrorType::ObjectNotFound,
            ApiErrorResponse::AddressNotFound => ErrorType::ObjectNotFound,
            ApiErrorResponse::DisputeNotFound { .. } => ErrorType::ObjectNotFound,
            ApiErrorResponse::FileNotFound => ErrorType::ObjectNotFound,
            ApiErrorResponse::FileNotAvailable => ErrorType::ObjectNotFound,
            ApiErrorResponse::DisputeStatusValidationFailed { .. } => ErrorType::InvalidRequestError,
            ApiErrorResponse::InvalidCardIin => ErrorType::InvalidRequestError,
            ApiErrorResponse::InvalidCardIinLength => ErrorType::InvalidRequestError,
            ApiErrorResponse::FileValidationFailed { .. } => ErrorType::ValidationError,
            ApiErrorResponse::MissingFile => ErrorType::InvalidRequestError,
            ApiErrorResponse::MissingDisputeId => ErrorType::InvalidRequestError,
            ApiErrorResponse::MissingFilePurpose => ErrorType::InvalidRequestError,
            ApiErrorResponse::MissingFileContentType => ErrorType::InvalidRequestError,
            ApiErrorResponse::WebhookAuthenticationFailed => ErrorType::InvalidRequestError,
            ApiErrorResponse::WebhookResourceNotFound => ErrorType::ObjectNotFound,
            ApiErrorResponse::WebhookBadRequest => ErrorType::InvalidRequestError,
            ApiErrorResponse::WebhookProcessingFailure => ErrorType::RouterError,
            ApiErrorResponse::IncorrectPaymentMethodConfiguration => ErrorType::InvalidRequestError,
            ApiErrorResponse::WebhookUnprocessableEntity => ErrorType::InvalidRequestError,
        }
    }

    pub open spec fn spec_error_code(&self) -> Seq<char> {
        match self {
            ApiErrorResponse::NotImplemented { .. } => "IR_00"@,
            ApiErrorResponse::Unauthorized => "IR_01"@,
            ApiErrorResponse::InvalidRequestUrl => "IR_02"@,
            ApiErrorResponse::InvalidHttpMethod => "IR_03"@,
            ApiErrorResponse::MissingRequiredField { .. } => "IR_04"@,
            ApiErrorResponse::InvalidDataFormat { .. } => "IR_05"@,
            ApiErrorResponse::InvalidRequestData { .. } => "IR_06"@,
            ApiErrorResponse::InvalidDataValue { .. } => "IR_07"@,
            ApiErrorResponse::ClientSecretNotGiven => "IR_08"@,
            ApiErrorResponse::ClientSecretExpired => "IR_08"@,
            ApiErrorResponse::ClientSecretInvalid => "IR_09"@,
            ApiErrorResponse::MandateActive => "IR_10"@,
            ApiErrorResponse::CustomerRedacted => "IR_11"@,
            ApiErrorResponse::MaximumRefundCount => "IR_12"@,
            ApiErrorResponse::RefundAmountExceedsPaymentAmount => "IR_13"@,
            ApiErrorResponse::PaymentUnexpectedState { .. } => "IR_14"@,
            ApiErrorResponse::InvalidEphemeralKey => "IR_15"@,
            ApiErrorResponse::PreconditionFailed { .. } => "IR_16"@,
            ApiErrorResponse::InvalidJwtToken => "IR_17"@,
            ApiErrorResponse::GenericUnauthorized { .. } => "IR_18"@,
            ApiErrorResponse::NotSupported { .. } => "IR_19"@,
            ApiErrorResponse::FlowNotSupported { .. } => "IR_20"@,
            ApiErrorResponse::MissingRequiredFields { .. } => "IR_21"@,
            ApiErrorResponse::AccessForbidden => "IR_22"@,
            ApiErrorResponse::FileProviderNotSupported { .. } => "IR_23"@,
            ApiErrorResponse::ExternalConnectorError { .. } => "CE_00"@,
            ApiErrorResponse::PaymentAuthorizationFailed { .. } => "CE_01"@,
            ApiErrorResponse::PaymentAuthenticationFailed { .. } => "CE_02"@,
            ApiErrorResponse::PaymentCaptureFailed { .. } => "CE_03"@,
            ApiErrorResponse::InvalidCardData { .. } => "CE_04"@,
            ApiErrorResponse::CardExpired { .. } => "CE_05"@,
            ApiErrorResponse::RefundFailed { .. } => "CE_06"@,
            ApiErrorResponse::VerificationFailed { .. } => "CE_07"@,
            ApiErrorResponse::DisputeFailed { .. } => "CE_08"@,
            ApiErrorResponse::InternalServerError => "HE_00"@,
            ApiErrorResponse::DuplicateRefundRequest => "HE_01"@,
            ApiErrorResponse::DuplicateMandate => "HE_01"@,
            ApiErrorResponse::DuplicateMerchantAccount => "HE_01"@,
            ApiErrorResponse::DuplicateMerchantConnectorAccount { .. } => "HE_01"@,
            ApiErrorResponse::DuplicatePaymentMethod => "HE_01"@,
            ApiErrorResponse::DuplicatePayment { .. } => "HE_01"@,
            ApiErrorResponse::RefundNotFound => "HE_02"@,
            ApiErrorResponse::CustomerNotFound => "HE_02"@,
            ApiErrorResponse::ConfigNotFound => "RE_02"@,
            ApiErrorResponse::PaymentNotFound => "HE_02"@,
            ApiErrorResponse::PaymentMethodNotFound => "HE_02"@,
            ApiErrorResponse::MerchantAccountNotFound => "HE_02"@,
            ApiErrorResponse::MerchantConnectorAccountNotFound { .. } => "HE_02"@,
            ApiErrorResponse::ResourceIdNotFound => "HE_02"@,
            ApiErrorResponse::MandateNotFound => "HE_02"@,
            ApiErrorResponse::MandateUpdateFailed => "HE_02"@,
            ApiErrorResponse::ApiKeyNotFound => "HE_02"@,
            ApiErrorResponse::ReturnUrlUnavailable => "HE_03"@,
            ApiErrorResponse::RefundNotPossible { .. } => "HE_03"@,
            ApiErrorResponse::MandateValidationFailed { .. } => "HE_03"@,
            ApiErrorResponse::PaymentNotSucceeded => "HE_03"@,
            ApiErrorResponse::MerchantConnectorAccountDisabled => "HE_03"@,
            ApiErrorResponse::SuccessfulPaymentNotFound => "HE_04"@,
            ApiErrorResponse::IncorrectConnectorNameGiven => "HE_04"@,
            ApiErrorResponse::AddressNotFound => "HE_04"@,
            ApiErrorResponse::DisputeNotFound { .. } => "HE_04"@,
            ApiErrorResponse::FileNotFound => "HE_04"@,
            ApiErrorResponse::FileNotAvailable => "HE_04"@,
            ApiErrorResponse::DisputeStatusValidationFailed { .. } => "HE_04"@,
            ApiErrorResponse::InvalidCardIin => "HE_04"@,
            ApiErrorResponse::InvalidCardIinLength => "HE_04"@,
            ApiErrorResponse::FileValidationFailed { .. } => "HE_03"@,
            ApiErrorResponse::MissingFile => "HE_04"@,
            ApiErrorResponse::MissingDisputeId => "HE_04"@,
            ApiErrorResponse::MissingFilePurpose => "HE_04"@,
            ApiErrorResponse::MissingFileContentType => "HE_04"@,
            ApiErrorResponse::WebhookAuthenticationFailed => "WE_01"@,
            ApiErrorResponse::WebhookResourceNotFound => "WE_04"@,
            ApiErrorResponse::WebhookBadRequest => "WE_02"@,
            ApiErrorResponse::WebhookProcessingFailure => "WE_03"@,
            ApiErrorResponse::IncorrectPaymentMethodConfiguration => "HE_04"@,
            ApiErrorResponse::WebhookUnprocessableEntity => "WE_05"@,
        }
    }

    /// The class prefix and number of the failure, as in `IR_04`.
    pub fn error_code(&self) -> (r: &'static str)
        ensures
            r@ == self.spec_error_code(),
    {
        match self {
            ApiErrorResponse::NotImplemented { .. } => "IR_00",
            ApiErrorResponse::Unauthorized => "IR_01",
            ApiErrorResponse::InvalidRequestUrl => "IR_02",
            ApiErrorResponse::InvalidHttpMethod => "IR_03",
            ApiErrorResponse::MissingRequiredField { .. } => "IR_04",
            ApiErrorResponse::InvalidDataFormat { .. } => "IR_05",
            ApiErrorResponse::InvalidRequestData { .. } => "IR_06",
            ApiErrorResponse::InvalidDataValue { .. } => "IR_07",
            ApiErrorResponse::ClientSecretNotGiven => "IR_08",
            ApiErrorResponse::ClientSecretExpired => "IR_08",
            ApiErrorResponse::ClientSecretInvalid => "IR_09",
            ApiErrorResponse::MandateActive => "IR_10",
            ApiErrorResponse::CustomerRedacted => "IR_11",
            ApiErrorResponse::MaximumRefundCount => "IR_12",
            ApiErrorResponse::RefundAmountExceedsPaymentAmount => "IR_13",
            ApiErrorResponse::PaymentUnexpectedState { .. } => "IR_14",
            ApiErrorResponse::InvalidEphemeralKey => "IR_15",
            ApiErrorResponse::PreconditionFailed { .. } => "IR_16",
            ApiErrorResponse::InvalidJwtToken => "IR_17",
            ApiErrorResponse::GenericUnauthorized { .. } => "IR_18",
            ApiErrorResponse::NotSupported { .. } => "IR_19",
            ApiErrorResponse::FlowNotSupported { .. } => "IR_20",
            ApiErrorResponse::MissingRequiredFields { .. } => "IR_21",
            ApiErrorResponse::AccessForbidden => "IR_22",
            ApiErrorResponse::FileProviderNotSupported { .. } => "IR_23",
            ApiErrorResponse::ExternalConnectorError { .. } => "CE_00",
            ApiErrorResponse::PaymentAuthorizationFailed { .. } => "CE_01",
            ApiErrorResponse::PaymentAuthenticationFailed { .. } => "CE_02",
            ApiErrorResponse::PaymentCaptureFailed { .. } => "CE_03",
            ApiErrorResponse::InvalidCardData { .. } => "CE_04",
            ApiErrorResponse::CardExpired { .. } => "CE_05",
            ApiErrorResponse::RefundFailed { .. } => "CE_06",
            ApiErrorResponse::VerificationFailed { .. } => "CE_07",
            ApiErrorResponse::DisputeFailed { .. } => "CE_08",
            ApiErrorResponse::InternalServerError => "HE_00",
            ApiErrorResponse::DuplicateRefundRequest => "HE_01",
            ApiErrorResponse::DuplicateMandate => "HE_01",
            ApiErrorResponse::DuplicateMerchantAccount => "HE_01",
            ApiErrorResponse::DuplicateMerchantConnectorAccount { .. } => "HE_01",
            ApiErrorResponse::DuplicatePaymentMethod => "HE_01",
            ApiErrorResponse::DuplicatePayment { .. } => "HE_01",
            ApiErrorResponse::RefundNotFound => "HE_02",
            ApiErrorResponse::CustomerNotFound => "HE_02",
            ApiErrorResponse::ConfigNotFound => "RE_02",
            ApiErrorResponse::PaymentNotFound => "HE_02",
            ApiErrorResponse::PaymentMethodNotFound => "HE_02",
            ApiErrorResponse::MerchantAccountNotFound => "HE_02",
            ApiErrorResponse::MerchantConnectorAccountNotFound { .. } => "HE_02",
            ApiErrorResponse::ResourceIdNotFound => "HE_02",
            ApiErrorResponse::MandateNotFound => "HE_02",
            ApiErrorResponse::MandateUpdateFailed => "HE_02",
            ApiErrorResponse::ApiKeyNotFound => "HE_02",
            ApiErrorResponse::ReturnUrlUnavailable => "HE_03",
            ApiErrorResponse::RefundNotPossible { .. } => "HE_03",
            ApiErrorResponse::MandateValidationFailed { .. } => "HE_03",
            ApiErrorResponse::PaymentNotSucceeded => "HE_03",
            ApiErrorResponse::MerchantConnectorAccountDisabled => "HE_03",
            ApiErrorResponse::SuccessfulPaymentNotFound => "HE_04",
            ApiErrorResponse::IncorrectConnectorNameGiven => "HE_04",
            ApiErrorResponse::AddressNotFound => "HE_04",
            ApiErrorResponse::DisputeNotFound { .. } => "HE_04",
            ApiErrorResponse::FileNotFound => "HE_04",
            ApiErrorResponse::FileNotAvailable => "HE_04",
            ApiErrorResponse::DisputeStatusValidationFailed { .. } => "HE_04",
            ApiErrorResponse::InvalidCardIin => "HE_04",
            ApiErrorResponse::InvalidCardIinLength => "HE_04",
            ApiErrorResponse::FileValidationFailed { .. } => "HE_03",
            ApiErrorResponse::MissingFile => "HE_04",
            ApiErrorResponse::MissingDisputeId => "HE_04",
            ApiErrorResponse::MissingFilePurpose => "HE_04",
            ApiErrorResponse::MissingFileContentType => "HE_04",
            ApiErrorResponse::WebhookAuthenticationFailed => "WE_01",
            ApiErrorResponse::WebhookResourceNotFound => "WE_04",
            ApiErrorResponse::WebhookBadRequest => "WE_02",
            ApiErrorResponse::WebhookProcessingFailure => "WE_03",
            ApiErrorResponse::IncorrectPaymentMethodConfiguration => "HE_04",
            ApiErrorResponse::WebhookUnprocessableEntity => "WE_05",
        }
    }

    pub open spec fn spec_error_message(&self) -> Seq<char> {
        match self {
            ApiErrorResponse::NotImplemented { message } => message.spec_message(),
            ApiErrorResponse::Unauthorized => "API key not provided or invalid API key used"@,
            ApiErrorResponse::InvalidRequestUrl => "Unrecognized request URL"@,
            ApiErrorResponse::InvalidHttpMethod => "The HTTP method is not applicable for this API"@,
            ApiErrorResponse::MissingRequiredField { field_name } => "Missing required param: "@ + field_name@,
            ApiErrorResponse::InvalidDataFormat { field_name, expected_format } => field_name@ + " contains invalid data. Expected format is "@ + expected_format@,
            ApiErrorResponse::InvalidRequestData { message } => message@,
            ApiErrorResponse::InvalidDataValue { field_name } => "Invalid value provided: "@ + field_name@,
            ApiErrorResponse::ClientSecretNotGiven => "Client secret was not provided"@,
            ApiErrorResponse::ClientSecretExpired => "Client secret has expired"@,
            ApiErrorResponse::ClientSecretInvalid => "The client_secret provided does not match the client_secret associated with the Payment"@,
            ApiErrorResponse::MandateActive => "Customer has active mandate/subsciption"@,
            ApiErrorResponse::CustomerRedacted => "Customer has already been redacted"@,
            ApiErrorResponse::MaximumRefundCount => "Reached maximum refund attempts"@,
            ApiErrorResponse::RefundAmountExceedsPaymentAmount => "Refund amount exceeds the payment amount"@,
            ApiErrorResponse::PaymentUnexpectedState { current_flow, field_name, current_value, states } => "This Payment could not be "@ + current_flow@ + " because it has a "@ + field_name@ + " of "@ + current_value@ + ". The expected state is "@ + states@,
            ApiErrorResponse::InvalidEphemeralKey => "Invalid Ephemeral Key for the customer"@,
            ApiErrorResponse::PreconditionFailed { message } => message@,
            ApiErrorResponse::InvalidJwtToken => "Access forbidden, invalid JWT token was used"@,
            ApiErrorResponse::GenericUnauthorized { message } => message@,
            ApiErrorResponse::NotSupported { message } => message@,
            ApiErrorResponse::FlowNotSupported { flow, connector } => flow@ + " flow not supported by the "@ + connector@ + " connector"@,
            ApiErrorResponse::MissingRequiredFields { .. } => "Missing required params"@,
            ApiErrorResponse::AccessForbidden => "Access forbidden. Not authorized to access this resource"@,
            ApiErrorResponse::FileProviderNotSupported { message } => message@,
            ApiErrorResponse::ExternalConnectorError { code, message, .. } => code@ + ": "@ + message@,
            ApiErrorResponse::PaymentAuthorizationFailed { .. } => "Payment failed during authorization with connector. Retry payment"@,
            ApiErrorResponse::PaymentAuthenticationFailed { .. } => "Payment failed during authentication with connector. Retry payment"@,
            ApiErrorResponse::PaymentCaptureFailed { .. } => "Capture attempt failed while processing with connector"@,
            ApiErrorResponse::InvalidCardData { .. } => "The card data is invalid"@,
            ApiErrorResponse::CardExpired { .. } => "The card has expired"@,
            ApiErrorResponse::RefundFailed { .. } => "Refund failed while processing with connector. Retry refund"@,
            ApiErrorResponse::VerificationFailed { .. } => "Verification failed while processing with connector. Retry operation"@,
            ApiErrorResponse::DisputeFailed { .. } => "Dispute operation failed while processing with connector. Retry operation"@,
            ApiErrorResponse::InternalServerError => "Something went wrong"@,
            ApiErrorResponse::DuplicateRefundRequest => "Duplicate refund request. Refund already attempted with the refund ID"@,
            ApiErrorResponse::DuplicateMandate => "Duplicate mandate request. Mandate already attempted with the Mandate ID"@,
            ApiErrorResponse::DuplicateMerchantAccount => "The merchant account with the specified details already exists in our records"@,
            ApiErrorResponse::DuplicateMerchantConnectorAccount { connector_label } => "The merchant connector account with the specified connector_label '"@ + connector_label@ + "' already exists in our records"@,
            ApiErrorResponse::DuplicatePaymentMethod => "The payment method with the specified details already exists in our records"@,
            ApiErrorResponse::DuplicatePayment { payment_id } => "The payment with the specified payment_id '"@ + payment_id@ + "' already exists in our records"@,
            ApiErrorResponse::RefundNotFound => "Refund does not exist in our records"@,
            ApiErrorResponse::CustomerNotFound => "Customer does not exist in our records"@,
            ApiErrorResponse::ConfigNotFound => "Config key does not exist in our records."@,
            ApiErrorResponse::PaymentNotFound => "Payment does not exist in our records"@,
            ApiErrorResponse::PaymentMethodNotFound => "Payment method does not exist in our records"@,
            ApiErrorResponse::MerchantAccountNotFound => "Merchant account does not exist in our records"@,
            ApiErrorResponse::MerchantConnectorAccountNotFound { id } => "Merchant connector account with id '"@ + id@ + "' does not exist in our records"@,
            ApiErrorResponse::ResourceIdNotFound => "Resource ID does not exist in our records"@,
            ApiErrorResponse::MandateNotFound => "Mandate does not exist in our records"@,
            ApiErrorResponse::MandateUpdateFailed => "Failed to update mandate"@,
            ApiErrorResponse::ApiKeyNotFound => "API Key does not exist in our records"@,
            ApiErrorResponse::ReturnUrlUnavailable => "Return URL is not configured and not passed in payments request"@,
            ApiErrorResponse::RefundNotPossible { connector } => "This refund is not possible through Hyperswitch. Please raise the refund through "@ + connector@ + " dashboard"@,
            ApiErrorResponse::MandateValidationFailed { .. } => "Mandate Validation Failed"@,
            ApiErrorResponse::PaymentNotSucceeded => "The payment has not succeeded yet. Please pass a successful payment to initiate refund"@,
            ApiErrorResponse::MerchantConnectorAccountDisabled => "The specified merchant connector account is disabled"@,
            ApiErrorResponse::SuccessfulPaymentNotFound => "Successful payment not found for the given payment id"@,
            ApiErrorResponse::IncorrectConnectorNameGiven => "The connector provided in the request is incorrect or not available"@,
            ApiErrorResponse::AddressNotFound => "Address does not exist in our records"@,
            ApiErrorResponse::DisputeNotFound { .. } => "Dispute does not exist in our records"@,
            ApiErrorResponse::FileNotFound => "File does not exist in our records"@,
            ApiErrorResponse::FileNotAvailable => "File not available"@,
            ApiErrorResponse::DisputeStatusValidationFailed { .. } => "Dispute status validation failed"@,
            ApiErrorResponse::InvalidCardIin => "Card with the provided iin does not exist"@,
            ApiErrorResponse::InvalidCardIinLength => "The provided card IIN length is invalid, please provide an iin with 6 or 8 digits"@,
            ApiErrorResponse::FileValidationFailed { .. } => "File validation failed"@,
            ApiErrorResponse::MissingFile => "File not found / valid in the request"@,
            ApiErrorResponse::MissingDisputeId => "Dispute id not found in the request"@,
            ApiErrorResponse::MissingFilePurpose => "File purpose not found in the request or is invalid"@,
            ApiErrorResponse::MissingFileContentType => "File content type not found / valid"@,
            ApiErrorResponse::WebhookAuthenticationFailed => "Failed to authenticate the webhook"@,
            ApiErrorResponse::WebhookResourceNotFound => "Webhook resource not found"@,
            ApiErrorResponse::WebhookBadRequest => "Bad request received in webhook"@,
            ApiErrorResponse::WebhookProcessingFailure => "There was some issue processing the webhook"@,
            ApiErrorResponse::IncorrectPaymentMethodConfiguration => "required payment method is not configured or configured incorrectly for all configured connectors"@,
            ApiErrorResponse::WebhookUnprocessableEntity => "Unable to process the webhook body"@,
        }
    }

    /// The message template of the failure, with its fields filled in.
    pub fn error_message(&self) -> (r: String)
        ensures
            r@ == self.spec_error_message(),
    {
        match self {
            ApiErrorResponse::NotImplemented { message } => message.message(),
            ApiErrorResponse::Unauthorized => "API key not provided or invalid API key used".to_owned(),
            ApiErrorResponse::InvalidRequestUrl => "Unrecognized request URL".to_owned(),
            ApiErrorResponse::InvalidHttpMethod => "The HTTP method is not applicable for this API".to_owned(),
            ApiErrorResponse::MissingRequiredField { field_name } => {
                let mut s = "Missing required param: ".to_owned();
                s.append(field_name.as_str());
                s
            },
            ApiErrorResponse::InvalidDataFormat { field_name, expected_format } => {
                let mut s = field_name.clone();
                s.append(" contains invalid data. Expected format is ");
                s.append(expected_format.as_str());
                s
            },
            ApiErrorResponse::InvalidRequestData { message } => message.clone(),
            ApiErrorResponse::InvalidDataValue { field_name } => {
                let mut s = "Invalid value provided: ".to_owned();
                s.append(field_name.as_str());
                s
            },
            ApiErrorResponse::ClientSecretNotGiven => "Client secret was not provided".to_owned(),
            ApiErrorResponse::ClientSecretExpired => "Client secret has expired".to_owned(),
            ApiErrorResponse::ClientSecretInvalid => "The client_secret provided does not match the client_secret associated with the Payment".to_owned(),
            ApiErrorResponse::MandateActive => "Customer has active mandate/subsciption".to_owned(),
            ApiErrorResponse::CustomerRedacted => "Customer has already been redacted".to_owned(),
            ApiErrorResponse::MaximumRefundCount => "Reached maximum refund attempts".to_owned(),
            ApiErrorResponse::RefundAmountExceedsPaymentAmount => "Refund amount exceeds the payment amount".to_owned(),
            ApiErrorResponse::PaymentUnexpectedState { current_flow, field_name, current_value, states } => {
                let mut s = "This Payment could not be ".to_owned();
                s.append(current_flow.as_str());
                s.append(" because it has a ");
                s.append(field_name.as_str());
                s.append(" of ");
                s.append(current_value.as_str());
                s.append(". The expected state is ");
                s.append(states.as_str());
                s
            },
            ApiErrorResponse::InvalidEphemeralKey => "Invalid Ephemeral Key for the customer".to_owned(),
            ApiErrorResponse::PreconditionFailed { message } => message.clone(),
            ApiErrorResponse::InvalidJwtToken => "Access forbidden, invalid JWT token was used".to_owned(),
            ApiErrorResponse::GenericUnauthorized { message } => message.clone(),
            ApiErrorResponse::NotSupported { message } => message.clone(),
            ApiErrorResponse::FlowNotSupported { flow, connector } => {
                let mut s = flow.clone();
                s.append(" flow not supported by the ");
                s.append(connector.as_str());
                s.append(" connector");
                s
            },
            ApiErrorResponse::MissingRequiredFields { .. } => "Missing required params".to_owned(),
            ApiErrorResponse::AccessForbidden => "Access forbidden. Not authorized to access this resource".to_owned(),
            ApiErrorResponse::FileProviderNotSupported { message } => message.clone(),
            ApiErrorResponse::ExternalConnectorError { code, message, .. } => {
                let mut s = code.clone();
                s.append(": ");
                s.append(message.as_str());
                s
            },
            ApiErrorResponse::PaymentAuthorizationFailed { .. } => "Payment failed during authorization with connector. Retry payment".to_owned(),
            ApiErrorResponse::PaymentAuthenticationFailed { .. } => "Payment failed during authentication with connector. Retry payment".to_owned(),
            ApiErrorResponse::PaymentCaptureFailed { .. } => "Capture attempt failed while processing with connector".to_owned(),
            ApiErrorResponse::InvalidCardData { .. } => "The card data is invalid".to_owned(),
            ApiErrorResponse::CardExpired { .. } => "The card has expired".to_owned(),
            ApiErrorResponse::RefundFailed { .. } => "Refund failed while processing with connector. Retry refund".to_owned(),
            ApiErrorResponse::VerificationFailed { .. } => "Verification failed while processing with connector. Retry operation".to_owned(),
            ApiErrorResponse::DisputeFailed { .. } => "Dispute operation failed while processing with connector. Retry operation".to_owned(),
            ApiErrorResponse::InternalServerError => "Something went wrong".to_owned(),
            ApiErrorResponse::DuplicateRefundRequest => "Duplicate refund request. Refund already attempted with the refund ID".to_owned(),
            ApiErrorResponse::DuplicateMandate => "Duplicate mandate request. Mandate already attempted with the Mandate ID".to_owned(),
            ApiErrorResponse::DuplicateMerchantAccount => "The merchant account with the specified details already exists in our records".to_owned(),
            ApiErrorResponse::DuplicateMerchantConnectorAccount { connector_label } => {
                let mut s = "The merchant connector account with the specified connector_label '".to_owned();
                s.append(connector_label.as_str());
                s.append("' already exists in our records");
                s
            },
            ApiErrorResponse::DuplicatePaymentMethod => "The payment method with the specified details already exists in our records".to_owned(),
            ApiErrorResponse::DuplicatePayment { payment_id } => {
                let mut s = "The payment with the specified payment_id '".to_owned();
                s.append(payment_id.as_str());
                s.append("' already exists in our records");
                s
            },
            ApiErrorResponse::RefundNotFound => "Refund does not exist in our records".to_owned(),
            ApiErrorResponse::CustomerNotFound => "Customer does not exist in our records".to_owned(),
            ApiErrorResponse::ConfigNotFound => "Config key does not exist in our records.".to_owned(),
            ApiErrorResponse::PaymentNotFound => "Payment does not exist in our records".to_owned(),
            ApiErrorResponse::PaymentMethodNotFound => "Payment method does not exist in our records".to_owned(),
            ApiErrorResponse::MerchantAccountNotFound => "Merchant account does not exist in our records".to_owned(),
            ApiErrorResponse::MerchantConnectorAccountNotFound { id } => {
                let mut s = "Merchant connector account with id '".to_owned();
                s.append(id.as_str());
                s.append("' does not exist in our records");
                s
            },
            ApiErrorResponse::ResourceIdNotFound => "Resource ID does not exist in our records".to_owned(),
            ApiErrorResponse::MandateNotFound => "Mandate does not exist in our records".to_owned(),
            ApiErrorResponse::MandateUpdateFailed => "Failed to update mandate".to_owned(),
            ApiErrorResponse::ApiKeyNotFound => "API Key does not exist in our records".to_owned(),
            ApiErrorResponse::ReturnUrlUnavailable => "Return URL is not configured and not passed in payments request".to_owned(),
            ApiErrorResponse::RefundNotPossible { connector } => {
                let mut s = "This refund is not possible through Hyperswitch. Please raise the refund through ".to_owned();
                s.append(connector.as_str());
                s.append(" dashboard");
                s
            },
            ApiErrorResponse::MandateValidationFailed { .. } => "Mandate Validation Failed".to_owned(),
            ApiErrorResponse::PaymentNotSucceeded => "The payment has not succeeded yet. Please pass a successful payment to initiate refund".to_owned(),
            ApiErrorResponse::MerchantConnectorAccountDisabled => "The specified merchant connector account is disabled".to_owned(),
            ApiErrorResponse::SuccessfulPaymentNotFound => "Successful payment not found for the given payment id".to_owned(),
            ApiErrorResponse::IncorrectConnectorNameGiven => "The connector provided in the request is incorrect or not available".to_owned(),
            ApiErrorResponse::AddressNotFound => "Address does not exist in our records".to_owned(),
            ApiErrorResponse::DisputeNotFound { .. } => "Dispute does not exist in our records".to_owned(),
            ApiErrorResponse::FileNotFound => "File does not exist in our records".to_owned(),
            ApiErrorResponse::FileNotAvailable => "File not available".to_owned(),
            ApiErrorResponse::DisputeStatusValidationFailed { .. } => "Dispute status validation failed".to_owned(),
            ApiErrorResponse::InvalidCardIin => "Card with the provided iin does not exist".to_owned(),
            ApiErrorResponse::InvalidCardIinLength => "The provided card IIN length is invalid, please provide an iin with 6 or 8 digits".to_owned(),
            ApiErrorResponse::FileValidationFailed { .. } => "File validation failed".to_owned(),
            ApiErrorResponse::MissingFile => "File not found / valid in the request".to_owned(),
            ApiErrorResponse::MissingDisputeId => "Dispute id not found in the request".to_owned(),
            ApiErrorResponse::MissingFilePurpose => "File purpose not found in the request or is invalid".to_owned(),
            ApiErrorResponse::MissingFileContentType => "File content type not found / valid".to_owned(),
            ApiErrorResponse::WebhookAuthenticationFailed => "Failed to authenticate the webhook".to_owned(),
            ApiErrorResponse::WebhookResourceNotFound => "Webhook resource not found".to_owned(),
            ApiErrorResponse::WebhookBadRequest => "Bad request received in webhook".to_owned(),
            ApiErrorResponse::WebhookProcessingFailure => "There was some issue processing the webhook".to_owned(),
            ApiErrorResponse::IncorrectPaymentMethodConfiguration => "required payment method is not configured or configured incorrectly for all configured connectors".to_owned(),
            ApiErrorResponse::WebhookUnprocessableEntity => "Unable to process the webhook body".to_owned(),
        }
    }

    /// The response kind, class and number that a client sees.
    pub open spec fn spec_switch_code(&self) -> (ClientErrorKind, Seq<char>, u16) {
        match self {
            ApiErrorResponse::NotImplemented { .. } => (ClientErrorKind::NotImplemented, "IR"@, 0),
            ApiErrorResponse::Unauthorized => (ClientErrorKind::Unauthorized, "IR"@, 1),
            ApiErrorResponse::InvalidRequestUrl => (ClientErrorKind::NotFound, "IR"@, 2),
            ApiErrorResponse::InvalidHttpMethod => (ClientErrorKind::MethodNotAllowed, "IR"@, 3),
            ApiErrorResponse::MissingRequiredField { .. } => (ClientErrorKind::BadRequest, "IR"@, 4),
            ApiErrorResponse::InvalidDataFormat { .. } => (ClientErrorKind::Unprocessable, "IR"@, 5),
            ApiErrorResponse::InvalidRequestData { .. } => (ClientErrorKind::Unprocessable, "IR"@, 6),
            ApiErrorResponse::InvalidDataValue { .. } => (ClientErrorKind::BadRequest, "IR"@, 7),
            ApiErrorResponse::ClientSecretNotGiven => (ClientErrorKind::BadRequest, "IR"@, 8),
            ApiErrorResponse::ClientSecretExpired => (ClientErrorKind::BadRequest, "IR"@, 19),
            ApiErrorResponse::ClientSecretInvalid => (ClientErrorKind::BadRequest, "IR"@, 9),
            ApiErrorResponse::MandateActive => (ClientErrorKind::BadRequest, "IR"@, 10),
            ApiErrorResponse::CustomerRedacted => (ClientErrorKind::BadRequest, "IR"@, 11),
            ApiErrorResponse::MaximumRefundCount => (ClientErrorKind::BadRequest, "IR"@, 12),
            ApiErrorResponse::RefundAmountExceedsPaymentAmount => (ClientErrorKind::BadRequest, "IR"@, 13),
            ApiErrorResponse::PaymentUnexpectedState { .. } => (ClientErrorKind::BadRequest, "IR"@, 14),
            ApiErrorResponse::InvalidEphemeralKey => (ClientErrorKind::Unauthorized, "IR"@, 15),
            ApiErrorResponse::PreconditionFailed { .. } => (ClientErrorKind::BadRequest, "IR"@, 16),
            ApiErrorResponse::InvalidJwtToken => (ClientErrorKind::Unauthorized, "IR"@, 17),
            ApiErrorResponse::GenericUnauthorized { .. } => (ClientErrorKind::Unauthorized, "IR"@, 18),
            ApiErrorResponse::NotSupported { .. } => (ClientErrorKind::BadRequest, "HE"@, 3),
            ApiErrorResponse::FlowNotSupported { .. } => (ClientErrorKind::BadRequest, "IR"@, 20),
            ApiErrorResponse::MissingRequiredFields { .. } => (ClientErrorKind::BadRequest, "IR"@, 21),
            ApiErrorResponse::AccessForbidden => (ClientErrorKind::ForbiddenCommonResource, "IR"@, 22),
            ApiErrorResponse::FileProviderNotSupported { .. } => (ClientErrorKind::BadRequest, "IR"@, 23),
            ApiErrorResponse::ExternalConnectorError { status_code, .. } => (
                ClientErrorKind::ConnectorError(spec_status_or_internal(*status_code)),
                "CE"@,
                0,
            ),
            ApiErrorResponse::PaymentAuthorizationFailed { .. } => (ClientErrorKind::BadRequest, "CE"@, 1),
            ApiErrorResponse::PaymentAuthenticationFailed { .. } => (ClientErrorKind::BadRequest, "CE"@, 2),
            ApiErrorResponse::PaymentCaptureFailed { .. } => (ClientErrorKind::BadRequest, "CE"@, 3),
            ApiErrorResponse::InvalidCardData { .. } => (ClientErrorKind::BadRequest, "CE"@, 4),
            ApiErrorResponse::CardExpired { .. } => (ClientErrorKind::BadRequest, "CE"@, 5),
            ApiErrorResponse::RefundFailed { .. } => (ClientErrorKind::BadRequest, "CE"@, 6),
            ApiErrorResponse::VerificationFailed { .. } => (ClientErrorKind::BadRequest, "CE"@, 7),
            ApiErrorResponse::DisputeFailed { .. } => (ClientErrorKind::BadRequest, "CE"@, 1),
            ApiErrorResponse::InternalServerError => (ClientErrorKind::InternalServerError, "HE"@, 0),
            ApiErrorResponse::DuplicateRefundRequest => (ClientErrorKind::BadRequest, "HE"@, 1),
            ApiErrorResponse::DuplicateMandate => (ClientErrorKind::BadRequest, "HE"@, 1),
            ApiErrorResponse::DuplicateMerchantAccount => (ClientErrorKind::BadRequest, "HE"@, 1),
            ApiErrorResponse::DuplicateMerchantConnectorAccount { .. } => (ClientErrorKind::BadRequest, "HE"@, 1),
            ApiErrorResponse::DuplicatePaymentMethod => (ClientErrorKind::BadRequest, "HE"@, 1),
            ApiErrorResponse::DuplicatePayment { .. } => (ClientErrorKind::BadRequest, "HE"@, 1),
            ApiErrorResponse::RefundNotFound => (ClientErrorKind::NotFound, "HE"@, 2),
            ApiErrorResponse::CustomerNotFound => (ClientErrorKind::NotFound, "HE"@, 2),
            ApiErrorResponse::ConfigNotFound => (ClientErrorKind::NotFound, "HE"@, 2),
            ApiErrorResponse::PaymentNotFound => (ClientErrorKind::NotFound, "HE"@, 2),
            ApiErrorResponse::PaymentMethodNotFound => (ClientErrorKind::NotFound, "HE"@, 2),
            ApiErrorResponse::MerchantAccountNotFound => (ClientErrorKind::NotFound, "HE"@, 2),
            ApiErrorResponse::MerchantConnectorAccountNotFound { .. } => (ClientErrorKind::NotFound, "HE"@, 2),
            ApiErrorResponse::ResourceIdNotFound => (ClientErrorKind::NotFound, "HE"@, 2),
            ApiErrorResponse::MandateNotFound => (ClientErrorKind::NotFound, "HE"@, 2),
            ApiErrorResponse::MandateUpdateFailed => (ClientErrorKind::InternalServerError, "HE"@, 0),
            ApiErrorResponse::ApiKeyNotFound => (ClientErrorKind::NotFound, "HE"@, 2),
            ApiErrorResponse::ReturnUrlUnavailable => (ClientErrorKind::NotFound, "HE"@, 3),
            ApiErrorResponse::RefundNotPossible { .. } => (ClientErrorKind::BadRequest, "HE"@, 3),
            ApiErrorResponse::MandateValidationFailed { .. } => (ClientErrorKind::BadRequest, "HE"@, 3),
            ApiErrorResponse::PaymentNotSucceeded => (ClientErrorKind::BadRequest, "HE"@, 3),
            ApiErrorResponse::MerchantConnectorAccountDisabled => (ClientErrorKind::BadRequest, "HE"@, 3),
            ApiErrorResponse::SuccessfulPaymentNotFound => (ClientErrorKind::NotFound, "HE"@, 4),
            ApiErrorResponse::IncorrectConnectorNameGiven => (ClientErrorKind::NotFound, "HE"@, 4),
            ApiErrorResponse::AddressNotFound => (ClientErrorKind::NotFound, "HE"@, 4),
            ApiErrorResponse::DisputeNotFound { .. } => (ClientErrorKind::NotFound, "HE"@, 2),
            ApiErrorResponse::FileNotFound => (ClientErrorKind::NotFound, "HE"@, 2),
            ApiErrorResponse::FileNotAvailable => (ClientErrorKind::NotFound, "HE"@, 2),
            ApiErrorResponse::DisputeStatusValidationFailed { .. } => (ClientErrorKind::BadRequest, "HE"@, 2),
            ApiErrorResponse::InvalidCardIin => (ClientErrorKind::BadRequest, "HE"@, 3),
            ApiErrorResponse::InvalidCardIinLength => (ClientErrorKind::BadRequest, "HE"@, 3),
            ApiErrorResponse::FileValidationFailed { .. } => (ClientErrorKind::BadRequest, "HE"@, 2),
            ApiErrorResponse::MissingFile => (ClientErrorKind::BadRequest, "HE"@, 2),
            ApiErrorResponse::MissingDisputeId => (ClientErrorKind::BadRequest, "HE"@, 2),
            ApiErrorResponse::MissingFilePurpose => (ClientErrorKind::BadRequest, "HE"@, 2),
            ApiErrorResponse::MissingFileContentType => (ClientErrorKind::BadRequest, "HE"@, 2),
            ApiErrorResponse::WebhookAuthenticationFailed => (ClientErrorKind::Unauthorized, "WE"@, 1),
            ApiErrorResponse::WebhookResourceNotFound => (ClientErrorKind::NotFound, "WE"@, 4),
            ApiErrorResponse::WebhookBadRequest => (ClientErrorKind::BadRequest, "WE"@, 2),
            ApiErrorResponse::WebhookProcessingFailure => (ClientErrorKind::InternalServerError, "WE"@, 3),
            ApiErrorResponse::IncorrectPaymentMethodConfiguration => (ClientErrorKind::BadRequest, "HE"@, 4),
            ApiErrorResponse::WebhookUnprocessableEntity => (ClientErrorKind::Unprocessable, "WE"@, 5),
        }
    }

    /// The message that a client sees.
    pub open spec fn spec_switch_message(&self) -> Seq<char> {
        match self {
            ApiErrorResponse::NotImplemented { message } => message.spec_message(),
            ApiErrorResponse::Unauthorized => "API key not provided or invalid API key used"@,
            ApiErrorResponse::InvalidRequestUrl => "Unrecognized request URL"@,
            ApiErrorResponse::InvalidHttpMethod => "The HTTP method is not applicable for this API"@,
            ApiErrorResponse::MissingRequiredField { field_name } => "Missing required param: "@ + field_name@,
            ApiErrorResponse::InvalidDataFormat { field_name, expected_format } => field_name@ + " contains invalid data. Expected format is "@ + expected_format@,
            ApiErrorResponse::InvalidRequestData { message } => message@,
            ApiErrorResponse::InvalidDataValue { field_name } => "Invalid value provided: "@ + field_name@,
            ApiErrorResponse::ClientSecretNotGiven => "client_secret was not provided"@,
            ApiErrorResponse::ClientSecretExpired => "The provided client_secret has expired"@,
            ApiErrorResponse::ClientSecretInvalid => "The client_secret provided does not match the client_secret associated with the Payment"@,
            ApiErrorResponse::MandateActive => "Customer has active mandate/subsciption"@,
            ApiErrorResponse::CustomerRedacted => "Customer has already been redacted"@,
            ApiErrorResponse::MaximumRefundCount => "Reached maximum refund attempts"@,
            ApiErrorResponse::RefundAmountExceedsPaymentAmount => "Refund amount exceeds the payment amount"@,
            ApiErrorResponse::PaymentUnexpectedState { current_flow, field_name, current_value, states } => "This Payment could not be "@ + current_flow@ + " because it has a "@ + field_name@ + " of "@ + current_value@ + ". The expected state is "@ + states@,
            ApiErrorResponse::InvalidEphemeralKey => "Invalid Ephemeral Key for the customer"@,
            ApiErrorResponse::PreconditionFailed { message } => message@,
            ApiErrorResponse::InvalidJwtToken => "Access forbidden, invalid JWT token was used"@,
            ApiErrorResponse::GenericUnauthorized { message } => message@,
            ApiErrorResponse::NotSupported { .. } => "Payment method type not supported"@,
            ApiErrorResponse::FlowNotSupported { flow, .. } => flow@ + " flow not supported"@,
            ApiErrorResponse::MissingRequiredFields { .. } => "Missing required params"@,
            ApiErrorResponse::AccessForbidden => "Access forbidden. Not authorized to access this resource"@,
            ApiErrorResponse::FileProviderNotSupported { message } => message@,
            ApiErrorResponse::ExternalConnectorError { code, message, .. } => code@ + ": "@ + message@,
            ApiErrorResponse::PaymentAuthorizationFailed { .. } => "Payment failed during authorization with connector. Retry payment"@,
            ApiErrorResponse::PaymentAuthenticationFailed { .. } => "Payment failed during authentication with connector. Retry payment"@,
            ApiErrorResponse::PaymentCaptureFailed { .. } => "Capture attempt failed while processing with connector"@,
            ApiErrorResponse::InvalidCardData { .. } => "The card data is invalid"@,
            ApiErrorResponse::CardExpired { .. } => "The card has expired"@,
            ApiErrorResponse::RefundFailed { .. } => "Refund failed while processing with connector. Retry refund"@,
            ApiErrorResponse::VerificationFailed { .. } => "Verification failed while processing with connector. Retry operation"@,
            ApiErrorResponse::DisputeFailed { .. } => "Dispute operation failed while processing with connector. Retry operation"@,
            ApiErrorResponse::InternalServerError => "Something went wrong"@,
            ApiErrorResponse::DuplicateRefundRequest => "Duplicate refund request. Refund already attempted with the refund ID"@,
            ApiErrorResponse::DuplicateMandate => "Duplicate mandate request. Mandate already attempted with the Mandate ID"@,
            ApiErrorResponse::DuplicateMerchantAccount => "The merchant account with the specified details already exists in our records"@,
            ApiErrorResponse::DuplicateMerchantConnectorAccount { connector_label } => "The merchant connector account with the specified connector_label '"@ + connector_label@ + "' already exists in our records"@,
            ApiErrorResponse::DuplicatePaymentMethod => "The payment method with the specified details already exists in our records"@,
            ApiErrorResponse::DuplicatePayment { payment_id } => "The payment with the specified payment_id '"@ + payment_id@ + "' already exists in our records"@,
            ApiErrorResponse::RefundNotFound => "Refund does not exist in our records."@,
            ApiErrorResponse::CustomerNotFound => "Customer does not exist in our records"@,
            ApiErrorResponse::ConfigNotFound => "Config key does not exist in our records."@,
            ApiErrorResponse::PaymentNotFound => "Payment does not exist in our records"@,
            ApiErrorResponse::PaymentMethodNotFound => "Payment method does not exist in our records"@,
            ApiErrorResponse::MerchantAccountNotFound => "Merchant account does not exist in our records"@,
            ApiErrorResponse::MerchantConnectorAccountNotFound { id } => "Merchant connector account with id '"@ + id@ + "' does not exist in our records"@,
            ApiErrorResponse::ResourceIdNotFound => "Resource ID does not exist in our records"@,
            ApiErrorResponse::MandateNotFound => "Mandate does not exist in our records"@,
            ApiErrorResponse::MandateUpdateFailed => "Something went wrong"@,
            ApiErrorResponse::ApiKeyNotFound => "API Key does not exist in our records"@,
            ApiErrorResponse::ReturnUrlUnavailable => "Return URL is not configured and not passed in payments request"@,
            ApiErrorResponse::RefundNotPossible { connector } => "This refund is not possible through Hyperswitch. Please raise the refund through "@ + connector@ + " dashboard"@,
            ApiErrorResponse::MandateValidationFailed { .. } => "Mandate Validation Failed"@,
            ApiErrorResponse::PaymentNotSucceeded => "The payment has not succeeded yet. Please pass a successful payment to initiate refund"@,
            ApiErrorResponse::MerchantConnectorAccountDisabled => "The selected merchant connector account is disabled"@,
            ApiErrorResponse::SuccessfulPaymentNotFound => "Successful payment not found for the given payment id"@,
            ApiErrorResponse::IncorrectConnectorNameGiven => "The connector provided in the request is incorrect or not available"@,
            ApiErrorResponse::AddressNotFound => "Address does not exist in our records"@,
            ApiErrorResponse::DisputeNotFound { .. } => "Dispute does not exist in our records"@,
            ApiErrorResponse::FileNotFound => "File does not exist in our records"@,
            ApiErrorResponse::FileNotAvailable => "File not available"@,
            ApiErrorResponse::DisputeStatusValidationFailed { .. } => "Dispute status validation failed"@,
            ApiErrorResponse::InvalidCardIin => "The provided card IIN does not exist"@,
            ApiErrorResponse::InvalidCardIinLength => "The provided card IIN length is invalid, please provide an IIN with 6 digits"@,
            ApiErrorResponse::FileValidationFailed { reason } => "File validation failed "@ + reason@,
            ApiErrorResponse::MissingFile => "File not found in the request"@,
            ApiErrorResponse::MissingDisputeId => "Dispute id not found in the request"@,
            ApiErrorResponse::MissingFilePurpose => "File purpose not found in the request or is invalid"@,
            ApiErrorResponse::MissingFileContentType => "File content type not found"@,
            ApiErrorResponse::WebhookAuthenticationFailed => "Webhook authentication failed"@,
            ApiErrorResponse::WebhookResourceNotFound => "Webhook resource was not found"@,
            ApiErrorResponse::WebhookBadRequest => "Bad request body received"@,
            ApiErrorResponse::WebhookProcessingFailure => "There was an issue processing the webhook"@,
            ApiErrorResponse::IncorrectPaymentMethodConfiguration => "No eligible connector was found for the current payment method configuration"@,
            ApiErrorResponse::WebhookUnprocessableEntity => "There was an issue processing the webhook body"@,
        }
    }

    /// What the structured extra data of the client-visible error holds.
    pub open spec fn switch_extra(&self, e: Option<Extra>) -> bool {
        match self {
            ApiErrorResponse::NotSupported { message } => e matches Some(x) && x.payment_id is None && x.data is None && opt_view(x.reason) == Some(message@) && x.connector is None,
            ApiErrorResponse::FlowNotSupported { connector, .. } => e matches Some(x) && x.payment_id is None && x.data is None && x.reason is None && opt_view(x.connector) == Some(connector@),
            ApiErrorResponse::MissingRequiredFields { .. } => e matches Some(x) && x.payment_id is None && x.data is Some && x.reason is None && x.connector is None,
            ApiErrorResponse::ExternalConnectorError { reason, connector, .. } => e matches Some(x) && x.payment_id is None && x.data is None && opt_view(x.reason) == opt_view(*reason) && opt_view(x.connector) == Some(connector@),
            ApiErrorResponse::PaymentAuthorizationFailed { data } => e == Some(Extra { payment_id: None, data: *data, reason: None, connector: None }),
            ApiErrorResponse::PaymentAuthenticationFailed { data } => e == Some(Extra { payment_id: None, data: *data, reason: None, connector: None }),
            ApiErrorResponse::PaymentCaptureFailed { data } => e == Some(Extra { payment_id: None, data: *data, reason: None, connector: None }),
            ApiErrorResponse::InvalidCardData { data } => e == Some(Extra { payment_id: None, data: *data, reason: None, connector: None }),
            ApiErrorResponse::CardExpired { data } => e == Some(Extra { payment_id: None, data: *data, reason: None, connector: None }),
            ApiErrorResponse::RefundFailed { data } => e == Some(Extra { payment_id: None, data: *data, reason: None, connector: None }),
            ApiErrorResponse::VerificationFailed { data } => e == Some(Extra { payment_id: None, data: *data, reason: None, connector: None }),
            ApiErrorResponse::DisputeFailed { data } => e == Some(Extra { payment_id: None, data: *data, reason: None, connector: None }),
            ApiErrorResponse::MandateValidationFailed { reason } => e matches Some(x) && x.payment_id is None && x.data is None && opt_view(x.reason) == Some(reason@) && x.connector is None,
            _ => e is None,
        }
    }

    /// The client-visible form of the failure.
    pub fn switch(&self) -> (r: ClientError)
        ensures
            r.kind == self.spec_switch_code().0,
            r.error.sub_code@ == self.spec_switch_code().1,
            r.error.error_identifier == self.spec_switch_code().2,
            r.error.error_message@ == self.spec_switch_message(),
            self.switch_extra(r.error.extra),
    {
        match self {
            ApiErrorResponse::NotImplemented { message } => ClientError {
                kind: ClientErrorKind::NotImplemented,
                error: ApiError {
                    sub_code: "IR",
                    error_identifier: 0,
                    error_message: message.message(),
                    extra: None,
                },
            },
            ApiErrorResponse::Unauthorized => ClientError {
                kind: ClientErrorKind::Unauthorized,
                error: ApiError {
                    sub_code: "IR",
                    error_identifier: 1,
                    error_message: "API key not provided or invalid API key used".to_owned(),
                    extra: None,
                },
            },
            ApiErrorResponse::InvalidRequestUrl => ClientError {
                kind: ClientErrorKind::NotFound,
                error: ApiError {
                    sub_code: "IR",
                    error_identifier: 2,
                    error_message: "Unrecognized request URL".to_owned(),
                    extra: None,
                },
            },
            ApiErrorResponse::InvalidHttpMethod => ClientError {
                kind: ClientErrorKind::MethodNotAllowed,
                error: ApiError {
                    sub_code: "IR",
                    error_identifier: 3,
                    error_message: "The HTTP method is not applicable for this API".to_owned(),
                    extra: None,
                },
            },
            ApiErrorResponse::MissingRequiredField { field_name } => ClientError {
                kind: ClientErrorKind::BadRequest,
                error: ApiError {
                    sub_code: "IR",
                    error_identifier: 4,
                    error_message: {
                        let mut s = "Missing required param: ".to_owned();
                        s.append(field_name.as_str());
                        s
                    },
                    extra: None,
                },
            },
            ApiErrorResponse::InvalidDataFormat { field_name, expected_format } => ClientError {
                kind: ClientErrorKind::Unprocessable,
                error: ApiError {
                    sub_code: "IR",
                    error_identifier: 5,
                    error_message: {
                        let mut s = field_name.clone();
                        s.append(" contains invalid data. Expected format is ");
                        s.append(expected_format.as_str());
                        s
                    },
                    extra: None,
                },
            },
            ApiErrorResponse::InvalidRequestData { message } => ClientError {
                kind: ClientErrorKind::Unprocessable,
                error: ApiError {
                    sub_code: "IR",
                    error_identifier: 6,
                    error_message: message.clone(),
                    extra: None,
                },
            },
            ApiErrorResponse::InvalidDataValue { field_name } => ClientError {
                kind: ClientErrorKind::BadRequest,
                error: ApiError {
                    sub_code: "IR",
                    error_identifier: 7,
                    error_message: {
                        let mut s = "Invalid value provided: ".to_owned();
                        s.append(field_name.as_str());
                        s
                    },
                    extra: None,
                },
            },
            ApiErrorResponse::ClientSecretNotGiven => ClientError {
                kind: ClientErrorKind::BadRequest,
                error: ApiError {
                    sub_code: "IR",
                    error_identifier: 8,
                    error_message: "client_secret was not provided".to_owned(),
                    extra: None,
                },
            },
            ApiErrorResponse::ClientSecretExpired => ClientError {
                kind: ClientErrorKind::BadRequest,
                error: ApiError {
                    sub_code: "IR",
                    error_identifier: 19,
                    error_message: "The provided client_secret has expired".to_owned(),
                    extra: None,
                },
            },
            ApiErrorResponse::ClientSecretInvalid => ClientError {
                kind: ClientErrorKind::BadRequest,
                error: ApiError {
                    sub_code: "IR",
                    error_identifier: 9,
                    error_message: "The client_secret provided does not match the client_secret associated with the Payment".to_owned(),
                    extra: None,
                },
            },
            ApiErrorResponse::MandateActive => ClientError {
                kind: ClientErrorKind::BadRequest,
                error: ApiError {
                    sub_code: "IR",
                    error_identifier: 10,
                    error_message: "Customer has active mandate/subsciption".to_owned(),
                    extra: None,
                },
            },
            ApiErrorResponse::CustomerRedacted => ClientError {
                kind: ClientErrorKind::BadRequest,
                error: ApiError {
                    sub_code: "IR",
                    error_identifier: 11,
                    error_message: "Customer has already been redacted".to_owned(),
                    extra: None,
                },
            },
            ApiErrorResponse::MaximumRefundCount => ClientError {
                kind: ClientErrorKind::BadRequest,
                error: ApiError {
                    sub_code: "IR",
                    error_identifier: 12,
                    error_message: "Reached maximum refund attempts".to_owned(),
                    extra: None,
                },
            },
            ApiErrorResponse::RefundAmountExceedsPaymentAmount => ClientError {
                kind: ClientErrorKind::BadRequest,
                error: ApiError {
                    sub_code: "IR",
                    error_identifier: 13,
                    error_message: "Refund amount exceeds the payment amount".to_owned(),
                    extra: None,
                },
            },
            ApiErrorResponse::PaymentUnexpectedState { current_flow, field_name, current_value, states } => ClientError {
                kind: ClientErrorKind::BadRequest,
                error: ApiError {
                    sub_code: "IR",
                    error_identifier: 14,
                    error_message: {
                        let mut s = "This Payment could not be ".to_owned();
                        s.append(current_flow.as_str());
                        s.append(" because it has a ");
                        s.append(field_name.as_str());
                        s.append(" of ");
                        s.append(current_value.as_str());
                        s.append(". The expected state is ");
                        s.append(states.as_str());
                        s
                    },
                    extra: None,
                },
            },
            ApiErrorResponse::InvalidEphemeralKey => ClientError {
                kind: ClientErrorKind::Unauthorized,
                error: ApiError {
                    sub_code: "IR",
                    error_identifier: 15,
                    error_message: "Invalid Ephemeral Key for the customer".to_owned(),
                    extra: None,
                },
            },
            ApiErrorResponse::PreconditionFailed { message } => ClientError {
                kind: ClientErrorKind::BadRequest,
                error: ApiError {
                    sub_code: "IR",
                    error_identifier: 16,
                    error_message: message.clone(),
                    extra: None,
                },
            },
            ApiErrorResponse::InvalidJwtToken => ClientError {
                kind: ClientErrorKind::Unauthorized,
                error: ApiError {
                    sub_code: "IR",
                    error_identifier: 17,
                    error_message: "Access forbidden, invalid JWT token was used".to_owned(),
                    extra: None,
                },
            },
            ApiErrorResponse::GenericUnauthorized { message } => ClientError {
                kind: ClientErrorKind::Unauthorized,
                error: ApiError {
                    sub_code: "IR",
                    error_identifier: 18,
                    error_message: message.clone(),
                    extra: None,
                },
            },
            ApiErrorResponse::NotSupported { message } => ClientError {
                kind: ClientErrorKind::BadRequest,
                error: ApiError {
                    sub_code: "HE",
                    error_identifier: 3,
                    error_message: "Payment method type not supported".to_owned(),
                    extra: Some(Extra { payment_id: None, data: None, reason: Some(message.clone()), connector: None }),
                },
            },
            ApiErrorResponse::FlowNotSupported { flow, connector } => ClientError {
                kind: ClientErrorKind::BadRequest,
                error: ApiError {
                    sub_code: "IR",
                    error_identifier: 20,
                    error_message: {
                        let mut s = flow.clone();
                        s.append(" flow not supported");
                        s
                    },
                    extra: Some(Extra { payment_id: None, data: None, reason: None, connector: Some(connector.clone()) }),
                },
            },
            ApiErrorResponse::MissingRequiredFields { field_names } => ClientError {
                kind: ClientErrorKind::BadRequest,
                error: ApiError {
                    sub_code: "IR",
                    error_identifier: 21,
                    error_message: "Missing required params".to_owned(),
                    extra: Some(Extra { payment_id: None, data: Some(json_string_array(field_names)), reason: None, connector: None }),
                },
            },
            ApiErrorResponse::AccessForbidden => ClientError {
                kind: ClientErrorKind::ForbiddenCommonResource,
                error: ApiError {
                    sub_code: "IR",
                    error_identifier: 22,
                    error_message: "Access forbidden. Not authorized to access this resource".to_owned(),
                    extra: None,
                },
            },
            ApiErrorResponse::FileProviderNotSupported { message } => ClientError {
                kind: ClientErrorKind::BadRequest,
                error: ApiError {
                    sub_code: "IR",
                    error_identifier: 23,
                    error_message: message.clone(),
                    extra: None,
                },
            },
            ApiErrorResponse::ExternalConnectorError { code, message, connector, reason, status_code } => ClientError {
                kind: ClientErrorKind::ConnectorError(status_or_internal(*status_code)),
                error: ApiError {
                    sub_code: "CE",
                    error_identifier: 0,
                    error_message: {
                        let mut s = code.clone();
                        s.append(": ");
                        s.append(message.as_str());
                        s
                    },
                    extra: Some(Extra { payment_id: None, data: None, reason: clone_opt(reason), connector: Some(connector.clone()) }),
                },
            },
            ApiErrorResponse::PaymentAuthorizationFailed { data } => ClientError {
                kind: ClientErrorKind::BadRequest,
                error: ApiError {
                    sub_code: "CE",
                    error_identifier: 1,
                    error_message: "Payment failed during authorization with connector. Retry payment".to_owned(),
                    extra: Some(Extra { payment_id: None, data: clone_json(data), reason: None, connector: None }),
                },
            },
            ApiErrorResponse::PaymentAuthenticationFailed { data } => ClientError {
                kind: ClientErrorKind::BadRequest,
                error: ApiError {
                    sub_code: "CE",
                    error_identifier: 2,
                    error_message: "Payment failed during authentication with connector. Retry payment".to_owned(),
                    extra: Some(Extra { payment_id: None, data: clone_json(data), reason: None, connector: None }),
                },
            },
            ApiErrorResponse::PaymentCaptureFailed { data } => ClientError {
                kind: ClientErrorKind::BadRequest,
                error: ApiError {
                    sub_code: "CE",
                    error_identifier: 3,
                    error_message: "Capture attempt failed while processing with connector".to_owned(),
                    extra: Some(Extra { payment_id: None, data: clone_json(data), reason: None, connector: None }),
                },
            },
            ApiErrorResponse::InvalidCardData { data } => ClientError {
                kind: ClientErrorKind::BadRequest,
                error: ApiError {
                    sub_code: "CE",
                    error_identifier: 4,
                    error_message: "The card data is invalid".to_owned(),
                    extra: Some(Extra { payment_id: None, data: clone_json(data), reason: None, connector: None }),
                },
            },
            ApiErrorResponse::CardExpired { data } => ClientError {
                kind: ClientErrorKind::BadRequest,
                error: ApiError {
                    sub_code: "CE",
                    error_identifier: 5,
                    error_message: "The card has expired".to_owned(),
                    extra: Some(Extra { payment_id: None, data: clone_json(data), reason: None, connector: None }),
                },
            },
            ApiErrorResponse::RefundFailed { data } => ClientError {
                kind: ClientErrorKind::BadRequest,
                error: ApiError {
                    sub_code: "CE",
                    error_identifier: 6,
                    error_message: "Refund failed while processing with connector. Retry refund".to_owned(),
                    extra: Some(Extra { payment_id: None, data: clone_json(data), reason: None, connector: None }),
                },
            },
            ApiErrorResponse::VerificationFailed { data } => ClientError {
                kind: ClientErrorKind::BadRequest,
                error: ApiError {
                    sub_code: "CE",
                    error_identifier: 7,
                    error_message: "Verification failed while processing with connector. Retry operation".to_owned(),
                    extra: Some(Extra { payment_id: None, data: clone_json(data), reason: None, connector: None }),
                },
            },
            ApiErrorResponse::DisputeFailed { data } => ClientError {
                kind: ClientErrorKind::BadRequest,
                error: ApiError {
                    sub_code: "CE",
                    error_identifier: 1,
                    error_message: "Dispute operation failed while processing with connector. Retry operation".to_owned(),
                    extra: Some(Extra { payment_id: None, data: clone_json(data), reason: None, connector: None }),
                },
            },
            ApiErrorResponse::InternalServerError => ClientError {
                kind: ClientErrorKind::InternalServerError,
                error: ApiError {
                    sub_code: "HE",
                    error_identifier: 0,
                    error_message: "Something went wrong".to_owned(),
                    extra: None,
                },
            },
            ApiErrorResponse::DuplicateRefundRequest => ClientError {
                kind: ClientErrorKind::BadRequest,
                error: ApiError {
                    sub_code: "HE",
                    error_identifier: 1,
                    error_message: "Duplicate refund request. Refund already attempted with the refund ID".to_owned(),
                    extra: None,
                },
            },
            ApiErrorResponse::DuplicateMandate => ClientError {
                kind: ClientErrorKind::BadRequest,
                error: ApiError {
                    sub_code: "HE",
                    error_identifier: 1,
                    error_message: "Duplicate mandate request. Mandate already attempted with the Mandate ID".to_owned(),
                    extra: None,
                },
            },
            ApiErrorResponse::DuplicateMerchantAccount => ClientError {
                kind: ClientErrorKind::BadRequest,
                error: ApiError {
                    sub_code: "HE",
                    error_identifier: 1,
                    error_message: "The merchant account with the specified details already exists in our records".to_owned(),
                    extra: None,
                },
            },
            ApiErrorResponse::DuplicateMerchantConnectorAccount { connector_label } => ClientError {
                kind: ClientErrorKind::BadRequest,
                error: ApiError {
                    sub_code: "HE",
                    error_identifier: 1,
                    error_message: {
                        let mut s = "The merchant connector account with the specified connector_label '".to_owned();
                        s.append(connector_label.as_str());
                        s.append("' already exists in our records");
                        s
                    },
                    extra: None,
                },
            },
            ApiErrorResponse::DuplicatePaymentMethod => ClientError {
                kind: ClientErrorKind::BadRequest,
                error: ApiError {
                    sub_code: "HE",
                    error_identifier: 1,
                    error_message: "The payment method with the specified details already exists in our records".to_owned(),
                    extra: None,
                },
            },
            ApiErrorResponse::DuplicatePayment { payment_id } => ClientError {
                kind: ClientErrorKind::BadRequest,
                error: ApiError {
                    sub_code: "HE",
                    error_identifier: 1,
                    error_message: {
                        let mut s = "The payment with the specified payment_id '".to_owned();
                        s.append(payment_id.as_str());
                        s.append("' already exists in our records");
                        s
                    },
                    extra: None,
                },
            },
            ApiErrorResponse::RefundNotFound => ClientError {
                kind: ClientErrorKind::NotFound,
                error: ApiError {
                    sub_code: "HE",
                    error_identifier: 2,
                    error_message: "Refund does not exist in our records.".to_owned(),
                    extra: None,
                },
            },
            ApiErrorResponse::CustomerNotFound => ClientError {
                kind: ClientErrorKind::NotFound,
                error: ApiError {
                    sub_code: "HE",
                    error_identifier: 2,
                    error_message: "Customer does not exist in our records".to_owned(),
                    extra: None,
                },
            },
            ApiErrorResponse::ConfigNotFound => ClientError {
                kind: ClientErrorKind::NotFound,
                error: ApiError {
                    sub_code: "HE",
                    error_identifier: 2,
                    error_message: "Config key does not exist in our records.".to_owned(),
                    extra: None,
                },
            },
            ApiErrorResponse::PaymentNotFound => ClientError {
                kind: ClientErrorKind::NotFound,
                error: ApiError {
                    sub_code: "HE",
                    error_identifier: 2,
                    error_message: "Payment does not exist in our records".to_owned(),
                    extra: None,
                },
            },
            ApiErrorResponse::PaymentMethodNotFound => ClientError {
                kind: ClientErrorKind::NotFound,
                error: ApiError {
                    sub_code: "HE",
                    error_identifier: 2,
                    error_message: "Payment method does not exist in our records".to_owned(),
                    extra: None,
                },
            },
            ApiErrorResponse::MerchantAccountNotFound => ClientError {
                kind: ClientErrorKind::NotFound,
                error: ApiError {
                    sub_code: "HE",
                    error_identifier: 2,
                    error_message: "Merchant account does not exist in our records".to_owned(),
                    extra: None,
                },
            },
            ApiErrorResponse::MerchantConnectorAccountNotFound { id } => ClientError {
                kind: ClientErrorKind::NotFound,
                error: ApiError {
                    sub_code: "HE",
                    error_identifier: 2,
                    error_message: {
                        let mut s = "Merchant connector account with id '".to_owned();
                        s.append(id.as_str());
                        s.append("' does not exist in our records");
                        s
                    },
                    extra: None,
                },
            },
            ApiErrorResponse::ResourceIdNotFound => ClientError {
                kind: ClientErrorKind::NotFound,
                error: ApiError {
                    sub_code: "HE",
                    error_identifier: 2,
                    error_message: "Resource ID does not exist in our records".to_owned(),
                    extra: None,
                },
            },
            ApiErrorResponse::MandateNotFound => ClientError {
                kind: ClientErrorKind::NotFound,
                error: ApiError {
                    sub_code: "HE",
                    error_identifier: 2,
                    error_message: "Mandate does not exist in our records".to_owned(),
                    extra: None,
                },
            },
            ApiErrorResponse::MandateUpdateFailed => ClientError {
                kind: ClientErrorKind::InternalServerError,
                error: ApiError {
                    sub_code: "HE",
                    error_identifier: 0,
                    error_message: "Something went wrong".to_owned(),
                    extra: None,
                },
            },
            ApiErrorResponse::ApiKeyNotFound => ClientError {
                kind: ClientErrorKind::NotFound,
                error: ApiError {
                    sub_code: "HE",
                    error_identifier: 2,
                    error_message: "API Key does not exist in our records".to_owned(),
                    extra: None,
                },
            },
            ApiErrorResponse::ReturnUrlUnavailable => ClientError {
                kind: ClientErrorKind::NotFound,
                error: ApiError {
                    sub_code: "HE",
                    error_identifier: 3,
                    error_message: "Return URL is not configured and not passed in payments request".to_owned(),
                    extra: None,
                },
            },
            ApiErrorResponse::RefundNotPossible { connector } => ClientError {
                kind: ClientErrorKind::BadRequest,
                error: ApiError {
                    sub_code: "HE",
                    error_identifier: 3,
                    error_message: {
                        let mut s = "This refund is not possible through Hyperswitch. Please raise the refund through ".to_owned();
                        s.append(connector.as_str());
                        s.append(" dashboard");
                        s
                    },
                    extra: None,
                },
            },
            ApiErrorResponse::MandateValidationFailed { reason } => ClientError {
                kind: ClientErrorKind::BadRequest,
                error: ApiError {
                    sub_code: "HE",
                    error_identifier: 3,
                    error_message: "Mandate Validation Failed".to_owned(),
                    extra: Some(Extra { payment_id: None, data: None, reason: Some(reason.clone()), connector: None }),
                },
            },
            ApiErrorResponse::PaymentNotSucceeded => ClientError {
                kind: ClientErrorKind::BadRequest,
                error: ApiError {
                    sub_code: "HE",
                    error_identifier: 3,
                    error_message: "The payment has not succeeded yet. Please pass a successful payment to initiate refund".to_owned(),
                    extra: None,
                },
            },
            ApiErrorResponse::MerchantConnectorAccountDisabled => ClientError {
                kind: ClientErrorKind::BadRequest,
                error: ApiError {
                    sub_code: "HE",
                    error_identifier: 3,
                    error_message: "The selected merchant connector account is disabled".to_owned(),
                    extra: None,
                },
            },
            ApiErrorResponse::SuccessfulPaymentNotFound => ClientError {
                kind: ClientErrorKind::NotFound,
                error: ApiError {
                    sub_code: "HE",
                    error_identifier: 4,
                    error_message: "Successful payment not found for the given payment id".to_owned(),
                    extra: None,
                },
            },
            ApiErrorResponse::IncorrectConnectorNameGiven => ClientError {
                kind: ClientErrorKind::NotFound,
                error: ApiError {
                    sub_code: "HE",
                    error_identifier: 4,
                    error_message: "The connector provided in the request is incorrect or not available".to_owned(),
                    extra: None,
                },
            },
            ApiErrorResponse::AddressNotFound => ClientError {
                kind: ClientErrorKind::NotFound,
                error: ApiError {
                    sub_code: "HE",
                    error_identifier: 4,
                    error_message: "Address does not exist in our records".to_owned(),
                    extra: None,
                },
            },
            ApiErrorResponse::DisputeNotFound { .. } => ClientError {
                kind: ClientErrorKind::NotFound,
                error: ApiError {
                    sub_code: "HE",
                    error_identifier: 2,
                    error_message: "Dispute does not exist in our records".to_owned(),
                    extra: None,
                },
            },
            ApiErrorResponse::FileNotFound => ClientError {
                kind: ClientErrorKind::NotFound,
                error: ApiError {
                    sub_code: "HE",
                    error_identifier: 2,
                    error_message: "File does not exist in our records".to_owned(),
                    extra: None,
                },
            },
            ApiErrorResponse::FileNotAvailable => ClientError {
                kind: ClientErrorKind::NotFound,
                error: ApiError {
                    sub_code: "HE",
                    error_identifier: 2,
                    error_message: "File not available".to_owned(),
                    extra: None,
                },
            },
            ApiErrorResponse::DisputeStatusValidationFailed { .. } => ClientError {
                kind: ClientErrorKind::BadRequest,
                error: ApiError {
                    sub_code: "HE",
                    error_identifier: 2,
                    error_message: "Dispute status validation failed".to_owned(),
                    extra: None,
                },
            },
            ApiErrorResponse::InvalidCardIin => ClientError {
                kind: ClientErrorKind::BadRequest,
                error: ApiError {
                    sub_code: "HE",
                    error_identifier: 3,
                    error_message: "The provided card IIN does not exist".to_owned(),
                    extra: None,
                },
            },
            ApiErrorResponse::InvalidCardIinLength => ClientError {
                kind: ClientErrorKind::BadRequest,
                error: ApiError {
                    sub_code: "HE",
                    error_identifier: 3,
                    error_message: "The provided card IIN length is invalid, please provide an IIN with 6 digits".to_owned(),
                    extra: None,
                },
            },
            ApiErrorResponse::FileValidationFailed { reason } => ClientError {
                kind: ClientErrorKind::BadRequest,
                error: ApiError {
                    sub_code: "HE",
                    error_identifier: 2,
                    error_message: {
                        let mut s = "File validation failed ".to_owned();
                        s.append(reason.as_str());
                        s
                    },
                    extra: None,
                },
            },
            ApiErrorResponse::MissingFile => ClientError {
                kind: ClientErrorKind::BadRequest,
                error: ApiError {
                    sub_code: "HE",
                    error_identifier: 2,
                    error_message: "File not found in the request".to_owned(),
                    extra: None,
                },
            },
            ApiErrorResponse::MissingDisputeId => ClientError {
                kind: ClientErrorKind::BadRequest,
                error: ApiError {
                    sub_code: "HE",
                    error_identifier: 2,
                    error_message: "Dispute id not found in the request".to_owned(),
                    extra: None,
                },
            },
            ApiErrorResponse::MissingFilePurpose => ClientError {
                kind: ClientErrorKind::BadRequest,
                error: ApiError {
                    sub_code: "HE",
                    error_identifier: 2,
                    error_message: "File purpose not found in the request or is invalid".to_owned(),
                    extra: None,
                },
            },
            ApiErrorResponse::MissingFileContentType => ClientError {
                kind: ClientErrorKind::BadRequest,
                error: ApiError {
                    sub_code: "HE",
                    error_identifier: 2,
                    error_message: "File content type not found".to_owned(),
                    extra: None,
                },
            },
            ApiErrorResponse::WebhookAuthenticationFailed => ClientError {
                kind: ClientErrorKind::Unauthorized,
                error: ApiError {
                    sub_code: "WE",
                    error_identifier: 1,
                    error_message: "Webhook authentication failed".to_owned(),
                    extra: None,
                },
            },
            ApiErrorResponse::WebhookResourceNotFound => ClientError {
                kind: ClientErrorKind::NotFound,
                error: ApiError {
                    sub_code: "WE",
                    error_identifier: 4,
                    error_message: "Webhook resource was not found".to_owned(),
                    extra: None,
                },
            },
            ApiErrorResponse::WebhookBadRequest => ClientError {
                kind: ClientErrorKind::BadRequest,
                error: ApiError {
                    sub_code: "WE",
                    error_identifier: 2,
                    error_message: "Bad request body received".to_owned(),
                    extra: None,
                },
            },
            ApiErrorResponse::WebhookProcessingFailure => ClientError {
                kind: ClientErrorKind::InternalServerError,
                error: ApiError {
                    sub_code: "WE",
                    error_identifier: 3,
                    error_message: "There was an issue processing the webhook".to_owned(),
                    extra: None,
                },
            },
            ApiErrorResponse::IncorrectPaymentMethodConfiguration => ClientError {
                kind: ClientErrorKind::BadRequest,
                error: ApiError {
                    sub_code: "HE",
                    error_identifier: 4,
                    error_message: "No eligible connector was found for the current payment method configuration".to_owned(),
                    extra: None,
                },
            },
            ApiErrorResponse::WebhookUnprocessableEntity => ClientError {
                kind: ClientErrorKind::Unprocessable,
                error: ApiError {
                    sub_code: "WE",
                    error_identifier: 5,
                    error_message: "There was an issue processing the webhook body".to_owned(),
                    extra: None,
                },
            },
        }
    }

    /// The HTTP status of the client-visible form.
    pub fn status_code(&self) -> (r: u16)
        ensures
            r == self.spec_switch_code().0.spec_status(),
    {
        self.switch().kind.status()
    }
}

} // verus!
