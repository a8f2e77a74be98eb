//! The attempt record and the values it carries from the orchestrator to a
//! connector and back.
use vstd::prelude::*;

use crate::errors::{ConnectorError, ErrorResponse};

verus! {

/// One payment-lifecycle operation.
#[derive(Clone, Copy, Debug, PartialEq, Eq, Structural)]
pub enum Flow {
    Authorize,
    PSync,
    Capture,
    Void,
    Session,
    AccessTokenAuth,
    Verify,
    PaymentMethodToken,
    CompleteAuthorize,
    CreateConnectorCustomer,
    PreProcessing,
    RefundExecute,
    RefundSync,
    AcceptDispute,
    SubmitEvidence,
    DefendDispute,
    UploadFile,
    RetrieveFile,
    PayoutCreate,
    PayoutEligibility,
    PayoutFulfill,
    PayoutCancel,
    PayoutQuote,
    PayoutRecipient,
}

#[derive(Clone, Copy, Debug, PartialEq, Eq, Structural)]
pub enum AttemptStatus {
    Started,
    AuthenticationFailed,
    RouterDeclined,
    AuthenticationPending,
    AuthenticationSuccessful,
    Authorized,
    AuthorizationFailed,
    Charged,
    Authorizing,
    CodInitiated,
    Voided,
    VoidInitiated,
    CaptureInitiated,
    CaptureFailed,
    VoidFailed,
    AutoRefunded,
    PartialCharged,
    Unresolved,
    Pending,
    Failure,
    PaymentMethodAwaited,
    ConfirmationAwaited,
    DeviceDataCollectionPending,
}

#[derive(Clone, Copy, Debug, PartialEq, Eq, Structural)]
pub enum RefundStatus {
    Failure,
    ManualReview,
    Pending,
    Success,
    TransactionFailure,
}

#[derive(Clone, Copy, Debug, PartialEq, Eq, Structural)]
pub enum Currency {
    AUD,
    BRL,
    CAD,
    CHF,
    EUR,
    GBP,
    INR,
    JPY,
    PLN,
    SGD,
    USD,
}

#[derive(Clone, Copy, Debug, PartialEq, Eq, Structural)]
pub enum CaptureMethod {
    Automatic,
    Manual,
    ManualMultiple,
    Scheduled,
}

#[derive(Clone, Copy, Debug, PartialEq, Eq, Structural)]
pub enum PaymentExperience {
    RedirectToUrl,
    InvokeSdkClient,
    DisplayQrCode,
    OneClick,
    LinkWallet,
    InvokePaymentApp,
}

impl PaymentExperience {
    pub open spec fn spec_name(self) -> Seq<char> {
        match self {
            PaymentExperience::RedirectToUrl => "redirect_to_url"@,
            PaymentExperience::InvokeSdkClient => "invoke_sdk_client"@,
            PaymentExperience::DisplayQrCode => "display_qr_code"@,
            PaymentExperience::OneClick => "one_click"@,
            PaymentExperience::LinkWallet => "link_wallet"@,
            PaymentExperience::InvokePaymentApp => "invoke_payment_app"@,
        }
    }

    /// The snake-case name under which the experience is known to clients.
    pub fn name(&self) -> (r: &'static str)
        ensures
            r@ == self.spec_name(),
    {
        match self {
            PaymentExperience::RedirectToUrl => "redirect_to_url",
            PaymentExperience::InvokeSdkClient => "invoke_sdk_client",
            PaymentExperience::DisplayQrCode => "display_qr_code",
            PaymentExperience::OneClick => "one_click",
            PaymentExperience::LinkWallet => "link_wallet",
            PaymentExperience::InvokePaymentApp => "invoke_payment_app",
        }
    }
}

#[derive(Clone, Copy, Debug, PartialEq, Eq, Structural)]
pub enum PaymentMethodType {
    Credit,
    Debit,
    GooglePay,
    ApplePay,
    PayPal,
    Klarna,
    Affirm,
    AfterpayClearpay,
    Ideal,
    Sofort,
    Giropay,
    Eps,
    Ach,
    Sepa,
    Bacs,
    CryptoCurrency,
}

impl PaymentMethodType {
    pub open spec fn spec_name(self) -> Seq<char> {
        match self {
            PaymentMethodType::Credit => "credit"@,
            PaymentMethodType::Debit => "debit"@,
            PaymentMethodType::GooglePay => "google_pay"@,
            PaymentMethodType::ApplePay => "apple_pay"@,
            PaymentMethodType::PayPal => "paypal"@,
            PaymentMethodType::Klarna => "klarna"@,
            PaymentMethodType::Affirm => "affirm"@,
            PaymentMethodType::AfterpayClearpay => "afterpay_clearpay"@,
            PaymentMethodType::Ideal => "ideal"@,
            PaymentMethodType::Sofort => "sofort"@,
            PaymentMethodType::Giropay => "giropay"@,
            PaymentMethodType::Eps => "eps"@,
            PaymentMethodType::Ach => "ach"@,
            PaymentMethodType::Sepa => "sepa"@,
            PaymentMethodType::Bacs => "bacs"@,
            PaymentMethodType::CryptoCurrency => "crypto_currency"@,
        }
    }

    /// The snake-case name under which the instrument type is known to clients.
    pub fn name(&self) -> (r: &'static str)
        ensures
            r@ == self.spec_name(),
    {
        match self {
            PaymentMethodType::Credit => "credit",
            PaymentMethodType::Debit => "debit",
            PaymentMethodType::GooglePay => "google_pay",
            PaymentMethodType::ApplePay => "apple_pay",
            PaymentMethodType::PayPal => "paypal",
            PaymentMethodType::Klarna => "klarna",
            PaymentMethodType::Affirm => "affirm",
            PaymentMethodType::AfterpayClearpay => "afterpay_clearpay",
            PaymentMethodType::Ideal => "ideal",
            PaymentMethodType::Sofort => "sofort",
            PaymentMethodType::Giropay => "giropay",
            PaymentMethodType::Eps => "eps",
            PaymentMethodType::Ach => "ach",
            PaymentMethodType::Sepa => "sepa",
            PaymentMethodType::Bacs => "bacs",
            PaymentMethodType::CryptoCurrency => "crypto_currency",
        }
    }
}

#[derive(Clone, Debug, PartialEq, Eq)]
pub struct Card {
    pub card_number: String,
    pub card_exp_month: String,
    pub card_exp_year: String,
    pub card_holder_name: String,
    pub card_cvc: String,
}

/// The payment instrument of an attempt. Only cards carry details that a
/// connector of this library reads.
#[derive(Clone, Debug, PartialEq, Eq)]
pub enum PaymentMethodData {
    Card(Card),
    Wallet,
    PayLater,
    BankRedirect,
    BankDebit,
    BankTransfer,
    Crypto,
    MandatePayment,
}

/// The merchant's stored credential for one connector.
#[derive(Clone, Debug, PartialEq, Eq)]
pub enum ConnectorAuthType {
    HeaderKey { api_key: String },
    BodyKey { api_key: String, key1: String },
    SignatureKey { api_key: String, key1: String, api_secret: String },
    NoKey,
}

/// How the upstream service identifies a payment.
#[derive(Clone, Debug, PartialEq, Eq)]
pub enum ResponseId {
    ConnectorTransactionId(String),
    EncodedData(String),
    NoResponseId,
}

impl ResponseId {
    /// The upstream transaction id, where one is present and not empty.
    pub fn get_connector_transaction_id(&self) -> (r: Result<&String, ConnectorError>)
        ensures
            match self {
                ResponseId::ConnectorTransactionId(id) => if id@.len() > 0 {
                    r == Ok::<&String, ConnectorError>(id)
                } else {
                    r == Err::<&String, ConnectorError>(ConnectorError::MissingConnectorTransactionID)
                },
                _ => r == Err::<&String, ConnectorError>(ConnectorError::MissingConnectorTransactionID),
            },
    {
        match self {
            ResponseId::ConnectorTransactionId(id) => {
                if id.as_str().unicode_len() > 0 {
                    Ok(id)
                } else {
                    Err(ConnectorError::MissingConnectorTransactionID)
                }
            },
            _ => Err(ConnectorError::MissingConnectorTransactionID),
        }
    }
}

#[derive(Clone, Debug, PartialEq, Eq)]
pub struct PaymentsAuthorizeData {
    pub payment_method_data: PaymentMethodData,
    pub amount: i64,
    pub currency: Currency,
    pub capture_method: Option<CaptureMethod>,
    pub payment_method_type: Option<PaymentMethodType>,
    pub router_return_url: Option<String>,
}

pub open spec fn spec_is_auto_capture(capture_method: Option<CaptureMethod>) -> Result<
    bool,
    ConnectorError,
> {
    match capture_method {
        None | Some(CaptureMethod::Automatic) => Ok(true),
        Some(CaptureMethod::Manual) => Ok(false),
        _ => Err(ConnectorError::CaptureMethodNotSupported),
    }
}

impl PaymentsAuthorizeData {
    /// Whether the payment is captured as part of the authorization; an absent
    /// capture method means automatic capture.
    pub fn is_auto_capture(&self) -> (r: Result<bool, ConnectorError>)
        ensures
            r == spec_is_auto_capture(self.capture_method),
    {
        match self.capture_method {
            None | Some(CaptureMethod::Automatic) => Ok(true),
            Some(CaptureMethod::Manual) => Ok(false),
            _ => Err(ConnectorError::CaptureMethodNotSupported),
        }
    }

    /// The instrument type of the attempt, which the caller must have supplied.
    pub fn get_payment_method_type(&self) -> (r: Result<PaymentMethodType, ConnectorError>)
        ensures
            match self.payment_method_type {
                Some(t) => r == Ok::<PaymentMethodType, ConnectorError>(t),
                None => r == Err::<PaymentMethodType, ConnectorError>(
                    ConnectorError::MissingRequiredField { field_name: "payment_method_type" },
                ),
            },
    {
        match self.payment_method_type {
            Some(t) => Ok(t),
            None => Err(ConnectorError::MissingRequiredField { field_name: "payment_method_type" }),
        }
    }
}

#[derive(Clone, Debug, PartialEq, Eq)]
pub struct PaymentsSyncData {
    pub connector_transaction_id: ResponseId,
}

#[derive(Clone, Debug, PartialEq, Eq)]
pub struct PaymentsCaptureData {
    pub amount_to_capture: i64,
    pub currency: Currency,
    pub connector_transaction_id: String,
}

#[derive(Clone, Debug, PartialEq, Eq)]
pub struct PaymentsCancelData {
    pub connector_transaction_id: String,
    pub cancellation_reason: Option<String>,
}

#[derive(Clone, Debug, PartialEq, Eq)]
pub struct RefundsData {
    pub refund_id: String,
    pub connector_transaction_id: String,
    pub connector_refund_id: Option<String>,
    pub currency: Currency,
    pub payment_amount: i64,
    pub refund_amount: i64,
}

impl RefundsData {
    /// The upstream refund id, where one is present and not empty.
    pub fn get_connector_refund_id(&self) -> (r: Result<&String, ConnectorError>)
        ensures
            match self.connector_refund_id {
                Some(id) => if id@.len() > 0 {
                    r == Ok::<&String, ConnectorError>(&id)
                } else {
                    r == Err::<&String, ConnectorError>(ConnectorError::MissingConnectorRefundID)
                },
                None => r == Err::<&String, ConnectorError>(ConnectorError::MissingConnectorRefundID),
            },
    {
        match &self.connector_refund_id {
            Some(id) => {
                if id.as_str().unicode_len() > 0 {
                    Ok(id)
                } else {
                    Err(ConnectorError::MissingConnectorRefundID)
                }
            },
            None => Err(ConnectorError::MissingConnectorRefundID),
        }
    }
}

/// The flow-specific request payload of an attempt; its variant names the flow.
#[derive(Clone, Debug, PartialEq, Eq)]
pub enum FlowRequest {
    Authorize(PaymentsAuthorizeData),
    PSync(PaymentsSyncData),
    Capture(PaymentsCaptureData),
    Void(PaymentsCancelData),
    RefundExecute(RefundsData),
    RefundSync(RefundsData),
    Session,
    AccessTokenAuth,
    Verify,
    PaymentMethodToken,
    CompleteAuthorize,
    CreateConnectorCustomer,
    PreProcessing,
    AcceptDispute,
    SubmitEvidence,
    DefendDispute,
    UploadFile,
    RetrieveFile,
    PayoutCreate,
    PayoutEligibility,
    PayoutFulfill,
    PayoutCancel,
    PayoutQuote,
    PayoutRecipient,
}

impl FlowRequest {
    pub open spec fn spec_flow(&self) -> Flow {
        match self {
            FlowRequest::Authorize(_) => Flow::Authorize,
            FlowRequest::PSync(_) => Flow::PSync,
            FlowRequest::Capture(_) => Flow::Capture,
            FlowRequest::Void(_) => Flow::Void,
            FlowRequest::RefundExecute(_) => Flow::RefundExecute,
            FlowRequest::RefundSync(_) => Flow::RefundSync,
            FlowRequest::Session => Flow::Session,
            FlowRequest::AccessTokenAuth => Flow::AccessTokenAuth,
            FlowRequest::Verify => Flow::Verify,
            FlowRequest::PaymentMethodToken => Flow::PaymentMethodToken,
            FlowRequest::CompleteAuthorize => Flow::CompleteAuthorize,
            FlowRequest::CreateConnectorCustomer => Flow::CreateConnectorCustomer,
            FlowRequest::PreProcessing => Flow::PreProcessing,
            FlowRequest::AcceptDispute => Flow::AcceptDispute,
            FlowRequest::SubmitEvidence => Flow::SubmitEvidence,
            FlowRequest::DefendDispute => Flow::DefendDispute,
            FlowRequest::UploadFile => Flow::UploadFile,
            FlowRequest::RetrieveFile => Flow::RetrieveFile,
            FlowRequest::PayoutCreate => Flow::PayoutCreate,
            FlowRequest::PayoutEligibility => Flow::PayoutEligibility,
            FlowRequest::PayoutFulfill => Flow::PayoutFulfill,
            FlowRequest::PayoutCancel => Flow::PayoutCancel,
            FlowRequest::PayoutQuote => Flow::PayoutQuote,
            FlowRequest::PayoutRecipient => Flow::PayoutRecipient,
        }
    }

    /// The flow that this payload belongs to.
    pub fn flow(&self) -> (r: Flow)
        ensures
            r == self.spec_flow(),
    {
        match self {
            FlowRequest::Authorize(_) => Flow::Authorize,
            FlowRequest::PSync(_) => Flow::PSync,
            FlowRequest::Capture(_) => Flow::Capture,
            FlowRequest::Void(_) => Flow::Void,
            FlowRequest::RefundExecute(_) => Flow::RefundExecute,
            FlowRequest::RefundSync(_) => Flow::RefundSync,
            FlowRequest::Session => Flow::Session,
            FlowRequest::AccessTokenAuth => Flow::AccessTokenAuth,
            FlowRequest::Verify => Flow::Verify,
            FlowRequest::PaymentMethodToken => Flow::PaymentMethodToken,
            FlowRequest::CompleteAuthorize => Flow::CompleteAuthorize,
            FlowRequest::CreateConnectorCustomer => Flow::CreateConnectorCustomer,
            FlowRequest::PreProcessing => Flow::PreProcessing,
            FlowRequest::AcceptDispute => Flow::AcceptDispute,
            FlowRequest::SubmitEvidence => Flow::SubmitEvidence,
            FlowRequest::DefendDispute => Flow::DefendDispute,
            FlowRequest::UploadFile => Flow::UploadFile,
            FlowRequest::RetrieveFile => Flow::RetrieveFile,
            FlowRequest::PayoutCreate => Flow::PayoutCreate,
            FlowRequest::PayoutEligibility => Flow::PayoutEligibility,
            FlowRequest::PayoutFulfill => Flow::PayoutFulfill,
            FlowRequest::PayoutCancel => Flow::PayoutCancel,
            FlowRequest::PayoutQuote => Flow::PayoutQuote,
            FlowRequest::PayoutRecipient => Flow::PayoutRecipient,
        }
    }
}

#[derive(Clone, Debug, PartialEq, Eq)]
pub struct AccessToken {
    pub token: String,
    pub expires: i64,
}

#[derive(Clone, Debug, PartialEq, Eq)]
pub enum PaymentsResponseData {
    TransactionResponse { resource_id: ResponseId },
    TokenizationResponse { token: String },
    ConnectorCustomerResponse { connector_customer_id: String },
}

#[derive(Clone, Debug, PartialEq, Eq)]
pub struct RefundsResponseData {
    pub connector_refund_id: String,
    pub refund_status: RefundStatus,
}

/// The flow-specific result that a connector's response decoder produces.
#[derive(Clone, Debug, PartialEq, Eq)]
pub enum FlowResponse {
    Payments(PaymentsResponseData),
    Refunds(RefundsResponseData),
    AccessToken(AccessToken),
}

/// The record of one attempt of one flow against one connector.
///
/// `response` stays `None` until a transport round trip has been decoded, and
/// is set at most once.
#[derive(Clone, Debug, PartialEq, Eq)]
pub struct RouterData {
    pub merchant_id: String,
    pub connector: String,
    pub attempt_id: String,
    pub status: AttemptStatus,
    pub amount: i64,
    pub currency: Currency,
    pub connector_auth_type: ConnectorAuthType,
    pub access_token: Option<AccessToken>,
    pub payment_method_token: Option<String>,
    pub connector_customer: Option<String>,
    pub request: FlowRequest,
    pub response: Option<Result<FlowResponse, ErrorResponse>>,
}

impl RouterData {
    pub open spec fn spec_flow(&self) -> Flow {
        self.request.spec_flow()
    }
}

/// Per-connector settings; only the base URL is read here.
#[derive(Clone, Debug, PartialEq, Eq)]
pub struct ConnectorParams {
    pub base_url: String,
}

/// Connector settings, keyed by connector.
#[derive(Clone, Debug, PartialEq, Eq)]
pub struct Connectors {
    pub dummyconnector: ConnectorParams,
}

/// A row of the card-issuer table, keyed by the card's IIN.
#[derive(Clone, Debug, PartialEq, Eq)]
pub struct CardInfo {
    pub card_iin: String,
    pub card_issuer: Option<String>,
    pub card_network: Option<String>,
    pub card_type: Option<String>,
    pub card_subtype: Option<String>,
    pub card_issuing_country: Option<String>,
    pub bank_code_id: Option<String>,
    pub bank_code: Option<String>,
    pub country_code: Option<String>,
}

/// An inbound webhook, as the HTTP layer received it.
#[derive(Clone, Debug, PartialEq, Eq)]
pub struct IncomingWebhookRequestDetails {
    pub headers: Vec<(String, String)>,
    pub body: Vec<u8>,
    pub query_params: String,
}

/// The object that a webhook is about.
#[derive(Clone, Debug, PartialEq, Eq)]
pub enum ObjectReferenceId {
    PaymentId(ResponseId),
    RefundId(String),
}

#[derive(Clone, Copy, Debug, PartialEq, Eq, Structural)]
pub enum IncomingWebhookEvent {
    PaymentIntentFailure,
    PaymentIntentSuccess,
    PaymentIntentProcessing,
    RefundFailure,
    RefundSuccess,
    EventNotSupported,
}

} // verus!
