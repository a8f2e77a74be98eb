//! The dummy connector's wire schema and its mapping to and from the
//! attempt record.
use vstd::prelude::*;

use crate::errors::{clone_opt, ConnectorError};
use crate::types::{
    spec_is_auto_capture, AttemptStatus, ConnectorAuthType, Currency, PaymentMethodData,
    PaymentsAuthorizeData, RefundStatus, RefundsData,
};

verus! {

#[derive(Clone, Debug, PartialEq, Eq)]
pub struct DummyConnectorCard {
    pub name: String,
    pub number: String,
    pub expiry_month: String,
    pub expiry_year: String,
    pub cvc: String,
    pub complete: bool,
}

#[derive(Clone, Debug, PartialEq, Eq)]
pub enum DummyPaymentMethodData {
    Card(DummyConnectorCard),
}

#[derive(Clone, Debug, PartialEq, Eq)]
pub struct DummyConnectorPaymentsRequest {
    pub amount: i64,
    pub currency: Currency,
    pub payment_method_data: DummyPaymentMethodData,
    pub return_url: Option<String>,
}

/// The payment request for an authorization, where the instrument is a card
/// and the capture method is one the connector knows.
pub open spec fn spec_payments_request(d: PaymentsAuthorizeData) -> Option<DummyConnectorPaymentsRequest> {
    match d.payment_method_data {
        PaymentMethodData::Card(c) => match spec_is_auto_capture(d.capture_method) {
            Ok(complete) => Some(
                DummyConnectorPaymentsRequest {
                    amount: d.amount,
                    currency: d.currency,
                    payment_method_data: DummyPaymentMethodData::Card(
                        DummyConnectorCard {
                            name: c.card_holder_name,
                            number: c.card_number,
                            expiry_month: c.card_exp_month,
                            expiry_year: c.card_exp_year,
                            cvc: c.card_cvc,
                            complete,
                        },
                    ),
                    return_url: d.router_return_url,
                },
            ),
            Err(_) => None,
        },
        _ => None,
    }
}

/// The failure of building the payment request, where it fails.
pub open spec fn payments_request_error(d: PaymentsAuthorizeData, e: ConnectorError) -> bool {
    match d.payment_method_data {
        PaymentMethodData::Card(_) => e == ConnectorError::CaptureMethodNotSupported,
        _ => e matches ConnectorError::NotImplemented(m) && m@ == "Payment methods"@,
    }
}

impl DummyConnectorPaymentsRequest {
    /// The wire request of an authorization; only cards are accepted.
    pub fn try_from(d: &PaymentsAuthorizeData) -> (r: Result<DummyConnectorPaymentsRequest, ConnectorError>)
        ensures
            match r {
                Ok(p) => spec_payments_request(*d) == Some(p),
                Err(e) => spec_payments_request(*d) is None && payments_request_error(*d, e),
            },
    {
        match &d.payment_method_data {
            PaymentMethodData::Card(c) => {
                let complete = d.is_auto_capture()?;
                Ok(DummyConnectorPaymentsRequest {
                    amount: d.amount,
                    currency: d.currency,
                    payment_method_data: DummyPaymentMethodData::Card(
                        DummyConnectorCard {
                            name: c.card_holder_name.clone(),
                            number: c.card_number.clone(),
                            expiry_month: c.card_exp_month.clone(),
                            expiry_year: c.card_exp_year.clone(),
                            cvc: c.card_cvc.clone(),
                            complete,
                        },
                    ),
                    return_url: clone_opt(&d.router_return_url),
                })
            },
            _ => Err(ConnectorError::NotImplemented("Payment methods".to_owned())),
        }
    }
}

#[derive(Clone, Debug, PartialEq, Eq)]
pub struct DummyConnectorRefundRequest {
    pub amount: i64,
}

impl DummyConnectorRefundRequest {
    /// The wire request of a refund: the amount to refund.
    pub fn try_from(d: &RefundsData) -> (r: DummyConnectorRefundRequest)
        ensures
            r.amount == d.refund_amount,
    {
        DummyConnectorRefundRequest { amount: d.refund_amount }
    }
}

/// The credential shape that the dummy connector accepts: a header key.
#[derive(Clone, Debug, PartialEq, Eq)]
pub struct DummyConnectorAuthType {
    pub api_key: String,
}

impl DummyConnectorAuthType {
    pub fn try_from(auth: &ConnectorAuthType) -> (r: Result<DummyConnectorAuthType, ConnectorError>)
        ensures
            match auth {
                ConnectorAuthType::HeaderKey { api_key } => r == Ok::<
                    DummyConnectorAuthType,
                    ConnectorError,
                >(DummyConnectorAuthType { api_key: *api_key }),
                _ => r == Err::<DummyConnectorAuthType, ConnectorError>(
                    ConnectorError::FailedToObtainAuthType,
                ),
            },
    {
        match auth {
            ConnectorAuthType::HeaderKey { api_key } => Ok(
                DummyConnectorAuthType { api_key: api_key.clone() },
            ),
            _ => Err(ConnectorError::FailedToObtainAuthType),
        }
    }
}

#[derive(Clone, Copy, Debug, PartialEq, Eq, Structural)]
pub enum DummyConnectorPaymentStatus {
    Succeeded,
    Failed,
    Processing,
}

impl DummyConnectorPaymentStatus {
    pub open spec fn spec_attempt_status(self) -> AttemptStatus {
        match self {
            DummyConnectorPaymentStatus::Succeeded => AttemptStatus::Charged,
            DummyConnectorPaymentStatus::Failed => AttemptStatus::Failure,
            DummyConnectorPaymentStatus::Processing => AttemptStatus::Authorizing,
        }
    }

    /// The attempt status that a reported payment status stands for.
    pub fn attempt_status(&self) -> (r: AttemptStatus)
        ensures
            r == self.spec_attempt_status(),
    {
        match self {
            DummyConnectorPaymentStatus::Succeeded => AttemptStatus::Charged,
            DummyConnectorPaymentStatus::Failed => AttemptStatus::Failure,
            DummyConnectorPaymentStatus::Processing => AttemptStatus::Authorizing,
        }
    }
}

#[derive(Clone, Debug, PartialEq, Eq)]
pub struct PaymentsResponse {
    pub status: DummyConnectorPaymentStatus,
    pub id: String,
    pub amount: i64,
    pub currency: String,
    pub created: String,
    pub payment_method_type: String,
}

#[derive(Clone, Copy, Debug, PartialEq, Eq, Structural)]
pub enum DummyRefundStatus {
    Succeeded,
    Failed,
    Processing,
}

impl DummyRefundStatus {
    pub open spec fn spec_refund_status(self) -> RefundStatus {
        match self {
            DummyRefundStatus::Succeeded => RefundStatus::Success,
            DummyRefundStatus::Failed => RefundStatus::Failure,
            DummyRefundStatus::Processing => RefundStatus::Pending,
        }
    }

    /// The refund status that a reported refund status stands for.
    pub fn refund_status(&self) -> (r: RefundStatus)
        ensures
            r == self.spec_refund_status(),
    {
        match self {
            DummyRefundStatus::Succeeded => RefundStatus::Success,
            DummyRefundStatus::Failed => RefundStatus::Failure,
            DummyRefundStatus::Processing => RefundStatus::Pending,
        }
    }
}

#[derive(Clone, Debug, PartialEq, Eq)]
pub struct RefundResponse {
    pub id: String,
    pub status: DummyRefundStatus,
    pub currency: String,
    pub created: String,
    pub payment_amount: i64,
    pub refund_amount: i64,
}

#[derive(Clone, Debug, PartialEq, Eq)]
pub struct ErrorData {
    pub code: String,
    pub message: String,
    pub reason: Option<String>,
}

#[derive(Clone, Debug, PartialEq, Eq)]
pub struct DummyConnectorErrorResponse {
    pub error: ErrorData,
}

} // verus!
