use router::capability::{absence_policy, AbsencePolicy, Integration};
use router::dummyconnector::DummyConnector;
use router::errors::{ConnectorError, ErrorResponse};
use router::flows::{CallConnectorAction, PaymentAction};
use router::services::{Method, RequestBody, Response, ResponsePayload, ResponseSchema};
use router::transformers::{
    DummyConnectorCard, DummyConnectorErrorResponse, DummyConnectorPaymentStatus,
    DummyPaymentMethodData, DummyRefundStatus, ErrorData, PaymentsResponse, RefundResponse,
};
use router::types::{
    AttemptStatus, CaptureMethod, Card, ConnectorAuthType, ConnectorParams, Connectors, Currency,
    Flow, FlowRequest, FlowResponse, IncomingWebhookRequestDetails, PaymentMethodData,
    PaymentMethodType, PaymentsAuthorizeData, PaymentsCancelData, PaymentsCaptureData,
    PaymentsResponseData, PaymentsSyncData, RefundStatus, RefundsData, RefundsResponseData,
    ResponseId, RouterData,
};

fn connectors() -> Connectors {
    Connectors {
        dummyconnector: ConnectorParams { base_url: "https://dummy.example".to_string() },
    }
}

fn card() -> Card {
    Card {
        card_number: "4200000000000000".to_string(),
        card_exp_month: "10".to_string(),
        card_exp_year: "2030".to_string(),
        card_holder_name: "John Doe".to_string(),
        card_cvc: "123".to_string(),
    }
}

fn authorize_data(pm: PaymentMethodData, pmt: Option<PaymentMethodType>) -> PaymentsAuthorizeData {
    PaymentsAuthorizeData {
        payment_method_data: pm,
        amount: 1000,
        currency: Currency::USD,
        capture_method: Some(CaptureMethod::Automatic),
        payment_method_type: pmt,
        router_return_url: Some("https://merchant.example/return".to_string()),
    }
}

fn attempt(request: FlowRequest) -> RouterData {
    RouterData {
        merchant_id: "merchant_1".to_string(),
        connector: "dummyconnector".to_string(),
        attempt_id: "attempt_1".to_string(),
        status: AttemptStatus::Started,
        amount: 1000,
        currency: Currency::USD,
        connector_auth_type: ConnectorAuthType::HeaderKey { api_key: "key_123".to_string() },
        access_token: None,
        payment_method_token: None,
        connector_customer: None,
        request,
        response: None,
    }
}

fn refunds_data(txn: &str, refund_id: Option<&str>) -> RefundsData {
    RefundsData {
        refund_id: "ref_1".to_string(),
        connector_transaction_id: txn.to_string(),
        connector_refund_id: refund_id.map(|s| s.to_string()),
        currency: Currency::USD,
        payment_amount: 1000,
        refund_amount: 400,
    }
}

fn payment_payload(status: DummyConnectorPaymentStatus, id: &str) -> ResponsePayload {
    ResponsePayload::Payment(PaymentsResponse {
        status,
        id: id.to_string(),
        amount: 1000,
        currency: "USD".to_string(),
        created: "2023-01-01".to_string(),
        payment_method_type: "card".to_string(),
    })
}

const C: DummyConnector<0> = DummyConnector::<0>;

#[test]
fn connector_ids_follow_the_tag() {
    assert_eq!(DummyConnector::<0>.id(), "dummyconnector");
    assert_eq!(DummyConnector::<1>.id(), "dummyconnector1");
    assert_eq!(DummyConnector::<2>.id(), "dummyconnector2");
    assert_eq!(DummyConnector::<3>.id(), "dummyconnector3");
    assert_eq!(DummyConnector::<7>.id(), "dummyconnector");
}

#[test]
fn capture_url_is_not_implemented() {
    let req = attempt(FlowRequest::Capture(PaymentsCaptureData {
        amount_to_capture: 1000,
        currency: Currency::USD,
        connector_transaction_id: "txn_1".to_string(),
    }));
    assert_eq!(
        C.get_url(&req, &connectors()),
        Err(ConnectorError::NotImplemented("get_url method".to_string()))
    );
    assert_eq!(
        C.build_request(&req, &connectors()),
        Err(ConnectorError::NotImplemented("get_url method".to_string()))
    );
    assert_eq!(
        C.get_request_body(&req),
        Err(ConnectorError::NotImplemented("get_request_body method".to_string()))
    );
}

#[test]
fn void_with_default_contract_makes_no_call() {
    let req = attempt(FlowRequest::Void(PaymentsCancelData {
        connector_transaction_id: "txn_1".to_string(),
        cancellation_reason: None,
    }));
    assert_eq!(C.integration(Flow::Void), Integration::Default);
    assert_eq!(C.build_request(&req, &connectors()), Ok(None));
}

#[test]
fn sync_without_transaction_id_fails() {
    for id in [ResponseId::NoResponseId, ResponseId::ConnectorTransactionId(String::new())] {
        let req = attempt(FlowRequest::PSync(PaymentsSyncData { connector_transaction_id: id }));
        assert_eq!(
            C.get_url(&req, &connectors()),
            Err(ConnectorError::MissingConnectorTransactionID)
        );
        assert_eq!(
            C.build_request(&req, &connectors()),
            Err(ConnectorError::MissingConnectorTransactionID)
        );
    }
}

#[test]
fn sync_url_names_the_transaction() {
    let req = attempt(FlowRequest::PSync(PaymentsSyncData {
        connector_transaction_id: ResponseId::ConnectorTransactionId("txn_9".to_string()),
    }));
    let q = C.build_request(&req, &connectors()).unwrap().unwrap();
    assert_eq!(q.method, Method::Get);
    assert_eq!(q.url, "https://dummy.example/payments/txn_9");
    assert_eq!(q.body, None);
}

#[test]
fn authorize_non_card_is_not_supported() {
    let req = attempt(FlowRequest::Authorize(authorize_data(
        PaymentMethodData::Wallet,
        Some(PaymentMethodType::GooglePay),
    )));
    match C.build_request(&req, &connectors()) {
        Err(ConnectorError::NotSupported { message, connector, payment_experience }) => {
            assert_eq!(message, "The payment method google_pay is not supported by dummyconnector");
            assert_eq!(connector, "dummyconnector");
            assert_eq!(payment_experience, "redirect_to_url");
        }
        other => panic!("unexpected {other:?}"),
    }
}

#[test]
fn authorize_without_instrument_type_fails() {
    let req = attempt(FlowRequest::Authorize(authorize_data(PaymentMethodData::Card(card()), None)));
    assert_eq!(
        C.get_url(&req, &connectors()),
        Err(ConnectorError::MissingRequiredField { field_name: "payment_method_type" })
    );
}

#[test]
fn authorize_request_is_fully_built() {
    let req = attempt(FlowRequest::Authorize(authorize_data(
        PaymentMethodData::Card(card()),
        Some(PaymentMethodType::Credit),
    )));
    let q = C.build_request(&req, &connectors()).unwrap().unwrap();
    assert_eq!(q.method, Method::Post);
    assert_eq!(q.url, "https://dummy.example/payment");
    assert_eq!(
        q.headers,
        vec![
            ("Via".to_string(), "HyperSwitch".to_string()),
            ("Content-Type".to_string(), "application/json".to_string()),
            ("Authorization".to_string(), "key_123".to_string()),
        ]
    );
    match q.body {
        Some(RequestBody::Payment(p)) => {
            assert_eq!(p.amount, 1000);
            assert_eq!(p.currency, Currency::USD);
            assert_eq!(p.return_url, Some("https://merchant.example/return".to_string()));
            assert_eq!(
                p.payment_method_data,
                DummyPaymentMethodData::Card(DummyConnectorCard {
                    name: "John Doe".to_string(),
                    number: "4200000000000000".to_string(),
                    expiry_month: "10".to_string(),
                    expiry_year: "2030".to_string(),
                    cvc: "123".to_string(),
                    complete: true,
                })
            );
        }
        other => panic!("unexpected body {other:?}"),
    }
}

#[test]
fn manual_capture_is_not_complete() {
    let mut d = authorize_data(PaymentMethodData::Card(card()), Some(PaymentMethodType::Credit));
    d.capture_method = Some(CaptureMethod::Manual);
    let body = C.get_request_body(&attempt(FlowRequest::Authorize(d))).unwrap();
    match body {
        Some(RequestBody::Payment(p)) => match p.payment_method_data {
            DummyPaymentMethodData::Card(c) => assert!(!c.complete),
        },
        other => panic!("unexpected body {other:?}"),
    }
}

#[test]
fn scheduled_capture_is_not_supported() {
    let mut d = authorize_data(PaymentMethodData::Card(card()), Some(PaymentMethodType::Credit));
    d.capture_method = Some(CaptureMethod::Scheduled);
    assert_eq!(
        C.get_request_body(&attempt(FlowRequest::Authorize(d))),
        Err(ConnectorError::CaptureMethodNotSupported)
    );
}

#[test]
fn body_of_non_card_is_not_implemented() {
    let d = authorize_data(PaymentMethodData::BankDebit, Some(PaymentMethodType::Ach));
    assert_eq!(
        C.get_request_body(&attempt(FlowRequest::Authorize(d))),
        Err(ConnectorError::NotImplemented("Payment methods".to_string()))
    );
}

#[test]
fn wrong_credential_shape_fails_headers() {
    let mut req = attempt(FlowRequest::PSync(PaymentsSyncData {
        connector_transaction_id: ResponseId::ConnectorTransactionId("txn".to_string()),
    }));
    req.connector_auth_type =
        ConnectorAuthType::BodyKey { api_key: "a".to_string(), key1: "b".to_string() };
    assert_eq!(C.get_headers(&req, &connectors()), Err(ConnectorError::FailedToObtainAuthType));
    assert_eq!(
        C.build_request(&req, &connectors()),
        Err(ConnectorError::FailedToObtainAuthType)
    );
}

#[test]
fn refund_request_and_url() {
    let req = attempt(FlowRequest::RefundExecute(refunds_data("txn_5", None)));
    let q = C.build_request(&req, &connectors()).unwrap().unwrap();
    assert_eq!(q.method, Method::Post);
    assert_eq!(q.url, "https://dummy.example/txn_5/refund");
    match q.body {
        Some(RequestBody::Refund(r)) => assert_eq!(r.amount, 400),
        other => panic!("unexpected body {other:?}"),
    }
}

#[test]
fn refund_without_transaction_id_fails() {
    let req = attempt(FlowRequest::RefundExecute(refunds_data("", None)));
    assert_eq!(
        C.build_request(&req, &connectors()),
        Err(ConnectorError::MissingConnectorTransactionID)
    );
}

#[test]
fn refund_sync_url_and_missing_id() {
    let req = attempt(FlowRequest::RefundSync(refunds_data("txn_5", Some("rf_7"))));
    let q = C.build_request(&req, &connectors()).unwrap().unwrap();
    assert_eq!(q.method, Method::Get);
    assert_eq!(q.url, "https://dummy.example/refunds/rf_7");
    assert_eq!(q.body, None);
    let req = attempt(FlowRequest::RefundSync(refunds_data("txn_5", None)));
    assert_eq!(
        C.build_request(&req, &connectors()),
        Err(ConnectorError::MissingConnectorRefundID)
    );
}

#[test]
fn absent_flows_are_not_implemented() {
    for (flow, req) in [
        (Flow::CompleteAuthorize, FlowRequest::CompleteAuthorize),
        (Flow::AcceptDispute, FlowRequest::AcceptDispute),
        (Flow::UploadFile, FlowRequest::UploadFile),
        (Flow::PayoutCreate, FlowRequest::PayoutCreate),
    ] {
        assert_eq!(absence_policy(flow), AbsencePolicy::NotImplemented);
        let mut data = attempt(req);
        assert_eq!(
            C.build_request(&data, &connectors()),
            Err(ConnectorError::NotImplemented("get_url method".to_string()))
        );
        let res = Response { status_code: 200, payload: ResponsePayload::Undecodable };
        assert_eq!(
            C.handle_response(&mut data, res),
            Err(ConnectorError::NotImplemented("handle_response method".to_string()))
        );
        assert_eq!(data.response, None);
    }
}

#[test]
fn optional_flows_are_no_ops() {
    for req in [
        FlowRequest::Session,
        FlowRequest::AccessTokenAuth,
        FlowRequest::Verify,
        FlowRequest::PaymentMethodToken,
        FlowRequest::CreateConnectorCustomer,
        FlowRequest::PreProcessing,
    ] {
        let mut data = attempt(req);
        assert_eq!(C.build_request(&data, &connectors()), Ok(None));
        let before = data.clone();
        let res = Response { status_code: 200, payload: ResponsePayload::Undecodable };
        assert_eq!(C.handle_response(&mut data, res), Ok(()));
        assert_eq!(data, before);
    }
}

#[test]
fn payment_response_sets_status_and_id() {
    let mut data = attempt(FlowRequest::PSync(PaymentsSyncData {
        connector_transaction_id: ResponseId::ConnectorTransactionId("txn_1".to_string()),
    }));
    let res = Response {
        status_code: 200,
        payload: payment_payload(DummyConnectorPaymentStatus::Processing, "txn_1"),
    };
    assert_eq!(C.handle_response(&mut data, res), Ok(()));
    assert_eq!(data.status, AttemptStatus::Authorizing);
    assert_eq!(
        data.response,
        Some(Ok(FlowResponse::Payments(PaymentsResponseData::TransactionResponse {
            resource_id: ResponseId::ConnectorTransactionId("txn_1".to_string()),
        })))
    );
}

#[test]
fn failed_payment_status_maps_to_failure() {
    assert_eq!(DummyConnectorPaymentStatus::Failed.attempt_status(), AttemptStatus::Failure);
    assert_eq!(DummyConnectorPaymentStatus::Succeeded.attempt_status(), AttemptStatus::Charged);
    assert_eq!(DummyRefundStatus::Succeeded.refund_status(), RefundStatus::Success);
    assert_eq!(DummyRefundStatus::Failed.refund_status(), RefundStatus::Failure);
    assert_eq!(DummyRefundStatus::Processing.refund_status(), RefundStatus::Pending);
}

#[test]
fn refund_response_sets_refund_id() {
    let mut data = attempt(FlowRequest::RefundExecute(refunds_data("txn_5", None)));
    let res = Response {
        status_code: 200,
        payload: ResponsePayload::Refund(RefundResponse {
            id: "rf_1234567".to_string(),
            status: DummyRefundStatus::Succeeded,
            currency: "USD".to_string(),
            created: "2023-01-01".to_string(),
            payment_amount: 1000,
            refund_amount: 400,
        }),
    };
    assert_eq!(C.handle_response(&mut data, res), Ok(()));
    assert_eq!(data.status, AttemptStatus::Started);
    assert_eq!(
        data.response,
        Some(Ok(FlowResponse::Refunds(RefundsResponseData {
            connector_refund_id: "rf_1234567".to_string(),
            refund_status: RefundStatus::Success,
        })))
    );
}

#[test]
fn undecodable_success_body_fails_with_its_status() {
    let mut data = attempt(FlowRequest::PSync(PaymentsSyncData {
        connector_transaction_id: ResponseId::ConnectorTransactionId("txn_1".to_string()),
    }));
    let before = data.clone();
    let res = Response { status_code: 201, payload: ResponsePayload::Undecodable };
    assert_eq!(
        C.handle_response(&mut data, res),
        Err(ConnectorError::ResponseDeserializationFailed { status_code: 201 })
    );
    assert_eq!(data, before);
}

#[test]
fn unparseable_error_body_keeps_status() {
    let res = Response { status_code: 502, payload: ResponsePayload::Undecodable };
    assert_eq!(
        C.build_error_response(res),
        Err(ConnectorError::ResponseDeserializationFailed { status_code: 502 })
    );
}

#[test]
fn error_body_is_normalized() {
    let res = Response {
        status_code: 400,
        payload: ResponsePayload::Error(DummyConnectorErrorResponse {
            error: ErrorData {
                code: "E01".to_string(),
                message: "card declined".to_string(),
                reason: Some("insufficient funds".to_string()),
            },
        }),
    };
    assert_eq!(
        C.get_error_response(Flow::Authorize, res),
        Ok(ErrorResponse {
            code: "E01".to_string(),
            message: "card declined".to_string(),
            reason: Some("insufficient funds".to_string()),
            status_code: 400,
        })
    );
}

#[test]
fn default_error_decoder_is_not_implemented() {
    let res = Response { status_code: 500, payload: ResponsePayload::Undecodable };
    let e = C.get_error_response(Flow::PayoutQuote, res).unwrap();
    assert_eq!(e, ErrorResponse::get_not_implemented());
    assert_eq!(e.code, "IR_00");
    assert_eq!(e.message, "This API is under development and will be made available soon.");
    assert_eq!(e.reason, None);
    assert_eq!(e.status_code, 500);
}

#[test]
fn webhooks_are_not_implemented() {
    let w = IncomingWebhookRequestDetails {
        headers: vec![],
        body: b"{}".to_vec(),
        query_params: String::new(),
    };
    assert_eq!(C.get_webhook_object_reference_id(&w), Err(ConnectorError::WebhooksNotImplemented));
    assert_eq!(C.get_webhook_event_type(&w), Err(ConnectorError::WebhooksNotImplemented));
    assert_eq!(C.get_webhook_resource_object(&w), Err(ConnectorError::WebhooksNotImplemented));
}

#[test]
fn redirects_always_trigger() {
    assert_eq!(
        C.get_flow_type("status=ok", None, PaymentAction::PSync),
        Ok(CallConnectorAction::Trigger)
    );
}

#[test]
fn response_schema_follows_status_and_flow() {
    assert_eq!(C.response_schema(Flow::Authorize, 200), Some(ResponseSchema::Payment));
    assert_eq!(C.response_schema(Flow::RefundSync, 299), Some(ResponseSchema::Refund));
    assert_eq!(C.response_schema(Flow::Authorize, 300), Some(ResponseSchema::Error));
    assert_eq!(C.response_schema(Flow::Void, 404), Some(ResponseSchema::Error));
    assert_eq!(C.response_schema(Flow::Void, 200), None);
}

#[test]
fn content_type_is_json() {
    assert_eq!(C.get_content_type(Flow::Authorize), "application/json");
    assert_eq!(C.get_content_type(Flow::Void), "application/json");
    assert_eq!(C.common_get_content_type(), "application/json");
}
