use router::dummyconnector::DummyConnector;
use router::errors::{ConnectorError, ErrorResponse};
use router::flows::{
    acquired_access_token, add_connector_customer, add_payment_method_token, next_stage, plan_pre_steps,
    CallConnectorAction, ConnectorData, ConstructFlowSpecificData, Feature, GetToken, MainCall,
    PaymentData, PaymentFlowRun, PreSteps, Stage, TokenizationAction,
};
use router::services::{RequestBody, Response, ResponsePayload};
use router::transformers::{
    DummyConnectorErrorResponse, DummyConnectorPaymentStatus, ErrorData, PaymentsResponse,
};
use router::types::{
    AccessToken, AttemptStatus, CaptureMethod, Card, ConnectorAuthType, ConnectorParams,
    Connectors, Currency, FlowRequest, FlowResponse, PaymentMethodData, PaymentMethodType,
    PaymentsAuthorizeData, PaymentsCancelData, PaymentsResponseData, PaymentsSyncData,
    ResponseId, RouterData,
};

const C: DummyConnector<0> = DummyConnector::<0>;

fn connectors() -> Connectors {
    Connectors {
        dummyconnector: ConnectorParams { base_url: "https://dummy.example".to_string() },
    }
}

fn new_attempt(request: FlowRequest) -> RouterData {
    PaymentData { attempt_id: "attempt_1".to_string(), amount: 1000, currency: Currency::EUR, request }
        .construct_router_data(
            "dummyconnector",
            "merchant_1",
            ConnectorAuthType::HeaderKey { api_key: "key_123".to_string() },
        )
}

fn authorize_request() -> FlowRequest {
    FlowRequest::Authorize(PaymentsAuthorizeData {
        payment_method_data: PaymentMethodData::Card(Card {
            card_number: "4200000000000000".to_string(),
            card_exp_month: "10".to_string(),
            card_exp_year: "2030".to_string(),
            card_holder_name: "John Doe".to_string(),
            card_cvc: "123".to_string(),
        }),
        amount: 1000,
        currency: Currency::EUR,
        capture_method: Some(CaptureMethod::Automatic),
        payment_method_type: Some(PaymentMethodType::Credit),
        router_return_url: None,
    })
}

fn payment_response(status_code: u16, status: DummyConnectorPaymentStatus, id: &str) -> Response {
    Response {
        status_code,
        payload: ResponsePayload::Payment(PaymentsResponse {
            status,
            id: id.to_string(),
            amount: 1000,
            currency: "EUR".to_string(),
            created: "2023-01-01".to_string(),
            payment_method_type: "card".to_string(),
        }),
    }
}

#[test]
fn fresh_attempt_is_unset() {
    let d = new_attempt(authorize_request());
    assert_eq!(d.status, AttemptStatus::Started);
    assert_eq!(d.response, None);
    assert_eq!(d.connector, "dummyconnector");
    assert_eq!(d.merchant_id, "merchant_1");
    assert_eq!(d.attempt_id, "attempt_1");
    assert_eq!(d.amount, 1000);
    assert_eq!(d.currency, Currency::EUR);
    assert_eq!(d.access_token, None);
}

#[test]
fn authorize_round_trip_charges() {
    let mut d = new_attempt(authorize_request());
    let call = Feature::<DummyConnector<0>>::decide_flows(
        &d,
        &C,
        CallConnectorAction::Trigger,
        &connectors(),
    )
    .unwrap();
    let amount = match call {
        MainCall::Send(q) => match q.body {
            Some(RequestBody::Payment(p)) => p.amount,
            other => panic!("unexpected body {other:?}"),
        },
        other => panic!("unexpected call {other:?}"),
    };
    assert_eq!(amount, 1000);
    let res = payment_response(200, DummyConnectorPaymentStatus::Succeeded, "txn_42");
    assert_eq!(d.handle_connector_response(&C, res), Ok(()));
    assert_eq!(d.status, AttemptStatus::Charged);
    assert_eq!(
        d.response,
        Some(Ok(FlowResponse::Payments(PaymentsResponseData::TransactionResponse {
            resource_id: ResponseId::ConnectorTransactionId("txn_42".to_string()),
        })))
    );
}

#[test]
fn second_response_does_not_apply_again() {
    let mut d = new_attempt(authorize_request());
    let first = payment_response(200, DummyConnectorPaymentStatus::Processing, "txn_1");
    assert_eq!(d.handle_connector_response(&C, first), Ok(()));
    assert_eq!(d.status, AttemptStatus::Authorizing);
    let after_first = d.clone();
    let second = payment_response(200, DummyConnectorPaymentStatus::Succeeded, "txn_2");
    assert_eq!(d.handle_connector_response(&C, second), Ok(()));
    assert_eq!(d, after_first);
}

#[test]
fn error_response_is_recorded_without_status_change() {
    let mut d = new_attempt(authorize_request());
    let res = Response {
        status_code: 402,
        payload: ResponsePayload::Error(DummyConnectorErrorResponse {
            error: ErrorData {
                code: "E01".to_string(),
                message: "declined".to_string(),
                reason: None,
            },
        }),
    };
    assert_eq!(d.handle_connector_response(&C, res), Ok(()));
    assert_eq!(d.status, AttemptStatus::Started);
    assert_eq!(
        d.response,
        Some(Err(ErrorResponse {
            code: "E01".to_string(),
            message: "declined".to_string(),
            reason: None,
            status_code: 402,
        }))
    );
}

#[test]
fn non_2xx_unparseable_body_fails() {
    let mut d = new_attempt(authorize_request());
    let before = d.clone();
    let res = Response { status_code: 503, payload: ResponsePayload::Undecodable };
    assert_eq!(
        d.handle_connector_response(&C, res),
        Err(ConnectorError::ResponseDeserializationFailed { status_code: 503 })
    );
    assert_eq!(d, before);
}

#[test]
fn avoid_and_handle_response_skip_the_call() {
    let d = new_attempt(authorize_request());
    assert_eq!(
        Feature::<DummyConnector<0>>::decide_flows(&d, &C, CallConnectorAction::Avoid, &connectors()),
        Ok(MainCall::Skip)
    );
    let res = payment_response(200, DummyConnectorPaymentStatus::Succeeded, "txn_3");
    assert_eq!(
        Feature::<DummyConnector<0>>::decide_flows(
            &d,
            &C,
            CallConnectorAction::HandleResponse(res.clone()),
            &connectors()
        ),
        Ok(MainCall::Decode(res))
    );
}

#[test]
fn void_trigger_makes_no_call() {
    let d = new_attempt(FlowRequest::Void(PaymentsCancelData {
        connector_transaction_id: "txn_1".to_string(),
        cancellation_reason: None,
    }));
    assert_eq!(
        Feature::<DummyConnector<0>>::decide_flows(&d, &C, CallConnectorAction::Trigger, &connectors()),
        Ok(MainCall::Skip)
    );
}

#[test]
fn sync_trigger_without_id_fails() {
    let d = new_attempt(FlowRequest::PSync(PaymentsSyncData {
        connector_transaction_id: ResponseId::NoResponseId,
    }));
    assert_eq!(
        Feature::<DummyConnector<0>>::decide_flows(&d, &C, CallConnectorAction::Trigger, &connectors()),
        Err(ConnectorError::MissingConnectorTransactionID)
    );
}

#[test]
fn pre_steps_follow_token_strategy_and_capabilities() {
    let data = ConnectorData { connector_name: "dummyconnector".to_string(), get_token: GetToken::Connector };
    let steps = plan_pre_steps(&C, &data, &TokenizationAction::TokenizeInConnector);
    assert_eq!(
        steps,
        PreSteps { access_token: true, tokenization: false, connector_customer: false, pre_processing: false }
    );
    let data = ConnectorData { connector_name: "dummyconnector".to_string(), get_token: GetToken::Metadata };
    let steps = plan_pre_steps(&C, &data, &TokenizationAction::SkipConnectorTokenization);
    assert!(!steps.access_token);
}

#[test]
fn stages_run_in_order_and_skip() {
    let steps = PreSteps { access_token: true, tokenization: false, connector_customer: true, pre_processing: false };
    let mut run = PaymentFlowRun::start(steps);
    let mut seen = vec![run.stage];
    while run.stage != Stage::Done {
        run.advance();
        seen.push(run.stage);
    }
    assert_eq!(seen, vec![Stage::AccessToken, Stage::ConnectorCustomer, Stage::MainCall, Stage::Done]);
    let none = PreSteps { access_token: false, tokenization: false, connector_customer: false, pre_processing: false };
    assert_eq!(next_stage(Stage::Start, &none), Stage::MainCall);
    assert_eq!(next_stage(Stage::Done, &none), Stage::Done);
}

#[test]
fn pre_step_outcomes_are_attached() {
    let mut d = new_attempt(authorize_request());
    let token = AccessToken { token: "tok".to_string(), expires: 3600 };
    Feature::<DummyConnector<0>>::add_access_token(&mut d, Some(token.clone()));
    assert_eq!(d.access_token, Some(token.clone()));
    Feature::<DummyConnector<0>>::add_access_token(&mut d, None);
    assert_eq!(d.access_token, Some(token));
    add_payment_method_token(&mut d, Some("pm_tok".to_string()));
    assert_eq!(d.payment_method_token, Some("pm_tok".to_string()));
    add_connector_customer(&mut d, None);
    assert_eq!(d.connector_customer, None);
    add_connector_customer(&mut d, Some("cus_1".to_string()));
    assert_eq!(d.connector_customer, Some("cus_1".to_string()));
}

#[test]
fn default_hooks_skip() {
    let mut d = new_attempt(authorize_request());
    assert_eq!(
        Feature::<DummyConnector<0>>::add_payment_method_token(&d, &C, &TokenizationAction::TokenizeInRouter),
        Ok(None)
    );
    assert_eq!(Feature::<DummyConnector<0>>::create_connector_customer(&d, &C), Ok(None));
    assert_eq!(
        Feature::<DummyConnector<0>>::build_flow_specific_connector_request(
            &mut d,
            &C,
            &CallConnectorAction::Trigger
        ),
        Ok(None)
    );
    let before = d.clone();
    assert_eq!(Feature::<DummyConnector<0>>::preprocessing_steps(d, &C), Ok(before));
}

#[test]
fn acquired_token_is_read_from_the_step() {
    let mut step = new_attempt(FlowRequest::AccessTokenAuth);
    assert_eq!(acquired_access_token(step.clone()), None);
    let token = AccessToken { token: "tok".to_string(), expires: 60 };
    step.response = Some(Ok(FlowResponse::AccessToken(token.clone())));
    assert_eq!(acquired_access_token(step), Some(token));
}

#[test]
fn flow_specific_request_twice_changes_nothing() {
    let mut d = new_attempt(authorize_request());
    let before = d.clone();
    for action in [CallConnectorAction::Trigger, CallConnectorAction::Avoid] {
        assert_eq!(
            Feature::<DummyConnector<0>>::build_flow_specific_connector_request(&mut d, &C, &action),
            Ok(None)
        );
    }
    assert_eq!(d, before);
}
