use router::api_error_response::{
    status_or_internal, ApiErrorResponse, ClientErrorKind, ErrorType, NotImplementedMessage,
};
use router::errors::{ConnectorError, ErrorResponse};

fn all_connector_errors() -> Vec<ConnectorError> {
    vec![
        ConnectorError::FailedToObtainIntegrationUrl,
        ConnectorError::RequestEncodingFailed,
        ConnectorError::ParsingFailed,
        ConnectorError::ResponseDeserializationFailed { status_code: 502 },
        ConnectorError::ResponseHandlingFailed,
        ConnectorError::FailedToObtainAuthType,
        ConnectorError::NoConnectorMetaData,
        ConnectorError::NotImplemented("get_url method".to_string()),
        ConnectorError::NotSupported {
            message: "The payment method klarna is not supported by dummyconnector".to_string(),
            connector: "dummyconnector",
            payment_experience: "redirect_to_url".to_string(),
        },
        ConnectorError::FlowNotSupported {
            flow: "Capture".to_string(),
            connector: "dummyconnector".to_string(),
        },
        ConnectorError::CaptureMethodNotSupported,
        ConnectorError::MissingConnectorMandateID,
        ConnectorError::MissingConnectorTransactionID,
        ConnectorError::MissingConnectorRefundID,
        ConnectorError::MissingRequiredField { field_name: "payment_method_type" },
        ConnectorError::InvalidDataFormat { field_name: "amount" },
        ConnectorError::MismatchedPaymentData,
        ConnectorError::WebhookSourceVerificationFailed,
        ConnectorError::WebhookReferenceIdNotFound,
        ConnectorError::WebhookEventTypeNotFound,
        ConnectorError::WebhookResourceObjectNotFound,
        ConnectorError::WebhookBodyDecodingFailed,
        ConnectorError::WebhooksNotImplemented,
        ConnectorError::ProcessingStepFailed,
        ConnectorError::RequestTimeoutReceived,
        ConnectorError::TransportFailed,
    ]
}

fn variant_index(e: &ConnectorError) -> usize {
    // A match without a wildcard: a new variant does not compile until it is listed.
    match e {
        ConnectorError::FailedToObtainIntegrationUrl => 0,
        ConnectorError::RequestEncodingFailed => 1,
        ConnectorError::ParsingFailed => 2,
        ConnectorError::ResponseDeserializationFailed { .. } => 3,
        ConnectorError::ResponseHandlingFailed => 4,
        ConnectorError::FailedToObtainAuthType => 5,
        ConnectorError::NoConnectorMetaData => 6,
        ConnectorError::NotImplemented(_) => 7,
        ConnectorError::NotSupported { .. } => 8,
        ConnectorError::FlowNotSupported { .. } => 9,
        ConnectorError::CaptureMethodNotSupported => 10,
        ConnectorError::MissingConnectorMandateID => 11,
        ConnectorError::MissingConnectorTransactionID => 12,
        ConnectorError::MissingConnectorRefundID => 13,
        ConnectorError::MissingRequiredField { .. } => 14,
        ConnectorError::InvalidDataFormat { .. } => 15,
        ConnectorError::MismatchedPaymentData => 16,
        ConnectorError::WebhookSourceVerificationFailed => 17,
        ConnectorError::WebhookReferenceIdNotFound => 18,
        ConnectorError::WebhookEventTypeNotFound => 19,
        ConnectorError::WebhookResourceObjectNotFound => 20,
        ConnectorError::WebhookBodyDecodingFailed => 21,
        ConnectorError::WebhooksNotImplemented => 22,
        ConnectorError::ProcessingStepFailed => 23,
        ConnectorError::RequestTimeoutReceived => 24,
        ConnectorError::TransportFailed => 25,
    }
}

#[test]
fn every_connector_error_has_one_api_error() {
    let all = all_connector_errors();
    let mut seen: Vec<usize> = all.iter().map(variant_index).collect();
    seen.sort();
    seen.dedup();
    assert_eq!(seen.len(), all.len());
    for e in &all {
        let a = e.to_api_error();
        let b = e.to_api_error();
        assert_eq!(a, b);
        let code = a.error_code();
        assert!(
            ["IR_", "CE_", "HE_", "WE_", "RE_"].iter().any(|p| code.starts_with(p)),
            "{code}"
        );
        assert!((400..600).contains(&a.status_code()));
    }
}

#[test]
fn capability_absence_maps_to_not_implemented_or_not_supported() {
    assert_eq!(
        ConnectorError::NotImplemented("get_url method".to_string()).to_api_error(),
        ApiErrorResponse::NotImplemented {
            message: NotImplementedMessage::Reason("get_url method".to_string())
        }
    );
    assert_eq!(
        ConnectorError::NotSupported {
            message: "The payment method klarna is not supported by dummyconnector".to_string(),
            connector: "dummyconnector",
            payment_experience: "redirect_to_url".to_string(),
        }
        .to_api_error(),
        ApiErrorResponse::NotSupported {
            message: "The payment method klarna is not supported by dummyconnector".to_string()
        }
    );
    assert_eq!(
        ConnectorError::WebhooksNotImplemented.to_api_error(),
        ApiErrorResponse::NotImplemented {
            message: NotImplementedMessage::Reason("Webhooks".to_string())
        }
    );
}

#[test]
fn field_errors_map_to_request_errors() {
    assert_eq!(
        ConnectorError::MissingConnectorTransactionID.to_api_error(),
        ApiErrorResponse::MissingRequiredField { field_name: "connector_transaction_id".to_string() }
    );
    assert_eq!(
        ConnectorError::InvalidDataFormat { field_name: "amount" }.to_api_error(),
        ApiErrorResponse::InvalidDataValue { field_name: "amount".to_string() }
    );
    assert_eq!(
        ConnectorError::FailedToObtainAuthType.to_api_error(),
        ApiErrorResponse::InvalidDataFormat {
            field_name: "connector_account_details".to_string(),
            expected_format: "auth_type and api_key".to_string(),
        }
    );
    assert_eq!(
        ConnectorError::ResponseDeserializationFailed { status_code: 502 }.to_api_error(),
        ApiErrorResponse::InternalServerError
    );
}

#[test]
fn connector_error_is_kept_verbatim() {
    let e = ErrorResponse {
        code: "E01".to_string(),
        message: "card declined".to_string(),
        reason: Some("insufficient funds".to_string()),
        status_code: 402,
    };
    let api = e.to_api_error("dummyconnector");
    assert_eq!(
        api,
        ApiErrorResponse::ExternalConnectorError {
            code: "E01".to_string(),
            message: "card declined".to_string(),
            connector: "dummyconnector".to_string(),
            status_code: 402,
            reason: Some("insufficient funds".to_string()),
        }
    );
    assert_eq!(api.error_code(), "CE_00");
    assert_eq!(api.error_type(), ErrorType::ConnectorError);
    assert_eq!(api.error_message(), "E01: card declined");
    let c = api.switch();
    assert_eq!(c.kind, ClientErrorKind::ConnectorError(402));
    assert_eq!(c.error.sub_code, "CE");
    assert_eq!(c.error.error_identifier, 0);
    assert_eq!(c.error.error_message, "E01: card declined");
    let extra = c.error.extra.unwrap();
    assert_eq!(extra.connector, Some("dummyconnector".to_string()));
    assert_eq!(extra.reason, Some("insufficient funds".to_string()));
    assert_eq!(extra.data, None);
    assert_eq!(api.status_code(), 402);
}

#[test]
fn invalid_upstream_status_becomes_internal() {
    assert_eq!(status_or_internal(99), 500);
    assert_eq!(status_or_internal(100), 100);
    assert_eq!(status_or_internal(999), 999);
    assert_eq!(status_or_internal(1000), 500);
    let api = ApiErrorResponse::ExternalConnectorError {
        code: "X".to_string(),
        message: "m".to_string(),
        connector: "c".to_string(),
        status_code: 42,
        reason: None,
    };
    assert_eq!(api.status_code(), 500);
    assert_eq!(api.switch().kind, ClientErrorKind::ConnectorError(500));
}

#[test]
fn duplicates_share_he_01() {
    let dups = vec![
        ApiErrorResponse::DuplicateRefundRequest,
        ApiErrorResponse::DuplicateMandate,
        ApiErrorResponse::DuplicateMerchantAccount,
        ApiErrorResponse::DuplicateMerchantConnectorAccount { connector_label: "l".to_string() },
        ApiErrorResponse::DuplicatePaymentMethod,
        ApiErrorResponse::DuplicatePayment { payment_id: "pay_1".to_string() },
    ];
    for d in &dups {
        assert_eq!(d.error_code(), "HE_01");
        assert_eq!(d.error_type(), ErrorType::DuplicateRequest);
        let c = d.switch();
        assert_eq!(c.error.sub_code, "HE");
        assert_eq!(c.error.error_identifier, 1);
        assert_eq!(d.status_code(), 400);
    }
}

#[test]
fn not_found_kinds_share_he_02() {
    for d in [
        ApiErrorResponse::RefundNotFound,
        ApiErrorResponse::CustomerNotFound,
        ApiErrorResponse::PaymentNotFound,
        ApiErrorResponse::PaymentMethodNotFound,
        ApiErrorResponse::MerchantAccountNotFound,
        ApiErrorResponse::ResourceIdNotFound,
        ApiErrorResponse::MandateNotFound,
        ApiErrorResponse::ApiKeyNotFound,
    ] {
        assert_eq!(d.error_code(), "HE_02");
        assert_eq!(d.status_code(), 404);
    }
    assert_eq!(ApiErrorResponse::ConfigNotFound.error_code(), "RE_02");
}

#[test]
fn templated_messages_are_filled() {
    assert_eq!(
        ApiErrorResponse::MissingRequiredField { field_name: "amount".to_string() }.error_message(),
        "Missing required param: amount"
    );
    assert_eq!(
        ApiErrorResponse::InvalidDataFormat {
            field_name: "email".to_string(),
            expected_format: "a@b.c".to_string(),
        }
        .error_message(),
        "email contains invalid data. Expected format is a@b.c"
    );
    assert_eq!(
        ApiErrorResponse::PaymentUnexpectedState {
            current_flow: "captured".to_string(),
            field_name: "status".to_string(),
            current_value: "failed".to_string(),
            states: "requires_capture".to_string(),
        }
        .error_message(),
        "This Payment could not be captured because it has a status of failed. The expected state is requires_capture"
    );
    assert_eq!(
        ApiErrorResponse::FlowNotSupported {
            flow: "Capture".to_string(),
            connector: "dummyconnector".to_string(),
        }
        .error_message(),
        "Capture flow not supported by the dummyconnector connector"
    );
    assert_eq!(
        ApiErrorResponse::DuplicatePayment { payment_id: "pay_1".to_string() }.error_message(),
        "The payment with the specified payment_id 'pay_1' already exists in our records"
    );
}

#[test]
fn not_implemented_messages() {
    assert_eq!(
        NotImplementedMessage::Reason("Refunds".to_string()).message(),
        "Refunds is not implemented"
    );
    assert_eq!(
        NotImplementedMessage::Default.message(),
        "This API is under development and will be made available soon."
    );
    let e = ApiErrorResponse::NotImplemented { message: NotImplementedMessage::Default };
    assert_eq!(e.error_code(), "IR_00");
    assert_eq!(e.error_type(), ErrorType::ServerNotAvailable);
    assert_eq!(e.status_code(), 501);
    assert_eq!(
        e.switch().error.error_message,
        "This API is under development and will be made available soon."
    );
}

#[test]
fn client_messages_differ_from_templates_where_set() {
    let e = ApiErrorResponse::FlowNotSupported {
        flow: "Capture".to_string(),
        connector: "dummyconnector".to_string(),
    };
    let c = e.switch();
    assert_eq!(c.kind, ClientErrorKind::BadRequest);
    assert_eq!(c.error.sub_code, "IR");
    assert_eq!(c.error.error_identifier, 20);
    assert_eq!(c.error.error_message, "Capture flow not supported");
    assert_eq!(c.error.extra.unwrap().connector, Some("dummyconnector".to_string()));

    let e = ApiErrorResponse::NotSupported { message: "klarna by x".to_string() };
    let c = e.switch();
    assert_eq!(c.error.error_message, "Payment method type not supported");
    assert_eq!(c.error.extra.unwrap().reason, Some("klarna by x".to_string()));

    let e = ApiErrorResponse::FileValidationFailed { reason: "too big".to_string() };
    assert_eq!(e.switch().error.error_message, "File validation failed too big");
    assert_eq!(e.error_message(), "File validation failed");
}

#[test]
fn statuses_of_client_kinds() {
    assert_eq!(ApiErrorResponse::Unauthorized.status_code(), 401);
    assert_eq!(ApiErrorResponse::AccessForbidden.status_code(), 403);
    assert_eq!(ApiErrorResponse::InvalidRequestUrl.status_code(), 404);
    assert_eq!(ApiErrorResponse::InvalidHttpMethod.status_code(), 405);
    assert_eq!(
        ApiErrorResponse::InvalidRequestData { message: "m".to_string() }.status_code(),
        422
    );
    assert_eq!(ApiErrorResponse::InternalServerError.status_code(), 500);
    assert_eq!(ApiErrorResponse::MandateUpdateFailed.status_code(), 500);
    assert_eq!(ApiErrorResponse::WebhookProcessingFailure.status_code(), 500);
    assert_eq!(ApiErrorResponse::WebhookUnprocessableEntity.status_code(), 422);
}

#[test]
fn processing_errors_carry_their_data() {
    let data = serde_json::Value::from(vec![1, 2, 3]);
    let e = ApiErrorResponse::PaymentAuthorizationFailed { data: Some(data.clone()) };
    let c = e.switch();
    assert_eq!(c.error.sub_code, "CE");
    assert_eq!(c.error.error_identifier, 1);
    assert_eq!(c.error.extra.unwrap().data, Some(data));
    assert_eq!(e.error_code(), "CE_01");
    assert_eq!(e.error_type(), ErrorType::ProcessingError);
}

#[test]
fn missing_fields_are_listed_as_data() {
    let e = ApiErrorResponse::MissingRequiredFields {
        field_names: vec!["amount".to_string(), "currency".to_string()],
    };
    let c = e.switch();
    assert_eq!(c.error.error_identifier, 21);
    assert_eq!(
        c.error.extra.unwrap().data,
        Some(serde_json::Value::from(vec!["amount", "currency"]))
    );
}

#[test]
fn client_codes_have_two_digits() {
    assert_eq!(ApiErrorResponse::MissingRequiredField { field_name: "a".to_string() }.switch().error.code(), "IR_04");
    assert_eq!(ApiErrorResponse::ClientSecretExpired.switch().error.code(), "IR_19");
    assert_eq!(ApiErrorResponse::InternalServerError.switch().error.code(), "HE_00");
    let e = router::api_error_response::ApiError {
        sub_code: "XX",
        error_identifier: 1234,
        error_message: String::new(),
        extra: None,
    };
    assert_eq!(e.code(), "XX_1234");
}
