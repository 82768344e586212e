use radix_client::deserialize::ParseError;
use radix_client::gateway::error::{ErrorDetails, GatewayApiError, GatewayApiErrorResponse};
use radix_client::gateway::match_response;
use radix_client::response::{
    excerpt, expected_body, status_class, ApiError, BodyShape, DecodedBody, StatusClass,
    EXCERPT_CHARS,
};

fn details_of(kind: &str) -> Option<ErrorDetails> {
    match kind {
        "EntityNotFoundError" => Some(ErrorDetails::EntityNotFoundError),
        "InvalidEntityError" => Some(ErrorDetails::InvalidEntityError),
        "NotSyncedUpError" => Some(ErrorDetails::NotSyncedUpError),
        "InvalidRequestError" => Some(ErrorDetails::InvalidRequestError),
        "InvalidTransactionError" => Some(ErrorDetails::InvalidTransactionError),
        "TransactionNotFoundError" => Some(ErrorDetails::TransactionNotFoundError),
        "InternalServerError" => Some(ErrorDetails::InternalServerError),
        _ => None,
    }
}

/// Decodes a Gateway error envelope with serde_json, as a caller would.
fn decode_envelope(text: &str) -> DecodedBody<u64, GatewayApiErrorResponse> {
    match serde_json::from_str::<serde_json::Value>(text) {
        Ok(v) => match v.get("message").and_then(|m| m.as_str()) {
            Some(message) => DecodedBody::Envelope(GatewayApiErrorResponse {
                message: message.to_string(),
                code: v.get("code").and_then(|c| c.as_u64()).map(|c| c as u16),
                details: v
                    .get("details")
                    .and_then(|d| d.get("type"))
                    .and_then(|t| t.as_str())
                    .and_then(details_of),
                trace_id: v.get("trace_id").and_then(|t| t.as_str()).map(|t| t.to_string()),
            }),
            None => DecodedBody::Invalid(ParseError::new(
                String::new(),
                "missing field `message`".to_string(),
            )),
        },
        Err(e) => DecodedBody::Invalid(ParseError::new(String::new(), e.to_string())),
    }
}

#[test]
fn status_classes() {
    assert_eq!(status_class(200), StatusClass::Success);
    assert_eq!(status_class(201), StatusClass::Unknown);
    assert_eq!(status_class(204), StatusClass::Unknown);
    assert_eq!(status_class(100), StatusClass::Unknown);
    assert_eq!(status_class(301), StatusClass::Unknown);
    assert_eq!(status_class(399), StatusClass::Unknown);
    assert_eq!(status_class(400), StatusClass::ClientError);
    assert_eq!(status_class(422), StatusClass::ClientError);
    assert_eq!(status_class(499), StatusClass::ClientError);
    assert_eq!(status_class(500), StatusClass::ServerError);
    assert_eq!(status_class(599), StatusClass::ServerError);
    assert_eq!(status_class(600), StatusClass::Unknown);
}

#[test]
fn body_shapes() {
    assert_eq!(expected_body(200), BodyShape::Payload);
    assert_eq!(expected_body(404), BodyShape::ErrorEnvelope);
    assert_eq!(expected_body(503), BodyShape::ErrorEnvelope);
    assert_eq!(expected_body(302), BodyShape::Ignored);
    let payload: DecodedBody<u64, GatewayApiErrorResponse> = DecodedBody::Payload(5);
    assert!(payload.fits_status(200));
    assert!(!payload.fits_status(404));
    assert!(payload.fits_status(302));
    let skipped: DecodedBody<u64, GatewayApiErrorResponse> = DecodedBody::Skipped;
    assert!(!skipped.fits_status(200));
    assert!(!skipped.fits_status(500));
}

#[test]
fn client_error_keeps_envelope() {
    let text = r#"{"message":"Invalid request","code":422,"details":{"type":"InvalidRequestError"},"trace_id":"abc123"}"#;
    let body = decode_envelope(text);
    assert!(body.fits_status(422));
    let r: Result<u64, GatewayApiError> = match_response(text.to_string(), 422, body);
    match r {
        Err(ApiError::ClientError(e)) => {
            assert_eq!(e.message, "Invalid request");
            assert_eq!(e.code, Some(422));
            assert_eq!(e.details, Some(ErrorDetails::InvalidRequestError));
            assert_eq!(e.trace_id, Some("abc123".to_string()));
        }
        other => panic!("expected a client error, got {:?}", other),
    }
}

#[test]
fn server_error_with_envelope() {
    let text = r#"{"message":"boom","code":500}"#;
    let r: Result<u64, GatewayApiError> =
        match_response(text.to_string(), 500, decode_envelope(text));
    match r {
        Err(ApiError::ServerError(e)) => {
            assert_eq!(e.message, "boom");
            assert_eq!(e.details, None);
        }
        other => panic!("expected a server error, got {:?}", other),
    }
}

#[test]
fn truncated_server_body_is_a_parse_failure() {
    let text = r#"{"message":"Internal serv"#;
    let body = decode_envelope(text);
    assert!(matches!(body, DecodedBody::Invalid(_)));
    let r: Result<u64, GatewayApiError> = match_response(text.to_string(), 500, body);
    match r {
        Err(ApiError::Parsing { serde_error, response }) => {
            assert_eq!(response, text);
            assert!(!serde_error.message.is_empty());
        }
        other => panic!("expected a parse failure, got {:?}", other),
    }
}

#[test]
fn success_payload_and_failure() {
    let ok: Result<u64, GatewayApiError> =
        match_response("7".to_string(), 200, DecodedBody::Payload(7));
    assert!(matches!(ok, Ok(7)));
    let err = ParseError::new(
        "items[0].state_version".to_string(),
        "invalid type: string \"x\", expected u64".to_string(),
    );
    assert!(err.has_path());
    let bad: Result<u64, GatewayApiError> = match_response(
        r#"{"items":[{"state_version":"x"}]}"#.to_string(),
        200,
        DecodedBody::Invalid(err.clone()),
    );
    match bad {
        Err(ApiError::Parsing { serde_error, response }) => {
            assert_eq!(serde_error, err);
            assert_eq!(serde_error.path, "items[0].state_version");
            assert_eq!(response, r#"{"items":[{"state_version":"x"}]}"#);
        }
        other => panic!("expected a parse failure, got {:?}", other),
    }
}

#[test]
fn other_statuses_are_unknown() {
    for code in [100u16, 201, 204, 301, 302, 304, 399, 600, 999] {
        let r: Result<u64, GatewayApiError> =
            match_response("{}".to_string(), code, DecodedBody::Skipped);
        assert!(matches!(r, Err(ApiError::Unknown)), "status {}", code);
        let r: Result<u64, GatewayApiError> =
            match_response("{}".to_string(), code, DecodedBody::Payload(1));
        assert!(matches!(r, Err(ApiError::Unknown)), "status {}", code);
    }
}

#[test]
fn error_statuses_never_succeed() {
    for code in [400u16, 404, 422, 429, 499, 500, 502, 503, 599] {
        let r: Result<u64, GatewayApiError> = match_response(
            "not json".to_string(),
            code,
            DecodedBody::Invalid(ParseError::new(String::new(), "expected value".to_string())),
        );
        assert!(r.is_err(), "status {}", code);
    }
}

#[test]
fn excerpt_is_bounded() {
    let short = "abc".to_string();
    assert_eq!(excerpt(&short), "abc");
    let long: String = "é".repeat(EXCERPT_CHARS + 500);
    let e = excerpt(&long);
    assert_eq!(e.chars().count(), EXCERPT_CHARS);
    assert_eq!(EXCERPT_CHARS, 1000);
    assert!(long.starts_with(&e));
    let r: Result<u64, GatewayApiError> = match_response(
        long.clone(),
        503,
        DecodedBody::Invalid(ParseError::new(String::new(), "expected value".to_string())),
    );
    match r {
        Err(ApiError::Parsing { response, .. }) => assert_eq!(response, e),
        other => panic!("expected a parse failure, got {:?}", other),
    }
}

/// Decodes a list of state versions with a path-aware decoder.
fn decode_versions(text: &str) -> DecodedBody<Vec<u64>, GatewayApiErrorResponse> {
    let deserializer = &mut serde_json::Deserializer::from_str(text);
    match serde_path_to_error::deserialize::<_, Vec<u64>>(deserializer) {
        Ok(v) => DecodedBody::Payload(v),
        Err(e) => DecodedBody::Invalid(ParseError::new(e.path().to_string(), e.inner().to_string())),
    }
}

#[test]
fn success_iff_body_matches_schema() {
    let good = "[1,2,3]";
    let r: Result<Vec<u64>, GatewayApiError> =
        match_response(good.to_string(), 200, decode_versions(good));
    assert_eq!(r.unwrap(), vec![1, 2, 3]);

    let bad = r#"[1,2,"three"]"#;
    let r: Result<Vec<u64>, GatewayApiError> =
        match_response(bad.to_string(), 200, decode_versions(bad));
    match r {
        Err(ApiError::Parsing { serde_error, response }) => {
            assert!(serde_error.has_path());
            assert_eq!(serde_error.path, "[2]");
            assert_eq!(response, bad);
        }
        other => panic!("expected a parse failure, got {:?}", other),
    }
}

#[test]
fn transport_error_is_network() {
    let e = reqwest::blocking::get("not a url").unwrap_err();
    let err: GatewayApiError = ApiError::from(e);
    assert!(matches!(err, ApiError::Network(_)));
}
