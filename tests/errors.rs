use typecast_rust::{ErrorResponse, TypecastError};

fn body(detail: &str) -> Option<ErrorResponse> {
    Some(ErrorResponse { detail: detail.to_string() })
}

fn detail(e: &TypecastError) -> Option<String> {
    match e {
        TypecastError::BadRequest { detail }
        | TypecastError::Unauthorized { detail }
        | TypecastError::PaymentRequired { detail }
        | TypecastError::Forbidden { detail }
        | TypecastError::NotFound { detail }
        | TypecastError::ValidationError { detail }
        | TypecastError::RateLimited { detail }
        | TypecastError::ServerError { detail }
        | TypecastError::Unknown { detail, .. } => Some(detail.clone()),
        _ => None,
    }
}

#[test]
fn status_table() {
    assert!(TypecastError::from_response(400, body("x")).is_bad_request());
    assert!(TypecastError::from_response(401, body("x")).is_unauthorized());
    assert!(TypecastError::from_response(402, body("x")).is_payment_required());
    assert!(TypecastError::from_response(403, body("x")).is_forbidden());
    assert!(TypecastError::from_response(404, body("x")).is_not_found());
    assert!(TypecastError::from_response(422, body("x")).is_validation_error());
    assert!(TypecastError::from_response(429, body("x")).is_rate_limited());
    assert!(TypecastError::from_response(500, body("x")).is_server_error());
    assert!(TypecastError::from_response(503, body("x")).is_server_error());
    assert!(TypecastError::from_response(599, body("x")).is_server_error());
    match TypecastError::from_response(418, body("teapot")) {
        TypecastError::Unknown { status_code, detail } => {
            assert_eq!(status_code, 418);
            assert_eq!(detail, "teapot");
        },
        other => panic!("expected Unknown, got {:?}", other),
    }
    assert!(matches!(
        TypecastError::from_response(600, None),
        TypecastError::Unknown { status_code: 600, .. }
    ));
    assert!(matches!(
        TypecastError::from_response(499, None),
        TypecastError::Unknown { status_code: 499, .. }
    ));
}

#[test]
fn detail_comes_from_body_or_fallback() {
    let e = TypecastError::from_response(404, body("voice not found"));
    assert!(e.is_not_found());
    assert_eq!(detail(&e).as_deref(), Some("voice not found"));
    let e = TypecastError::from_response(500, None);
    assert_eq!(detail(&e).as_deref(), Some("Unknown error"));
    let e = TypecastError::from_response(418, None);
    assert_eq!(detail(&e).as_deref(), Some("Unknown error"));
}

#[test]
fn status_codes_of_kinds() {
    assert_eq!(TypecastError::from_response(400, None).status_code(), Some(400));
    assert_eq!(TypecastError::from_response(422, None).status_code(), Some(422));
    assert_eq!(TypecastError::from_response(429, None).status_code(), Some(429));
    assert_eq!(TypecastError::from_response(503, None).status_code(), Some(500));
    assert_eq!(TypecastError::from_response(418, None).status_code(), Some(418));
    let json = serde_json::from_str::<serde_json::Value>("{not json").unwrap_err();
    let e = TypecastError::JsonError(json);
    assert_eq!(e.status_code(), None);
    assert!(!e.is_bad_request() && !e.is_not_found() && !e.is_server_error());
}

#[test]
fn error_messages() {
    assert_eq!(
        TypecastError::from_response(418, body("teapot")).message(),
        "API error (status 418): teapot"
    );
    assert_eq!(
        TypecastError::from_response(0, None).message(),
        "API error (status 0): Unknown error"
    );
    assert_eq!(
        TypecastError::from_response(400, body("bad voice")).message(),
        "Bad Request - bad voice"
    );
    assert_eq!(
        TypecastError::from_response(401, body("ignored")).message(),
        "Unauthorized - Invalid or missing API key"
    );
    assert_eq!(
        TypecastError::from_response(502, body("upstream")).message(),
        "Internal Server Error - upstream"
    );
    assert_eq!(
        TypecastError::from_response(429, None).message(),
        "Too Many Requests - Rate limit exceeded"
    );
    let json = serde_json::from_str::<serde_json::Value>("[1,").unwrap_err();
    let text = json.to_string();
    let m = TypecastError::JsonError(json).message();
    assert!(m.starts_with("JSON error: "));
    assert!(m.ends_with(&text));
}
