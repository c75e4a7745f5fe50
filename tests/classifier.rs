use vipps::error::{classify, classify_lookup, is_not_found, is_success_status, api_error};
use vipps::{ProblemDetails, VippsError};

fn problem(title: &str, detail: &str) -> ProblemDetails {
    ProblemDetails {
        ty: Some("https://example.com/problem".to_string()),
        title: title.to_string(),
        detail: detail.to_string(),
        instance: "/epayment/v1/payments".to_string(),
        extra_details: None,
        invalid_params: Some(vec![vipps::InvalidParam { name: "amount".to_string(), reason: "negative".to_string() }]),
    }
}

fn api_parts(e: VippsError) -> (u16, String, String) {
    match e {
        VippsError::ApiError { code, title, detail } => (code, title, detail),
        other => panic!("expected an API error, got {:?}", other),
    }
}

#[test]
fn success_statuses() {
    assert!(is_success_status(200));
    assert!(is_success_status(201));
    assert!(is_success_status(299));
    assert!(!is_success_status(199));
    assert!(!is_success_status(300));
    assert!(!is_success_status(404));
}

#[test]
fn created_classifies_as_success() {
    assert!(classify(201, None).is_ok());
    assert!(classify(201, Some(problem("ignored", "ignored"))).is_ok());
}

#[test]
fn bad_request_carries_problem_details() {
    let e = classify(400, Some(problem("Bad Request", "amount must be positive"))).unwrap_err();
    assert_eq!(api_parts(e), (400, "Bad Request".to_string(), "amount must be positive".to_string()));
}

#[test]
fn unparsable_body_degrades_to_unknown_error() {
    let e = classify(500, None).unwrap_err();
    assert_eq!(api_parts(e), (500, "Unknown error".to_string(), String::new()));
}

#[test]
fn api_error_uses_given_code() {
    assert_eq!(api_parts(api_error(503, None)).0, 503);
}

#[test]
fn not_found_on_lookup_is_absent() {
    assert!(is_not_found(404));
    assert!(!is_not_found(400));
    assert!(matches!(classify_lookup(404, None), Ok(false)));
    assert!(matches!(classify_lookup(404, Some(problem("Not Found", "no such id"))), Ok(false)));
    assert!(matches!(classify_lookup(200, None), Ok(true)));
}

#[test]
fn not_found_elsewhere_is_an_error() {
    let e = classify(404, Some(problem("Not Found", "no such payment"))).unwrap_err();
    assert_eq!(api_parts(e), (404, "Not Found".to_string(), "no such payment".to_string()));
    let e = classify_lookup(500, None).unwrap_err();
    assert_eq!(api_parts(e).0, 500);
}
