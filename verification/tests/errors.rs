use api_server::error_response::{accepted_subtype, ErrorResponse, Errors};

#[test]
fn error_constructors_keep_message() {
    assert!(matches!(Errors::bad_request("bad"), Errors::BadRequest(m) if m == "bad"));
    assert!(matches!(Errors::internal_error("oops"), Errors::InternalError(m) if m == "oops"));
    let r = ErrorResponse::new(418, "teapot".to_string());
    assert_eq!(r.status, 418);
    assert_eq!(r.message, "teapot");
}

#[test]
fn each_error_has_its_status_and_message() {
    let cases = vec![
        (Errors::BadRequest("wrong".to_string()), 400, "wrong"),
        (Errors::InternalError("broken".to_string()), 500, "broken"),
        (Errors::Unauthorized, 401, "Unauthorized"),
        (Errors::NotFound, 404, "Not found"),
        (Errors::Forbidden, 403, "Forbidden"),
    ];
    for (error, status, message) in cases {
        let body = error.respond_to(Some("application/json")).unwrap();
        assert_eq!(body.status, status);
        assert_eq!(body.message, message);
    }
}

#[test]
fn accept_header_subtype() {
    assert_eq!(accepted_subtype(None), Some("json".to_string()));
    assert_eq!(accepted_subtype(Some("text/html,application/xml")), Some("html".to_string()));
    assert_eq!(accepted_subtype(Some("application/json; q=1")), Some("json; q=1".to_string()));
    assert_eq!(accepted_subtype(Some("a/b/c")), Some("b".to_string()));
    assert_eq!(accepted_subtype(Some("*/*")), Some("*".to_string()));
    assert_eq!(accepted_subtype(Some("text, a/b")), None);
    assert_eq!(accepted_subtype(Some("")), None);
}

#[test]
fn header_without_subtype_is_refused() {
    assert!(Errors::NotFound.respond_to(Some("json")).is_none());
    assert!(Errors::NotFound.respond_to(None).is_some());
}
