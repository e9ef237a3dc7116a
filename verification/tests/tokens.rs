use api_server::error_response::Errors;
use api_server::jwt::{bearer_token, AuthOutcome, Claims, Jwt, TOKEN_LIFETIME_SECS};
use api_server::jwt_secret::JwtSecret;
use api_server::models::User;

fn uuid_new_v4() -> u128 {
    uuid::Uuid::new_v4().as_u128()
}

#[test]
fn generates_token() {
    let user = User { id: uuid_new_v4() };

    let secret = JwtSecret::generate_secret(256);

    let token = Jwt::create_token_for_user(&user, &secret).unwrap();

    println!("Generated token: {}", token);
}

#[test]
fn token_carries_user_and_expiry() {
    let user = User { id: 0x0123456789abcdef0123456789abcdef };
    let secret = b"secret".to_vec();
    let token = Jwt::create_token_at(&user, &secret, 1_000).unwrap();
    assert_eq!(token.split('.').count(), 3);
    assert!(TOKEN_LIFETIME_SECS == 31 * 24 * 60 * 60);
    let again = Jwt::create_token_at(&user, &secret, 1_000).unwrap();
    assert_eq!(token, again);
    let other = Jwt::create_token_at(&user, &secret, 1_001).unwrap();
    assert_ne!(token, other);
}

#[test]
fn bearer_header_is_split_at_spaces() {
    assert_eq!(bearer_token("Bearer abc.def"), Some("abc.def".to_string()));
    assert_eq!(bearer_token("Bearer a b"), Some("a".to_string()));
    assert_eq!(bearer_token("Bearer "), Some("".to_string()));
    assert_eq!(bearer_token("Bearer"), None);
    assert_eq!(bearer_token("Basic abc"), None);
    assert_eq!(bearer_token("bearer abc"), None);
}

#[test]
fn authenticates_token_of_user() {
    let user = User { id: uuid_new_v4() };
    let secret = b"a secret".to_vec();
    let token = Jwt::create_token_for_user(&user, &secret).unwrap();
    let header = format!("Bearer {}", token);
    match Jwt::from_request(Some(&header), &secret) {
        AuthOutcome::Success(jwt) => assert_eq!(jwt.user_id, user.id),
        other => panic!("unexpected outcome {:?}", other),
    }
}

#[test]
fn refuses_token_under_other_secret() {
    let user = User { id: uuid_new_v4() };
    let token = Jwt::create_token_for_user(&user, b"one").unwrap();
    let header = format!("Bearer {}", token);
    assert!(matches!(
        Jwt::from_request(Some(&header), b"two"),
        AuthOutcome::Failure(401, Errors::Unauthorized)
    ));
}

#[test]
fn refuses_expired_token() {
    let user = User { id: uuid_new_v4() };
    let token = Jwt::create_token_at(&user, b"k", 1_000).unwrap();
    let header = format!("Bearer {}", token);
    assert!(matches!(
        Jwt::from_request(Some(&header), b"k"),
        AuthOutcome::Failure(401, Errors::Unauthorized)
    ));
}

#[test]
fn forwards_requests_without_bearer_token() {
    assert!(matches!(Jwt::from_request(None, b"k"), AuthOutcome::Forward));
    assert!(matches!(Jwt::from_request(Some("Basic abc"), b"k"), AuthOutcome::Forward));
    assert!(matches!(Jwt::from_request(Some("Bearer"), b"k"), AuthOutcome::Forward));
    assert!(matches!(
        Jwt::from_request(Some("Bearer garbage"), b"k"),
        AuthOutcome::Failure(401, Errors::Unauthorized)
    ));
}

#[test]
fn outcome_of_claims() {
    let id: u128 = 0x550e8400_e29b_41d4_a716_446655440000;
    let claims = Claims { sub: "550e8400-e29b-41d4-a716-446655440000".to_string(), exp: 5 };
    match Jwt::outcome_for_claims(Some(claims)) {
        AuthOutcome::Success(jwt) => assert_eq!(jwt.user_id, id),
        other => panic!("unexpected outcome {:?}", other),
    }
    let upper = Claims { sub: "550E8400E29B41D4A716446655440000".to_string(), exp: 5 };
    assert!(matches!(Jwt::outcome_for_claims(Some(upper)), AuthOutcome::Success(Jwt { user_id }) if user_id == id));
    let bad = Claims { sub: "nobody".to_string(), exp: 5 };
    assert!(matches!(Jwt::outcome_for_claims(Some(bad)), AuthOutcome::Failure(401, Errors::Unauthorized)));
    assert!(matches!(Jwt::outcome_for_claims(None), AuthOutcome::Failure(401, Errors::Unauthorized)));
}

#[test]
fn unsigned_uuid_bearer_is_refused() {
    let header = "Bearer 550e8400-e29b-41d4-a716-446655440000";
    assert!(matches!(
        Jwt::from_request(Some(header), b"k"),
        AuthOutcome::Failure(401, Errors::Unauthorized)
    ));
}

#[test]
fn expiry_overflow_is_refused() {
    let user = User { id: 1 };
    match Jwt::create_token_at(&user, b"k", u64::MAX - TOKEN_LIFETIME_SECS + 1) {
        Err(m) => assert_eq!(m, "Token expiry time overflows"),
        Ok(t) => panic!("unexpected token {}", t),
    }
    assert!(Jwt::create_token_at(&user, b"k", u64::MAX - TOKEN_LIFETIME_SECS).is_ok());
}

#[test]
fn issued_token_is_base64url_and_dots() {
    let user = User { id: 0x00112233445566778899aabbccddeeff };
    let token = Jwt::create_token_at(&user, b"k", 5).unwrap();
    assert!(token.chars().all(|c| c.is_ascii_alphanumeric() || c == '-' || c == '_' || c == '.'));
    assert!(!token.contains(' '));
    assert_eq!(bearer_token(&format!("Bearer {}", token)), Some(token.clone()));
}
