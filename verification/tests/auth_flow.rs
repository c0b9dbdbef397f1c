use auth_jwt_server::auth::extract_bearer;
use auth_jwt_server::codec::{encode_then_decode, expired_token_rejected};
use auth_jwt_server::routes::{credentials_valid, issue_then_authenticate, TOKEN_EXPIRY};
use auth_jwt_server::{
    authenticate, authorize, decode, encode, protected, AuthBody, AuthError, AuthPayload, Claims,
    DecodeError, EncodeError, Keys,
};

const NOW: usize = 1_700_000_000;

fn keys() -> Keys {
    Keys::new(b"test-secret")
}

fn payload(id: &str, secret: &str) -> AuthPayload {
    AuthPayload { client_id: id.to_string(), client_secret: secret.to_string() }
}

fn claims(sub: &str, company: &str, exp: usize) -> Claims {
    Claims { sub: sub.to_string(), company: company.to_string(), exp }
}

#[test]
fn round_trip_recovers_claims() {
    let k = keys();
    let c = claims("alice@example.com", "Initech", NOW + 3600);
    let token = encode(&c, &k).unwrap();
    let back = decode(&token, &k, NOW).unwrap();
    assert_eq!(back.sub, c.sub);
    assert_eq!(back.company, c.company);
    assert_eq!(back.exp, c.exp);
}

#[test]
fn round_trip_law_on_concrete_values() {
    let k = keys();
    let c = claims("b@b.com", "ACME", NOW + 1);
    let back = encode_then_decode(&c, &k, NOW);
    assert_eq!(back.sub, "b@b.com");
    assert_eq!(back.company, "ACME");
    assert_eq!(back.exp, NOW + 1);
}

#[test]
fn tampered_signature_is_rejected() {
    let k = keys();
    let token = encode(&claims("b@b.com", "ACME", NOW + 3600), &k).unwrap();
    let parts: Vec<&str> = token.split('.').collect();
    assert_eq!(parts.len(), 3);
    let (header, body, signature) = (parts[0], parts[1], parts[2]);
    for i in 0..signature.len() {
        let mut flipped: Vec<char> = signature.chars().collect();
        flipped[i] = if flipped[i] == 'A' { 'B' } else { 'A' };
        let flipped: String = flipped.into_iter().collect();
        let bad_token = format!("{}.{}.{}", header, body, flipped);
        assert!(decode(&bad_token, &k, NOW).is_err(), "byte {} went unnoticed", i);
        let auth_header = format!("Bearer {}", bad_token);
        assert_eq!(
            authenticate(Some(&auth_header), &k, NOW).unwrap_err(),
            AuthError::InvalidToken
        );
    }
}

#[test]
fn expired_token_is_rejected() {
    let k = keys();
    let token = encode(&claims("b@b.com", "ACME", NOW - 60), &k).unwrap();
    assert_eq!(decode(&token, &k, NOW).unwrap_err(), DecodeError::Expired);
    let header = format!("Bearer {}", token);
    assert_eq!(authenticate(Some(&header), &k, NOW).unwrap_err(), AuthError::InvalidToken);
}

#[test]
fn expiry_law_on_concrete_values() {
    let k = keys();
    let c = claims("b@b.com", "ACME", NOW - 1);
    assert_eq!(expired_token_rejected(&c, &k, NOW), DecodeError::Expired);
}

#[test]
fn token_of_other_key_is_rejected() {
    let key_a = Keys::new(b"key-a");
    let key_b = Keys::new(b"key-b");
    let token = encode(&claims("b@b.com", "ACME", NOW + 3600), &key_a).unwrap();
    assert_eq!(decode(&token, &key_b, NOW).unwrap_err(), DecodeError::SignatureInvalid);
    assert!(decode(&token, &key_a, NOW).is_ok());
}

#[test]
fn authorize_rejects_missing_credentials() {
    let k = keys();
    assert_eq!(authorize(&payload("", "x"), &k).unwrap_err(), AuthError::MissingCredentials);
    assert_eq!(authorize(&payload("foo", ""), &k).unwrap_err(), AuthError::MissingCredentials);
}

#[test]
fn authorize_rejects_wrong_credentials() {
    let k = keys();
    assert_eq!(authorize(&payload("wrong", "wrong"), &k).unwrap_err(), AuthError::WrongCredentials);
    assert_eq!(authorize(&payload("foo", "wrong"), &k).unwrap_err(), AuthError::WrongCredentials);
    assert!(!credentials_valid(&"wrong".to_string(), &"wrong".to_string()));
    assert!(credentials_valid(&"foo".to_string(), &"bar".to_string()));
}

#[test]
fn authorize_accepts_fixed_pair() {
    let k = keys();
    let body = authorize(&payload("foo", "bar"), &k).unwrap();
    assert!(!body.access_token.is_empty());
    assert_eq!(body.token_type, "Bearer");
    let again = authorize(&payload("foo", "bar"), &k).unwrap();
    assert_eq!(body.access_token, again.access_token);
}

#[test]
fn issued_token_authenticates() {
    let k = keys();
    let body = authorize(&payload("foo", "bar"), &k).unwrap();
    let header = format!("Bearer {}", body.access_token);
    let c = authenticate(Some(&header), &k, NOW).unwrap();
    assert_eq!(c.sub, "b@b.com");
    assert_eq!(c.company, "ACME");
    assert_eq!(c.exp, TOKEN_EXPIRY);
}

#[test]
fn end_to_end_law_on_concrete_values() {
    let k = keys();
    let c = issue_then_authenticate(&payload("foo", "bar"), &k, NOW);
    assert_eq!(c.sub, "b@b.com");
    assert_eq!(c.company, "ACME");
    assert_eq!(c.exp, 2_000_000_000);
}

#[test]
fn missing_header_is_invalid_token() {
    let k = keys();
    assert_eq!(authenticate(None, &k, NOW).unwrap_err(), AuthError::InvalidToken);
}

#[test]
fn wrong_scheme_is_invalid_token() {
    let k = keys();
    let body = authorize(&payload("foo", "bar"), &k).unwrap();
    let basic = format!("Basic {}", body.access_token);
    assert_eq!(authenticate(Some(&basic), &k, NOW).unwrap_err(), AuthError::InvalidToken);
    assert_eq!(authenticate(Some(&body.access_token), &k, NOW).unwrap_err(), AuthError::InvalidToken);
    assert_eq!(extract_bearer("Bearer abc"), Some("abc"));
    assert_eq!(extract_bearer("Basic abc"), None);
    assert_eq!(extract_bearer("Bear"), None);
}

#[test]
fn scheme_is_matched_case_insensitively() {
    let k = keys();
    let body = authorize(&payload("foo", "bar"), &k).unwrap();
    let lower = format!("bearer {}", body.access_token);
    assert!(authenticate(Some(&lower), &k, NOW).is_ok());
    assert_eq!(extract_bearer("bearer abc"), Some("abc"));
    assert_eq!(extract_bearer("BEARER abc"), Some("abc"));
    assert_eq!(extract_bearer("bEaReR abc"), Some("abc"));
    assert_eq!(extract_bearer("Bearer"), None);
}

#[test]
fn garbage_token_is_invalid() {
    let k = keys();
    assert_eq!(decode("not-a-token", &k, NOW).unwrap_err(), DecodeError::Malformed);
    assert_eq!(
        authenticate(Some("Bearer not.a.token"), &k, NOW).unwrap_err(),
        AuthError::InvalidToken
    );
}

#[test]
fn auth_body_wraps_token_as_bearer() {
    let body = AuthBody::new("some-token".to_string());
    assert_eq!(body.access_token, "some-token");
    assert_eq!(body.token_type, "Bearer");
}

#[test]
fn protected_greets_with_claims() {
    let c = claims("b@b.com", "ACME", TOKEN_EXPIRY);
    assert_eq!(
        protected(&c).unwrap(),
        "Welcome to the protected area :)\nYour data:\nEmail: b@b.com\nCompany: ACME"
    );
}

#[test]
fn error_statuses_and_messages_are_fixed() {
    assert_eq!(AuthError::WrongCredentials.status_code(), 401);
    assert_eq!(AuthError::MissingCredentials.status_code(), 400);
    assert_eq!(AuthError::TokenCreation.status_code(), 500);
    assert_eq!(AuthError::InvalidToken.status_code(), 400);
    assert_eq!(AuthError::WrongCredentials.message(), "Wrong credentials");
    assert_eq!(AuthError::MissingCredentials.message(), "Missing credentials");
    assert_eq!(AuthError::TokenCreation.message(), "Token creation error");
    assert_eq!(AuthError::InvalidToken.message(), "Invalid token");
    assert_eq!(AuthError::InvalidToken.body(), "{\"error\":\"Invalid token\"}");
}

#[test]
fn encode_produces_three_segments() {
    let k = keys();
    let c = claims("b@b.com", "ACME", NOW + 3600);
    let token = encode(&c, &k).unwrap();
    assert_eq!(token.split('.').count(), 3);
    assert_ne!(token, "b@b.com");
    let again = encode(&c, &k).unwrap();
    assert_eq!(token, again);
}

#[test]
fn signing_never_fails() {
    let k = keys();
    match encode(&claims("", "", 0), &k) {
        Ok(token) => assert!(!token.is_empty()),
        Err(EncodeError::SigningFailed) => panic!("signing failed"),
    }
    assert!(!encode(&claims("b@b.com", "ACME", usize::MAX), &k).unwrap().is_empty());
}
