use blog_server::auth_extract::{authenticate_request, extract_user_from_token, parse_bearer_token};
use blog_server::auth_service::AuthService;
use blog_server::error::DomainError;
use blog_server::jwt::{JwtService, TokenError, TOKEN_LIFETIME_SECS};
use blog_server::user::RegisterUser;
use blog_server::user_repository::InMemUserRepository;

const NOW: i64 = 1_700_000_000;

#[test]
fn issued_token_verifies_to_same_identity() {
    let keys = JwtService::new("token-test-secret");
    let token = keys.generate_token(7, "alice", NOW).unwrap();
    let claims = keys.verify_token(&token, NOW).unwrap();
    assert_eq!(claims.user_id, 7);
    assert_eq!(claims.username, "alice");
    assert_eq!(claims.exp, NOW + TOKEN_LIFETIME_SECS);
    // Still valid at the last instant of its lifetime.
    let late = keys.verify_token(&token, NOW + TOKEN_LIFETIME_SECS).unwrap();
    assert_eq!(late.user_id, 7);
}

#[test]
fn token_expires_after_its_lifetime() {
    let keys = JwtService::new("token-test-secret");
    let token = keys.generate_token(7, "alice", NOW).unwrap();
    let stale = keys.verify_token(&token, NOW + TOKEN_LIFETIME_SECS + 1);
    assert_eq!(stale.unwrap_err(), TokenError::Expired);
}

#[test]
fn token_signed_with_other_secret_is_rejected() {
    let keys = JwtService::new("token-test-secret");
    let other = JwtService::new("another-secret");
    let token = other.generate_token(7, "alice", NOW).unwrap();
    assert_eq!(keys.verify_token(&token, NOW).unwrap_err(), TokenError::InvalidSignature);
}

#[test]
fn tampered_and_garbage_tokens_are_rejected() {
    let keys = JwtService::new("token-test-secret");
    let token = keys.generate_token(7, "alice", NOW).unwrap();
    let mut tampered = token.clone();
    tampered.push('x');
    let verdict = keys.verify_token(&tampered, NOW);
    assert!(matches!(verdict, Err(TokenError::InvalidSignature) | Err(TokenError::Malformed)));
    assert_eq!(keys.verify_token("not a token", NOW).unwrap_err(), TokenError::Malformed);
    assert_eq!(keys.verify_token("", NOW).unwrap_err(), TokenError::Malformed);
}

#[test]
fn forged_but_stale_token_is_rejected_on_its_signature() {
    let keys = JwtService::new("token-test-secret");
    let other = JwtService::new("another-secret");
    let stale_forgery = other.generate_token(7, "alice", NOW - 2 * TOKEN_LIFETIME_SECS).unwrap();
    // The rejection names the signature, not the staleness.
    assert_eq!(keys.verify_token(&stale_forgery, NOW).unwrap_err(), TokenError::InvalidSignature);
}

#[test]
fn bearer_header_parsing() {
    assert_eq!(parse_bearer_token("Bearer abc.def.ghi"), Some("abc.def.ghi".to_string()));
    assert_eq!(parse_bearer_token("Bearer x"), Some("x".to_string()));
    assert_eq!(parse_bearer_token("Bearer "), None);
    assert_eq!(parse_bearer_token("Bearer"), None);
    assert_eq!(parse_bearer_token("bearer abc"), None);
    assert_eq!(parse_bearer_token("Basic abc"), None);
    assert_eq!(parse_bearer_token(""), None);
    assert_eq!(parse_bearer_token("abc.def.ghi"), None);
}

fn populated_service() -> (AuthService<InMemUserRepository>, i64, String) {
    let mut auth = AuthService::new(
        InMemUserRepository::new(),
        JwtService::new("request-test-secret"),
    );
    let user = auth
        .register(RegisterUser {
            username: "alice".to_string(),
            email: "a@x.com".to_string(),
            password: "secret1".to_string(),
        })
        .unwrap();
    let token = auth
        .login(
            blog_server::user::LoginUser {
                username: "alice".to_string(),
                password: "secret1".to_string(),
            },
            NOW,
        )
        .unwrap();
    (auth, user.id, token)
}

#[test]
fn authenticated_request_attaches_identity() {
    let (auth, user_id, token) = populated_service();
    let header = format!("Bearer {}", token);
    let identity = authenticate_request(Some(&header), auth.keys(), &auth, NOW).unwrap();
    assert_eq!(identity.id, user_id);
    assert_eq!(identity.email, "a@x.com");
}

#[test]
fn missing_or_malformed_header_is_rejected() {
    let (auth, _, token) = populated_service();
    let keys = JwtService::new("request-test-secret");
    assert!(matches!(
        authenticate_request(None, &keys, &auth, NOW),
        Err(DomainError::Unauthorized)
    ));
    let bare = token.clone();
    assert!(matches!(
        authenticate_request(Some(&bare), &keys, &auth, NOW),
        Err(DomainError::Unauthorized)
    ));
    let wrong_scheme = format!("Token {}", token);
    assert!(matches!(
        authenticate_request(Some(&wrong_scheme), &keys, &auth, NOW),
        Err(DomainError::Unauthorized)
    ));
}

#[test]
fn expired_token_request_is_rejected() {
    let (auth, _, token) = populated_service();
    let header = format!("Bearer {}", token);
    let verdict = authenticate_request(
        Some(&header),
        auth.keys(),
        &auth,
        NOW + TOKEN_LIFETIME_SECS + 1,
    );
    assert!(matches!(verdict, Err(DomainError::Unauthorized)));
}

#[test]
fn token_of_departed_user_is_rejected() {
    let (auth, _, token) = populated_service();
    // The same secret, but a store that no longer holds the subject.
    let empty = AuthService::new(
        InMemUserRepository::new(),
        JwtService::new("request-test-secret"),
    );
    let verdict = extract_user_from_token(&token, empty.keys(), &empty, NOW);
    assert!(matches!(verdict, Err(DomainError::Unauthorized)));
}
