use blog_server::auth_service::AuthService;
use blog_server::error::{BlogError, DomainError};
use blog_server::jwt::JwtService;
use blog_server::user::{LoginUser, RegisterUser, User};
use blog_server::user_repository::{InMemUserRepository, UserRepository};

const NOW: i64 = 1_700_000_000;

fn service() -> AuthService<InMemUserRepository> {
    AuthService::new(InMemUserRepository::new(), JwtService::new("unit-test-secret"))
}

fn register(
    auth: &mut AuthService<InMemUserRepository>,
    username: &str,
    email: &str,
    password: &str,
) -> Result<User, DomainError> {
    auth.register(RegisterUser {
        username: username.to_string(),
        email: email.to_string(),
        password: password.to_string(),
    })
}

fn login(
    auth: &AuthService<InMemUserRepository>,
    username: &str,
    password: &str,
) -> Result<String, DomainError> {
    auth.login(
        LoginUser { username: username.to_string(), password: password.to_string() },
        NOW,
    )
}

#[test]
fn register_returns_folded_user() {
    let mut auth = service();
    let user = register(&mut auth, "Alice", "a@x.com", "secret1").unwrap();
    assert_eq!(user.username, "alice");
    assert_eq!(user.email, "a@x.com");
    assert!(user.id > 0);
    // The stored hash is opaque: never the raw password.
    assert_ne!(user.password_hash, "secret1");
    assert!(!user.password_hash.is_empty());
}

#[test]
fn registered_password_verifies_and_wrong_password_does_not() {
    let mut auth = service();
    register(&mut auth, "alice", "a@x.com", "secret1").unwrap();
    assert!(login(&auth, "alice", "secret1").is_ok());
    assert!(matches!(login(&auth, "alice", "secret2"), Err(DomainError::Unauthorized)));
}

#[test]
fn login_folds_username_case() {
    let mut auth = service();
    register(&mut auth, "ALICE", "a@x.com", "secret1").unwrap();
    assert!(login(&auth, "alice", "secret1").is_ok());
    assert!(login(&auth, "Alice", "secret1").is_ok());
    assert!(login(&auth, "ALICE", "secret1").is_ok());
}

#[test]
fn unknown_user_and_wrong_password_are_one_rejection() {
    let mut auth = service();
    register(&mut auth, "alice", "a@x.com", "secret1").unwrap();
    let missing = login(&auth, "nobody", "whatever").unwrap_err();
    let wrong = login(&auth, "alice", "wrong-password").unwrap_err();
    assert!(matches!(missing, DomainError::Unauthorized));
    assert!(matches!(wrong, DomainError::Unauthorized));
    // The outward shape is identical too: same status, same message shape.
    let missing_http = BlogError::from(missing);
    let wrong_http = BlogError::from(wrong);
    assert_eq!(missing_http.status_code(), 401);
    assert_eq!(wrong_http.status_code(), 401);
    assert!(matches!(missing_http, BlogError::Unauthorized));
    assert!(matches!(wrong_http, BlogError::Unauthorized));
}

#[test]
fn second_registration_of_same_name_fails_and_first_still_works() {
    let mut auth = service();
    let first = register(&mut auth, "alice", "a@x.com", "secret1").unwrap();
    let second = register(&mut auth, "alice", "other@x.com", "secret2");
    assert!(matches!(second, Err(DomainError::UserAlreadyExists(_))));
    // Folding makes it the same name under another case as well.
    let cased = register(&mut auth, "Alice", "third@x.com", "secret3");
    assert!(matches!(cased, Err(DomainError::UserAlreadyExists(_))));
    // The first user's record is unaffected: same identity, same password.
    assert!(login(&auth, "alice", "secret1").is_ok());
    assert!(matches!(login(&auth, "alice", "secret2"), Err(DomainError::Unauthorized)));
    let fetched = auth.get_user(first.id).unwrap();
    assert_eq!(fetched.id, first.id);
    assert_eq!(fetched.email, "a@x.com");
}

#[test]
fn equal_passwords_hash_to_different_strings() {
    let mut auth = service();
    let a = register(&mut auth, "alice", "a@x.com", "shared-pw").unwrap();
    let b = register(&mut auth, "bob", "b@x.com", "shared-pw").unwrap();
    // The hash is salted: one password, two stored strings.
    assert_ne!(a.password_hash, b.password_hash);
    assert!(login(&auth, "alice", "shared-pw").is_ok());
    assert!(login(&auth, "bob", "shared-pw").is_ok());
}

#[test]
fn unreadable_stored_hash_is_internal_not_unauthorized() {
    // A record whose stored hash is corrupted: the checker cannot read it,
    // so the failure is internal, not a credential verdict.
    let mut repo = InMemUserRepository::new();
    repo.create(User::new(
        "alice".to_string(),
        "a@x.com".to_string(),
        "not-a-bcrypt-hash".to_string(),
    ))
    .unwrap();
    let auth = AuthService::new(repo, JwtService::new("unit-test-secret"));
    let err = login(&auth, "alice", "secret1").unwrap_err();
    assert!(matches!(err, DomainError::Internal(_)));
    assert_eq!(BlogError::from(err).status_code(), 500);
}

#[test]
fn get_user_reports_missing_identifier() {
    let mut auth = service();
    let user = register(&mut auth, "alice", "a@x.com", "secret1").unwrap();
    assert!(auth.get_user(user.id).is_ok());
    assert!(matches!(auth.get_user(user.id + 1), Err(DomainError::UserNotFound(_))));
}

#[test]
fn distinct_users_get_distinct_identifiers() {
    let mut auth = service();
    let a = register(&mut auth, "alice", "a@x.com", "pw-alice1").unwrap();
    let b = register(&mut auth, "bob", "b@x.com", "pw-bobby1").unwrap();
    assert_ne!(a.id, b.id);
    // Each password opens only its own account.
    assert!(login(&auth, "alice", "pw-alice1").is_ok());
    assert!(login(&auth, "bob", "pw-bobby1").is_ok());
    assert!(matches!(login(&auth, "alice", "pw-bobby1"), Err(DomainError::Unauthorized)));
    assert!(matches!(login(&auth, "bob", "pw-alice1"), Err(DomainError::Unauthorized)));
}
