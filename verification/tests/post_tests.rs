use blog_server::auth_extract::{authenticate_request, ensure_owner, AuthenticatedUser};
use blog_server::auth_service::AuthService;
use blog_server::blog_repository::InMemBlogRepository;
use blog_server::blog_service::BlogService;
use blog_server::error::{BlogError, DomainError};
use blog_server::handlers::validate_transfer;
use blog_server::jwt::JwtService;
use blog_server::post::{CreatePost, UpdatePost};
use blog_server::user::{LoginUser, RegisterUser, User};
use blog_server::user_repository::InMemUserRepository;

const NOW: i64 = 1_700_000_000;

fn blog() -> BlogService<InMemBlogRepository> {
    BlogService::new(InMemBlogRepository::new())
}

#[test]
fn create_post_records_author_and_timestamps() {
    let mut blog = blog();
    let post = blog
        .create_post("title".to_string(), "content".to_string(), 5, NOW)
        .unwrap();
    assert_eq!(post.title, "title");
    assert_eq!(post.content, "content");
    assert_eq!(post.author_id, 5);
    assert_eq!(post.created_at, NOW);
    assert_eq!(post.updated_at, NOW);
    assert!(post.id > 0);
}

#[test]
fn owner_updates_and_deletes_succeed() {
    let mut blog = blog();
    let post = blog
        .create_post("title".to_string(), "content".to_string(), 5, NOW)
        .unwrap();
    let updated = blog
        .update_post(
            post.id,
            5,
            UpdatePost { title: "new title".to_string(), content: "new content".to_string() },
            NOW + 10,
        )
        .unwrap();
    assert_eq!(updated.id, post.id);
    assert_eq!(updated.title, "new title");
    assert_eq!(updated.content, "new content");
    assert_eq!(updated.author_id, 5);
    assert_eq!(updated.created_at, NOW);
    assert_eq!(updated.updated_at, NOW + 10);
    blog.delete_post(post.id, 5).unwrap();
    assert!(blog.get_post(post.id).unwrap().is_none());
}

#[test]
fn non_owner_update_and_delete_are_forbidden() {
    let mut blog = blog();
    let post = blog
        .create_post("title".to_string(), "content".to_string(), 5, NOW)
        .unwrap();
    // The post exists and the requester is authenticated; ownership alone decides.
    let update = blog.update_post(
        post.id,
        6,
        UpdatePost { title: "hijack".to_string(), content: "hijack".to_string() },
        NOW + 10,
    );
    assert!(matches!(update, Err(BlogError::Forbidden)));
    let delete = blog.delete_post(post.id, 6);
    assert!(matches!(delete, Err(BlogError::Forbidden)));
    // The resource is untouched by the failed calls.
    let kept = blog.get_post(post.id).unwrap().unwrap();
    assert_eq!(kept.title, "title");
    assert_eq!(kept.content, "content");
    assert_eq!(kept.updated_at, NOW);
}

#[test]
fn missing_post_is_not_found_for_everyone() {
    let mut blog = blog();
    let update = blog.update_post(
        42,
        5,
        UpdatePost { title: "t".to_string(), content: "c".to_string() },
        NOW,
    );
    assert!(matches!(update, Err(BlogError::PostNotFound)));
    assert!(matches!(blog.delete_post(42, 5), Err(BlogError::PostNotFound)));
    assert!(blog.get_post(42).unwrap().is_none());
}

#[test]
fn listing_returns_only_the_owners_posts_in_order() {
    let mut blog = blog();
    let first = blog.create_post("a1".to_string(), "c".to_string(), 5, NOW).unwrap();
    blog.create_post("b1".to_string(), "c".to_string(), 6, NOW).unwrap();
    let second = blog.create_post("a2".to_string(), "c".to_string(), 5, NOW).unwrap();
    let mine = blog.get_posts(5).unwrap();
    assert_eq!(mine.len(), 2);
    assert_eq!(mine[0].id, first.id);
    assert_eq!(mine[0].title, "a1");
    assert_eq!(mine[1].id, second.id);
    assert_eq!(mine[1].title, "a2");
    assert!(blog.get_posts(7).unwrap().is_empty());
}

#[test]
fn ensure_owner_gates_on_identity() {
    let user = AuthenticatedUser { id: 5, email: "a@x.com".to_string() };
    assert!(ensure_owner(5, &user).is_ok());
    assert!(matches!(ensure_owner(6, &user), Err(DomainError::Forbidden)));
}

#[test]
fn transfer_must_name_two_accounts() {
    assert!(validate_transfer(1, 2).is_ok());
    assert!(matches!(validate_transfer(3, 3), Err(BlogError::Validation(_))));
}

#[test]
fn status_codes_follow_the_taxonomy() {
    assert_eq!(BlogError::Validation("x".to_string()).status_code(), 400);
    assert_eq!(BlogError::InsufficientFunds("x".to_string()).status_code(), 400);
    assert_eq!(BlogError::Unauthorized.status_code(), 401);
    assert_eq!(BlogError::InvalidCredentials.status_code(), 401);
    assert_eq!(BlogError::Forbidden.status_code(), 403);
    assert_eq!(BlogError::NotFound("x".to_string()).status_code(), 404);
    assert_eq!(BlogError::PostNotFound.status_code(), 404);
    assert_eq!(BlogError::UserNotFound("x".to_string()).status_code(), 404);
    assert_eq!(BlogError::UserAlreadyExists("x".to_string()).status_code(), 409);
    assert_eq!(BlogError::Internal("x".to_string()).status_code(), 500);
    assert_eq!(BlogError::DatabaseError("x".to_string()).status_code(), 500);
}

#[test]
fn domain_errors_map_one_to_one() {
    assert!(matches!(
        BlogError::from(DomainError::UserNotFound("u".to_string())),
        BlogError::UserNotFound(_)
    ));
    assert!(matches!(
        BlogError::from(DomainError::UserAlreadyExists("u".to_string())),
        BlogError::UserAlreadyExists(_)
    ));
    assert!(matches!(BlogError::from(DomainError::InvalidCredentials), BlogError::InvalidCredentials));
    assert!(matches!(BlogError::from(DomainError::PostNotFound), BlogError::PostNotFound));
    assert!(matches!(BlogError::from(DomainError::Forbidden), BlogError::Forbidden));
    assert!(matches!(BlogError::from(DomainError::Unauthorized), BlogError::Unauthorized));
    assert!(matches!(BlogError::from(DomainError::Internal("i".to_string())), BlogError::Internal(_)));
    assert!(matches!(
        BlogError::from(DomainError::DatabaseError("d".to_string())),
        BlogError::DatabaseError(_)
    ));
}

#[test]
fn plain_constructors_keep_their_fields() {
    let cp = CreatePost::new("t".to_string(), "c".to_string());
    assert_eq!(cp.title, "t");
    assert_eq!(cp.content, "c");
    let u = User::new("alice".to_string(), "a@x.com".to_string(), "hash".to_string());
    assert_eq!(u.id, 0);
    assert_eq!(u.username, "alice");
    assert_eq!(u.email, "a@x.com");
    assert_eq!(u.password_hash, "hash");
    assert_eq!(u.created_at, 0);
}

#[test]
fn end_to_end_register_login_post_and_foreign_update() {
    let mut auth = AuthService::new(
        InMemUserRepository::new(),
        JwtService::new("end-to-end-secret"),
    );
    let mut blog = blog();

    // Register and log in as alice.
    let alice = auth
        .register(RegisterUser {
            username: "alice".to_string(),
            email: "a@x.com".to_string(),
            password: "secret1".to_string(),
        })
        .unwrap();
    let alice_token = auth
        .login(
            LoginUser { username: "alice".to_string(), password: "secret1".to_string() },
            NOW,
        )
        .unwrap();

    // Alice's request carries her bearer token; the post she creates is hers.
    let alice_header = format!("Bearer {}", alice_token);
    let alice_identity =
        authenticate_request(Some(&alice_header), auth.keys(), &auth, NOW).unwrap();
    assert_eq!(alice_identity.id, alice.id);
    let alice_post = blog
        .create_post("hello".to_string(), "world".to_string(), alice_identity.id, NOW)
        .unwrap();
    assert_eq!(alice_post.author_id, alice.id);

    // A second user creates a post of their own.
    let bob = auth
        .register(RegisterUser {
            username: "bob".to_string(),
            email: "b@x.com".to_string(),
            password: "secret2".to_string(),
        })
        .unwrap();
    let bob_token = auth
        .login(
            LoginUser { username: "bob".to_string(), password: "secret2".to_string() },
            NOW,
        )
        .unwrap();
    let bob_header = format!("Bearer {}", bob_token);
    let bob_identity = authenticate_request(Some(&bob_header), auth.keys(), &auth, NOW).unwrap();
    assert_eq!(bob_identity.id, bob.id);
    let bob_post = blog
        .create_post("mine".to_string(), "too".to_string(), bob_identity.id, NOW)
        .unwrap();

    // Alice, authenticated, tries to update bob's post: forbidden.
    let attempt = blog.update_post(
        bob_post.id,
        alice_identity.id,
        UpdatePost { title: "not yours".to_string(), content: "x".to_string() },
        NOW + 1,
    );
    let err = attempt.unwrap_err();
    assert!(matches!(err, BlogError::Forbidden));
    assert_eq!(err.status_code(), 403);

    // Bob's post is untouched; each author still sees exactly their posts.
    let kept = blog.get_post(bob_post.id).unwrap().unwrap();
    assert_eq!(kept.title, "mine");
    assert_eq!(blog.get_posts(alice.id).unwrap().len(), 1);
    assert_eq!(blog.get_posts(bob.id).unwrap().len(), 1);
}
