use rs_backend::accounts::{
    account_from, after_insert, after_lookup, login, login_at, register, Candidate, NewAccount,
    RegisterStep, CREATED,
};
use rs_backend::store::StoreFailure;
use rs_backend::error::{ApiError, AuthError};
use rs_backend::hasher::{hash, verify};
use rs_backend::models::{CommentPayload, LoginRequest, RegisterRequest, User};
use rs_backend::role::Role;
use rs_backend::token::{Claims, TokenCodec};

fn codec() -> TokenCodec {
    TokenCodec::new(b"accounts-secret".to_vec())
}

fn candidate() -> Candidate {
    Candidate {
        username: "alice".to_string(),
        password: "hunter2".to_string(),
        email: "alice@example.com".to_string(),
        role: Role::Teacher,
    }
}

fn failure(message: &str) -> StoreFailure {
    StoreFailure { message: message.to_string() }
}

fn user(password: &str, id: Option<i32>, role: &str) -> User {
    User {
        id,
        username: "alice".to_string(),
        password_hash: hash(password).unwrap(),
        email: "alice@example.com".to_string(),
        role: role.to_string(),
    }
}

fn login_request(password: &str) -> LoginRequest {
    LoginRequest { username: "alice".to_string(), password: password.to_string() }
}

#[test]
fn register_accepts_each_of_the_three_roles() {
    for (name, role) in
        [("admin", Role::Admin), ("teacher", Role::Teacher), ("student", Role::Student)]
    {
        let step = register(RegisterRequest {
            username: "u".to_string(),
            password: "p".to_string(),
            email: "e".to_string(),
            role: name.to_string(),
        });
        assert_eq!(
            step,
            RegisterStep::FindHandle(Candidate {
                username: "u".to_string(),
                password: "p".to_string(),
                email: "e".to_string(),
                role,
            })
        );
    }
}

#[test]
fn register_refuses_other_role_names() {
    for name in ["", "superuser", "Admin", "student ", "root"] {
        let step = register(RegisterRequest {
            username: "u".to_string(),
            password: "p".to_string(),
            email: "e".to_string(),
            role: name.to_string(),
        });
        assert_eq!(step, RegisterStep::Refused(ApiError::ValidationError));
    }
}

#[test]
fn taken_handle_is_a_conflict() {
    assert_eq!(after_lookup(candidate(), Ok(true)), RegisterStep::Refused(ApiError::Conflict));
}

#[test]
fn failed_lookup_is_an_internal_error() {
    assert_eq!(
        after_lookup(candidate(), Err(failure("pool timed out"))),
        RegisterStep::Refused(ApiError::Internal)
    );
}

#[test]
fn free_handle_gives_an_account_with_a_digest() {
    match after_lookup(candidate(), Ok(false)) {
        RegisterStep::Insert(account) => {
            assert_eq!(account.username, "alice");
            assert_eq!(account.email, "alice@example.com");
            assert_eq!(account.role, Role::Teacher);
            assert_ne!(account.password_hash, "hunter2");
            assert!(verify("hunter2", &account.password_hash));
        }
        other => panic!("unexpected step {:?}", other),
    }
}

#[test]
fn account_from_keeps_the_digest_it_is_given() {
    assert_eq!(
        account_from(candidate(), Some("digest".to_string())),
        RegisterStep::Insert(NewAccount {
            username: "alice".to_string(),
            password_hash: "digest".to_string(),
            email: "alice@example.com".to_string(),
            role: Role::Teacher,
        })
    );
    assert_eq!(account_from(candidate(), None), RegisterStep::Refused(ApiError::Internal));
}

#[test]
fn insertion_outcomes() {
    assert_eq!(after_insert(Ok(())), RegisterStep::Created);
    assert_eq!(
        after_insert(Err(failure("duplicate key value violates unique constraint"))),
        RegisterStep::Refused(ApiError::Conflict)
    );
    assert_eq!(after_insert(Err(failure("duplicate"))), RegisterStep::Refused(ApiError::Conflict));
    assert_eq!(
        after_insert(Err(failure("xxduplicat duplicate"))),
        RegisterStep::Refused(ApiError::Conflict)
    );
    assert_eq!(
        after_insert(Err(failure("connection reset"))),
        RegisterStep::Refused(ApiError::Internal)
    );
    assert_eq!(after_insert(Err(failure("Duplicate"))), RegisterStep::Refused(ApiError::Internal));
    assert_eq!(after_insert(Err(failure("duplicat"))), RegisterStep::Refused(ApiError::Internal));
    assert_eq!(after_insert(Err(failure(""))), RegisterStep::Refused(ApiError::Internal));
}

#[test]
fn created_status() {
    assert_eq!(CREATED, 201);
}

#[test]
fn login_issues_a_token_for_the_account() {
    let codec = codec();
    let token = login_at(&codec, &login_request("hunter2"), Ok(Some(user("hunter2", Some(7), "teacher"))), 100)
        .unwrap();
    assert_eq!(
        codec.validate_at(&token, 100),
        Ok(Claims { sub: 7, exp: 3_700, username: "alice".to_string(), role: Role::Teacher })
    );
    assert_eq!(codec.validate_at(&token, 3_700), Err(AuthError::Expired));
}

#[test]
fn login_without_account_is_unauthenticated() {
    assert_eq!(login_at(&codec(), &login_request("hunter2"), Ok(None), 100), Err(ApiError::Unauthenticated));
}

#[test]
fn login_with_wrong_password_is_unauthenticated() {
    let found = Ok(Some(user("hunter2", Some(7), "teacher")));
    assert_eq!(login_at(&codec(), &login_request("letmein"), found, 100), Err(ApiError::Unauthenticated));
}

#[test]
fn login_against_a_malformed_digest_is_unauthenticated() {
    let mut account = user("hunter2", Some(7), "teacher");
    account.password_hash = "hunter2".to_string();
    assert_eq!(
        login_at(&codec(), &login_request("hunter2"), Ok(Some(account)), 100),
        Err(ApiError::Unauthenticated)
    );
}

#[test]
fn login_with_failed_store_is_an_internal_error() {
    assert_eq!(
        login_at(&codec(), &login_request("hunter2"), Err(failure("down")), 100),
        Err(ApiError::Internal)
    );
}

#[test]
fn login_for_an_account_without_number_is_an_internal_error() {
    let found = Ok(Some(user("hunter2", None, "teacher")));
    assert_eq!(login_at(&codec(), &login_request("hunter2"), found, 100), Err(ApiError::Internal));
}

#[test]
fn login_for_an_account_with_unknown_role_is_an_internal_error() {
    let found = Ok(Some(user("hunter2", Some(7), "superuser")));
    assert_eq!(login_at(&codec(), &login_request("hunter2"), found, 100), Err(ApiError::Internal));
}

#[test]
fn login_at_the_end_of_time_is_an_internal_error() {
    let found = Ok(Some(user("hunter2", Some(7), "teacher")));
    assert_eq!(
        login_at(&codec(), &login_request("hunter2"), found, u64::MAX - 3_599),
        Err(ApiError::Internal)
    );
    let found = Ok(Some(user("hunter2", Some(7), "teacher")));
    assert!(login_at(&codec(), &login_request("hunter2"), found, u64::MAX - 3_600).is_ok());
}

#[test]
fn wrong_password_is_reported_before_a_broken_account() {
    let found = Ok(Some(user("hunter2", None, "superuser")));
    assert_eq!(login_at(&codec(), &login_request("letmein"), found, 100), Err(ApiError::Unauthenticated));
}

#[test]
fn login_against_the_clock_gives_a_token_that_validates() {
    let codec = codec();
    let token = login(&codec, &login_request("hunter2"), Ok(Some(user("hunter2", Some(7), "admin")))).unwrap();
    let claims = codec.validate(&token).unwrap();
    assert_eq!(claims.sub, 7);
    assert_eq!(claims.role, Role::Admin);
}

#[test]
fn comment_needs_content() {
    assert_eq!(
        CommentPayload::from_content(Some("A comment".to_string())),
        Ok(CommentPayload { content: "A comment".to_string() })
    );
    assert_eq!(CommentPayload::from_content(Some(String::new())), Err(ApiError::ValidationError));
    assert_eq!(CommentPayload::from_content(None), Err(ApiError::ValidationError));
    assert_eq!(
        CommentPayload::from_content(Some(" ".to_string())),
        Ok(CommentPayload { content: " ".to_string() })
    );
}
