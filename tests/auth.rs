use cpass::auth::{authenticate, change_user, insert_failure, login, login_rejection, register, User};
use cpass::cipher::KdfParams;
use cpass::error::{CpassError, ErrorClass};
use cpass::hashing::Argon;
use cpass::models::{CreateUser, LoginUser, UpdateUser};
use cpass::password_store::PasswordStore;
use cpass::token::{validate_token, SigningKey};

const T: u64 = 1_700_000_000;

fn hasher() -> Argon {
    Argon::new(KdfParams::new(64, 1, 1).unwrap())
}

fn alice() -> User {
    let request = CreateUser {
        email: "alice@example.com".to_string(),
        username: "alice".to_string(),
        password: "pw1".to_string(),
        password_hint: Some("first".to_string()),
    };
    let new = register(&request, &hasher()).unwrap();
    assert_eq!(new.email, "alice@example.com");
    assert!(new.password_hash.starts_with("$argon2id$"));
    User {
        id: 77,
        email: new.email,
        username: new.username,
        password_hash: new.password_hash,
        password_hint: new.password_hint,
    }
}

#[test]
fn register_then_login() {
    let user = alice();
    let key = SigningKey::new(Some("k")).unwrap();
    let wrong = LoginUser { email: "alice@example.com".to_string(), password: "nope".to_string() };
    assert_eq!(login(&wrong, Some(&user), T, &key), Err(CpassError::InvalidUsernameOrPassword));
    let right = LoginUser { email: "alice@example.com".to_string(), password: "pw1".to_string() };
    let response = login(&right, Some(&user), T, &key).unwrap();
    assert_eq!(response.email, "alice@example.com");
    assert_eq!(response.username, "alice");
    assert_eq!(validate_token(&response.token, &key, T).unwrap().sub, 77);
}

#[test]
fn unknown_user_looks_like_wrong_password() {
    assert_eq!(authenticate(None, "pw1"), Err(CpassError::InvalidUsernameOrPassword));
    assert_eq!(authenticate(Some(&alice()), "pw2"), Err(CpassError::InvalidUsernameOrPassword));
    assert_eq!(authenticate(Some(&alice()), "pw1"), Ok(77));
    assert_eq!(login_rejection(None).password_hint, None);
    assert_eq!(login_rejection(Some(&alice())).password_hint, Some("first".to_string()));
}

#[test]
fn unreadable_hash_is_a_hashing_error() {
    let mut user = alice();
    user.password_hash = "not a hash".to_string();
    assert_eq!(authenticate(Some(&user), "pw1"), Err(CpassError::HashingError));
    assert_eq!(Argon::verify(b"pw1", "$argon2id$broken"), Err(CpassError::HashingError));
}

#[test]
fn hashes_are_salted() {
    let h = hasher();
    let a = h.hash_password(b"same").unwrap();
    let b = h.hash_password(b"same").unwrap();
    assert_ne!(a, b);
    assert_eq!(Argon::verify(b"same", &a), Ok(true));
    assert_eq!(Argon::verify(b"other", &a), Ok(false));
    let salted = h.hash_with_salt(b"same", b"saltsalt").unwrap();
    assert_eq!(salted, h.hash_with_salt(b"same", b"saltsalt").unwrap());
    assert_eq!(h.hash_with_salt(b"same", b"short"), Err(CpassError::HashingError));
}

#[test]
fn profile_change_keeps_absent_fields() {
    let mut user = alice();
    let change = UpdateUser {
        email: None,
        password: Some("pw9".to_string()),
        username: Some("al".to_string()),
        password_hint: None,
    };
    change_user(&mut user, change, &hasher()).unwrap();
    assert_eq!(user.email, "alice@example.com");
    assert_eq!(user.username, "al");
    assert_eq!(user.password_hint, Some("first".to_string()));
    assert_eq!(authenticate(Some(&user), "pw9"), Ok(77));
    assert_eq!(authenticate(Some(&user), "pw1"), Err(CpassError::InvalidUsernameOrPassword));
}

#[test]
fn duplicate_email_is_a_conflict() {
    let e = insert_failure("alice@example.com", true, "duplicate key");
    assert_eq!(e, CpassError::UserAlreadyExists("alice@example.com".to_string()));
    assert_eq!(e.class(), ErrorClass::Conflict);
    assert_eq!(e.class().http_status(), 409);
    let d = insert_failure("alice@example.com", false, "connection reset");
    assert_eq!(d, CpassError::DatabaseError("connection reset".to_string()));
    assert_eq!(d.class().http_status(), 503);
}

#[test]
fn error_classes() {
    assert_eq!(CpassError::InvalidRequest(String::new()).class().http_status(), 400);
    assert_eq!(CpassError::InvalidToken.class().http_status(), 401);
    assert_eq!(CpassError::InvalidUsernameOrPassword.class().http_status(), 401);
    assert_eq!(CpassError::HashingError.class().http_status(), 500);
    assert_eq!(CpassError::NotFound(String::new()).class().http_status(), 404);
    assert_eq!(CpassError::Forbidden.class().http_status(), 403);
}

#[test]
fn password_store_opens() {
    assert!(PasswordStore::new(b"master").is_ok());
}
