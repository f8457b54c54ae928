//! Tests for Basic-credential decoding and credential validation, run
//! against the real Argon2 implementation.

use argon2::PasswordHasher;
use blog_backend::authentication::{basic_authentication, validate_credentials, AuthError, Credentials};
use blog_backend::store::{Store, UserRow};

fn phc_hash_of(password: &[u8]) -> String {
    let salt = argon2::password_hash::SaltString::encode_b64(b"0123456789abcdef").unwrap();
    argon2::Argon2::default()
        .hash_password(password, &salt)
        .unwrap()
        .to_string()
}

fn store_with_user(username: &str, password: &[u8]) -> Store {
    let mut store = Store::new();
    store.users.push(UserRow {
        user_id: 42,
        username: String::from(username),
        password_hash: phc_hash_of(password),
    });
    store
}

fn basic_header(username: &str, password: &str) -> String {
    let payload = base64::Engine::encode(
        &base64::engine::general_purpose::STANDARD,
        format!("{}:{}", username, password),
    );
    format!("Basic {}", payload)
}

#[test]
fn correct_credentials_return_the_user_id() {
    let store = store_with_user("admin", b"everythinghastostartsomewhere");
    let credentials = Credentials {
        username: String::from("admin"),
        password: b"everythinghastostartsomewhere".to_vec(),
    };
    assert_eq!(validate_credentials(&store, &credentials, false), Ok(42));
}

#[test]
fn wrong_password_is_invalid_credentials() {
    let store = store_with_user("admin", b"everythinghastostartsomewhere");
    let credentials = Credentials {
        username: String::from("admin"),
        password: b"wrong-password".to_vec(),
    };
    assert_eq!(
        validate_credentials(&store, &credentials, false),
        Err(AuthError::InvalidCredentials)
    );
}

#[test]
fn unknown_username_is_invalid_credentials() {
    let store = store_with_user("admin", b"everythinghastostartsomewhere");
    let credentials = Credentials {
        username: String::from("intruder"),
        password: b"everythinghastostartsomewhere".to_vec(),
    };
    assert_eq!(
        validate_credentials(&store, &credentials, false),
        Err(AuthError::InvalidCredentials)
    );
}

#[test]
fn malformed_stored_hash_is_an_unexpected_error() {
    let mut store = Store::new();
    store.users.push(UserRow {
        user_id: 7,
        username: String::from("admin"),
        password_hash: String::from("not-a-phc-string"),
    });
    let credentials = Credentials {
        username: String::from("admin"),
        password: b"anything".to_vec(),
    };
    assert_eq!(
        validate_credentials(&store, &credentials, false),
        Err(AuthError::UnexpectedError)
    );
}

#[test]
fn storage_fault_is_an_unexpected_error() {
    let store = store_with_user("admin", b"pw");
    let credentials = Credentials {
        username: String::from("admin"),
        password: b"pw".to_vec(),
    };
    assert_eq!(
        validate_credentials(&store, &credentials, true),
        Err(AuthError::UnexpectedError)
    );
}

#[test]
fn well_formed_basic_header_decodes() {
    let header = basic_header("admin", "pa:ss:word");
    let credentials = basic_authentication(Some(&header)).unwrap();
    assert_eq!(credentials.username, "admin");
    // Only the first ':' separates username from password.
    assert_eq!(credentials.password, b"pa:ss:word".to_vec());
}

#[test]
fn missing_header_is_rejected() {
    assert!(basic_authentication(None).is_none());
}

#[test]
fn non_basic_scheme_is_rejected() {
    let header = String::from("Bearer abcdef");
    assert!(basic_authentication(Some(&header)).is_none());
}

#[test]
fn invalid_base64_is_rejected() {
    let header = String::from("Basic !!!not-base64!!!");
    assert!(basic_authentication(Some(&header)).is_none());
}

#[test]
fn payload_without_colon_is_rejected() {
    let payload = base64::Engine::encode(
        &base64::engine::general_purpose::STANDARD,
        "no-colon-here",
    );
    let header = format!("Basic {}", payload);
    assert!(basic_authentication(Some(&header)).is_none());
}

#[test]
fn non_utf8_payload_is_rejected() {
    let payload = base64::Engine::encode(
        &base64::engine::general_purpose::STANDARD,
        [0xffu8, 0xfe, 0x3a, 0x41],
    );
    let header = format!("Basic {}", payload);
    assert!(basic_authentication(Some(&header)).is_none());
}
