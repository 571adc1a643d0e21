use gvserver::credentials::{
    compute_password_hash, rand_salt_string, validate_credentials, verify_password_hash,
    Credentials, StoredCredentials,
};
use gvserver::errors::AuthError;

#[test]
fn hash_round_trip() {
    let salt = rand_salt_string();
    let hash = compute_password_hash("Sup3rSecret!", salt.as_str()).expect("hashing failed");
    assert!(verify_password_hash(hash.as_str(), "Sup3rSecret!", salt.as_str()).is_ok());
}

#[test]
fn hash_rejects_wrong_password() {
    let salt = rand_salt_string();
    let hash = compute_password_hash("Sup3rSecret!", salt.as_str()).expect("hashing failed");
    let verdict = verify_password_hash(hash.as_str(), "Sup3rSecret?", salt.as_str());
    assert!(matches!(verdict, Err(AuthError::InvalidCredentials(_))));
}

#[test]
fn hash_output_is_self_describing() {
    let salt = rand_salt_string();
    let hash = compute_password_hash("pw", salt.as_str()).expect("hashing failed");
    assert!(hash.starts_with("$argon2id$v=19$m=15000,t=2,p=1$"));
    assert!(hash.contains(salt.as_str()));
    assert_ne!(hash, "pw");
}

#[test]
fn generated_salts_are_fresh_and_printable() {
    let a = rand_salt_string();
    let b = rand_salt_string();
    assert_eq!(a.chars().count(), 22);
    assert_eq!(b.chars().count(), 22);
    assert_ne!(a, b);
}

#[test]
fn verify_rejects_malformed_stored_hash() {
    let salt = rand_salt_string();
    let verdict = verify_password_hash("not-a-phc-string", "pw", salt.as_str());
    assert!(matches!(verdict, Err(AuthError::InvalidCredentials(_))));
}

#[test]
fn verify_reports_bad_salt_as_unexpected() {
    let salt = rand_salt_string();
    let hash = compute_password_hash("pw", salt.as_str()).expect("hashing failed");
    let verdict = verify_password_hash(hash.as_str(), "pw", "!!");
    assert!(matches!(verdict, Err(AuthError::UnexpectedError(_))));
}

fn stored_for(username_password: &str, user_id: u128) -> StoredCredentials {
    let salt = rand_salt_string();
    let phash = compute_password_hash(username_password, salt.as_str()).expect("hashing failed");
    StoredCredentials { user_id, phash, salt }
}

#[test]
fn validate_accepts_genuine_user() {
    let stored = stored_for("Sup3rSecret!", 7);
    let creds = Credentials {
        username: String::from("alice"),
        pw: String::from("Sup3rSecret!"),
        salt: None,
    };
    assert_eq!(validate_credentials(&creds, Some(stored)).expect("validation failed"), 7);
}

#[test]
fn validate_rejects_wrong_password() {
    let stored = stored_for("Sup3rSecret!", 7);
    let creds = Credentials {
        username: String::from("alice"),
        pw: String::from("Sup3rSecret!OopsExtra!"),
        salt: None,
    };
    let verdict = validate_credentials(&creds, Some(stored));
    assert!(matches!(verdict, Err(AuthError::InvalidCredentials(_))));
}

#[test]
fn validate_rejects_unknown_user_with_same_category() {
    // The unknown-username path and the wrong-password path must be
    // indistinguishable to the caller: one merged error category, and the
    // full KDF runs on both (the miss path hashes against placeholder
    // material rather than returning early).
    let creds = Credentials {
        username: String::from("nobody"),
        pw: String::from("whatever"),
        salt: None,
    };
    let miss = validate_credentials(&creds, None);
    assert!(matches!(miss, Err(AuthError::InvalidCredentials(_))));

    let stored = stored_for("Sup3rSecret!", 7);
    let wrong = validate_credentials(
        &Credentials {
            username: String::from("alice"),
            pw: String::from("wrong"),
            salt: None,
        },
        Some(stored),
    );
    assert!(matches!(wrong, Err(AuthError::InvalidCredentials(_))));
}

#[test]
fn validate_reports_broken_stored_salt_as_unexpected() {
    let stored = StoredCredentials {
        user_id: 9,
        phash: String::from("$argon2id$v=19$m=15000,t=2,p=1$aaaaaaaaaaaaaaaaaaaaaa$bbbb"),
        salt: String::from("!!"),
    };
    let creds = Credentials {
        username: String::from("alice"),
        pw: String::from("pw"),
        salt: None,
    };
    let verdict = validate_credentials(&creds, Some(stored));
    assert!(matches!(verdict, Err(AuthError::UnexpectedError(_))));
}
