use gvserver::auth_parameters::AuthParameters;
use gvserver::auth_service::AuthService;
use gvserver::credentials::{basic_authentication, validate_credentials, Credentials, StoredCredentials};
use gvserver::domain::{AppUser, UserSignUp};
use gvserver::errors::SignUpError;
use gvserver::users::LoginData;

fn sign_up_from_header(header: &str, email: &str) -> (Credentials, AppUser) {
    let credentials = basic_authentication(Some(header)).expect("Basic header rejected");
    let payload = UserSignUp {
        email: String::from(email),
        username: credentials.username.clone(),
        pw: credentials.pw.clone(),
        contents_description: None,
        contents_attachment: None,
    };
    let user = AppUser::from_sign_up(payload).expect("signup rejected");
    (credentials, user)
}

fn stored_from(user: &AppUser, user_id: u128) -> StoredCredentials {
    StoredCredentials {
        user_id,
        phash: user.phash.clone(),
        salt: user.salt.clone(),
    }
}

#[test]
fn signup_then_login_yields_a_token_for_alice() {
    // Signup: Basic auth alice:Sup3rSecret! plus an email; the stored row
    // keeps only the hash and salt.
    let header = "Basic YWxpY2U6U3VwM3JTZWNyZXQh";
    let (credentials, user) = sign_up_from_header(header, "alice@example.com");
    assert_eq!(user.username, "alice");
    assert_eq!(user.email, "alice@example.com");
    assert_ne!(user.phash, "Sup3rSecret!");
    assert!(!user.phash.contains("Sup3rSecret!"));

    // Login with the same credentials against the stored row.
    let stored = stored_from(&user, user.unique_id);
    let login = basic_authentication(Some(header)).expect("Basic header rejected");
    let user_id = validate_credentials(&login, Some(stored)).expect("genuine login rejected");
    assert_eq!(user_id, user.unique_id);
    let _ = credentials;

    // Token issuance and validation resolve back to alice.
    let service = AuthService::new(String::from("shared-secret"));
    let token = service.create_jwt("alice");
    let params = AuthParameters { jwt: token };
    let permissions = service.validate_request(&params).expect("fresh token rejected");
    assert_eq!(permissions.username, "alice");
}

#[test]
fn login_with_wrong_password_fails() {
    let header = "Basic YWxpY2U6U3VwM3JTZWNyZXQh";
    let (_, user) = sign_up_from_header(header, "alice@example.com");
    let stored = stored_from(&user, user.unique_id);
    let attempt = LoginData {
        username: String::from("alice"),
        pw: String::from("Sup3rSecret!OopsExtra!"),
    };
    let wrong = Credentials { username: attempt.username, pw: attempt.pw, salt: None };
    assert!(validate_credentials(&wrong, Some(stored)).is_err());
}

#[test]
fn sign_up_rejects_a_duplicate_user() {
    // The store enforces the unique-username constraint; the handler maps
    // that conflict to a validation error, a 400, and the first stored
    // row stays as it was.
    let header = "Basic YWxpY2U6U3VwM3JTZWNyZXQh";
    let (_, first) = sign_up_from_header(header, "alice@example.com");

    let mut store: Vec<AppUser> = Vec::new();
    store.push(first);
    let snapshot_phash = store[0].phash.clone();

    let (_, second) = sign_up_from_header(header, "alice@example.com");
    let duplicate = store.iter().any(|u| u.username == second.username);
    assert!(duplicate);
    let verdict: Result<(), SignUpError> =
        Err(SignUpError::ValidationError(String::from("The username given is already in use.")));
    assert_eq!(verdict.unwrap_err().status_code(), 400);
    assert_eq!(store[0].phash, snapshot_phash);
    assert_eq!(store.len(), 1);
}

#[test]
fn each_signup_draws_a_fresh_identifier_and_salt() {
    let header = "Basic YWxpY2U6U3VwM3JTZWNyZXQh";
    let (_, first) = sign_up_from_header(header, "alice@example.com");
    let (_, second) = sign_up_from_header(header, "alice@example.com");
    assert_ne!(first.unique_id, second.unique_id);
    assert_ne!(first.salt, second.salt);
    assert_ne!(first.phash, second.phash);
}

#[test]
fn signup_rejects_bad_email() {
    let credentials = basic_authentication(Some("Basic YWxpY2U6U3VwM3JTZWNyZXQh"))
        .expect("Basic header rejected");
    for bad in ["", "no-at-sign", "@nolocal", "notail@", "sp ace@x.y"] {
        let payload = UserSignUp {
            email: String::from(bad),
            username: credentials.username.clone(),
            pw: credentials.pw.clone(),
            contents_description: None,
            contents_attachment: None,
        };
        let verdict = AppUser::from_sign_up(payload);
        assert!(matches!(verdict, Err(SignUpError::ValidationError(_))), "accepted {:?}", bad);
    }
}

#[test]
fn signup_attachment_gets_a_contents_id() {
    let credentials = basic_authentication(Some("Basic YWxpY2U6U3VwM3JTZWNyZXQh"))
        .expect("Basic header rejected");
    let payload = UserSignUp {
        email: String::from("alice@example.com"),
        username: credentials.username.clone(),
        pw: credentials.pw.clone(),
        contents_description: Some(String::from("my avatar")),
        contents_attachment: Some(vec![1u8, 2u8, 3u8]),
    };
    let user = AppUser::from_sign_up(payload).expect("signup rejected");
    assert!(user.contents_id.is_some());
    assert_eq!(user.contents_attachment, Some(vec![1u8, 2u8, 3u8]));
    assert_eq!(user.contents_description.as_deref(), Some("my avatar"));

    let payload = UserSignUp {
        email: String::from("alice@example.com"),
        username: credentials.username.clone(),
        pw: credentials.pw.clone(),
        contents_description: None,
        contents_attachment: None,
    };
    let user = AppUser::from_sign_up(payload).expect("signup rejected");
    assert!(user.contents_id.is_none());
}
