use gvserver::auth_parameters::AuthParameters;
use gvserver::auth_service::AuthService;
use gvserver::errors::AuthError;

fn params(jwt: &str) -> AuthParameters {
    AuthParameters { jwt: String::from(jwt) }
}

#[test]
fn token_round_trip() {
    let service = AuthService::new(String::from("test-secret"));
    let token = service.create_jwt("alice");
    let permissions = service.validate_request(&params(token.as_str())).expect("validation failed");
    assert_eq!(permissions.username, "alice");
}

#[test]
fn token_round_trip_with_explicit_expiry() {
    let service = AuthService::new(String::from("test-secret"));
    let token = service.create_jwt_at("alice", 2_000_000_000);
    let permissions = service
        .validate_request_at(&params(token.as_str()), 1_999_999_999)
        .expect("validation failed");
    assert_eq!(permissions.username, "alice");
}

#[test]
fn token_has_three_segments() {
    let service = AuthService::new(String::from("test-secret"));
    let token = service.create_jwt("alice");
    assert_eq!(token.split('.').count(), 3);
}

#[test]
fn expired_token_rejected() {
    let service = AuthService::new(String::from("test-secret"));
    // Genuine signature, expiry in the past: rejected with the same
    // category as any other bad token.
    let token = service.create_jwt_at("alice", 1_000);
    let verdict = service.validate_request(&params(token.as_str()));
    assert!(matches!(verdict, Err(AuthError::InvalidToken(_))));
}

#[test]
fn token_rejected_exactly_at_expiry() {
    let service = AuthService::new(String::from("test-secret"));
    let token = service.create_jwt_at("alice", 5_000);
    assert!(service.validate_request_at(&params(token.as_str()), 4_999).is_ok());
    assert!(service.validate_request_at(&params(token.as_str()), 5_000).is_err());
    assert!(service.validate_request_at(&params(token.as_str()), 5_001).is_err());
}

#[test]
fn tampered_signature_rejected() {
    let service = AuthService::new(String::from("test-secret"));
    let token = service.create_jwt_at("alice", 2_000_000_000);
    let dot = token.rfind('.').expect("token has no signature segment");
    let signature_start = dot + 1;
    for i in signature_start..token.len() {
        let mut tampered: Vec<u8> = token.as_bytes().to_vec();
        tampered[i] = if tampered[i] == b'A' { b'B' } else { b'A' };
        let tampered = String::from_utf8(tampered).expect("tampering broke UTF-8");
        if tampered == token {
            continue;
        }
        let verdict = service.validate_request_at(&params(tampered.as_str()), 1_000);
        assert!(verdict.is_err(), "flipped signature byte {} was accepted", i);
    }
}

#[test]
fn wrong_key_rejected() {
    let service = AuthService::new(String::from("test-secret"));
    let other = AuthService::new(String::from("other-secret"));
    let token = service.create_jwt_at("alice", 2_000_000_000);
    assert!(other.validate_request_at(&params(token.as_str()), 1_000).is_err());
}

#[test]
fn garbage_tokens_rejected() {
    let service = AuthService::new(String::from("test-secret"));
    for bad in ["", "abc", "a.b.c", "not a token at all"] {
        let verdict = service.validate_request(&params(bad));
        assert!(matches!(verdict, Err(AuthError::InvalidToken(_))));
    }
}

#[test]
fn validate_for_user_enforces_identity() {
    let service = AuthService::new(String::from("test-secret"));
    let token = service.create_jwt_at("alice", 2_000_000_000);
    let accepted = service
        .validate_request_for_user_at(&params(token.as_str()), "alice", 1_000)
        .expect("owner was rejected");
    assert_eq!(accepted.username, "alice");
    let denied = service.validate_request_for_user_at(&params(token.as_str()), "bob", 1_000);
    assert!(matches!(denied, Err(AuthError::AuthorizationDenied(_))));
    let denied = service.validate_request_for_user(&params(token.as_str()), String::from("bob"));
    assert!(denied.is_err());
}

#[test]
fn issued_tokens_live_seven_days() {
    let service = AuthService::new(String::from("test-secret"));
    let before_issue = chrono::Utc::now().timestamp() as u64;
    let token = service.create_jwt("alice");
    let p = params(token.as_str());
    // Comfortably inside the window.
    assert!(service.validate_request_at(&p, before_issue).is_ok());
    assert!(service.validate_request_at(&p, before_issue + 604_000).is_ok());
    // Comfortably past it (with margin for the clock ticking between the
    // timestamp read and the issuance).
    assert!(service.validate_request_at(&p, before_issue + 604_800 + 120).is_err());
}

#[test]
fn distinct_users_get_distinct_tokens() {
    let service = AuthService::new(String::from("test-secret"));
    let alice = service.create_jwt_at("alice", 2_000_000_000);
    let bob = service.create_jwt_at("bob", 2_000_000_000);
    assert_ne!(alice, bob);
}
