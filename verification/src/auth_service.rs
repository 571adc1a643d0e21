use vstd::prelude::*;

use crate::auth_parameters::AuthParameters;
use crate::auth_permissions::{AuthPermissions, AuthPermissionsMode};
use crate::auth_token::Claims;
use crate::errors::AuthError;
use crate::strutil::str_eq;

verus! {

/// What jsonwebtoken's `encode` returns for the claim set `{sub, exp}`
/// signed HS256 with a secret: the compact token string, a function of the
/// three arguments alone.
pub uninterp spec fn jwt_token_of(sub: Seq<char>, exp: nat, key: Seq<char>) -> Seq<char>;

/// What jsonwebtoken's `decode` — verifying the HS256 signature against a
/// secret and applying no time-based validation — extracts from a token:
/// the subject and expiry claims, or nothing for a malformed token, a bad
/// signature, or claims without a string `sub` and integer `exp`.  A
/// function of token and secret alone.
pub uninterp spec fn jwt_claims_of(token: Seq<char>, key: Seq<char>) -> Option<(Seq<char>, nat)>;

/// The identity a token resolves to at a given moment: its subject claim,
/// when the signature verifies and the expiry is strictly in the future.
pub open spec fn token_identity(token: Seq<char>, key: Seq<char>, now: nat) -> Option<Seq<char>> {
    match jwt_claims_of(token, key) {
        Some(c) => if now < c.1 {
            Some(c.0)
        } else {
            None
        },
        None => None,
    }
}

/// A token is accepted on behalf of a claimed username at a given moment
/// exactly when it resolves to that same username.
pub open spec fn accepted_for_user(
    token: Seq<char>,
    key: Seq<char>,
    now: nat,
    claimed: Seq<char>,
) -> bool {
    token_identity(token, key, now) == Some(claimed)
}

/// Tokens expire this many seconds after issuance: seven days.
pub const TOKEN_VALIDITY_SECONDS: u64 = 604800;

/// Relies on jsonwebtoken's `encode` with `Header::default()` (HS256) and
/// `EncodingKey::from_secret`: the token is a function of subject, expiry
/// and secret alone; with an HMAC key and these claims no error path is
/// reachable, so a token is always produced; and `decode` with the same
/// secret accepts the product and hands the same claims back.
#[verifier::external_body]
fn jwt_encode(sub: &str, exp: u64, key: &str) -> (r: Result<String, ()>)
    ensures
        r is Ok,
        r matches Ok(t) ==> t@ == jwt_token_of(sub@, exp as nat, key@) && jwt_claims_of(t@, key@)
            == Some((sub@, exp as nat)),
{
    let mut claims = serde_json::Map::new();
    claims.insert(String::from("sub"), serde_json::Value::String(sub.to_string()));
    claims.insert(String::from("exp"), serde_json::Value::Number(serde_json::Number::from(exp)));
    jsonwebtoken::encode(
        &jsonwebtoken::Header::default(),
        &serde_json::Value::Object(claims),
        &jsonwebtoken::EncodingKey::from_secret(key.as_bytes()),
    ).map_err(|_| ())
}

/// Relies on jsonwebtoken's `decode`, verifying the HS256 signature with
/// `DecodingKey::from_secret` and nothing else — the expiry comparison
/// stands in verified code instead.  Acceptance and the claims handed
/// back are a function of token and secret alone.
#[verifier::external_body]
fn jwt_decode(token: &str, key: &str) -> (r: Result<Claims, ()>)
    ensures
        r matches Ok(c) ==> jwt_claims_of(token@, key@) == Some((c.sub@, c.exp as nat)),
        r is Err ==> jwt_claims_of(token@, key@) is None,
{
    let mut validation = jsonwebtoken::Validation::new(jsonwebtoken::Algorithm::HS256);
    validation.validate_exp = false;
    validation.required_spec_claims = std::collections::HashSet::new();
    let data = jsonwebtoken::decode::<serde_json::Value>(
        token,
        &jsonwebtoken::DecodingKey::from_secret(key.as_bytes()),
        &validation,
    ).map_err(|_| ())?;
    let sub = data.claims.get("sub").and_then(|v| v.as_str()).ok_or(())?.to_string();
    let exp = data.claims.get("exp").and_then(|v| v.as_u64()).ok_or(())?;
    Ok(Claims { sub, exp })
}

/// Relies on chrono's `Utc::now`: the current wall-clock time as seconds
/// since the Unix epoch.  Nothing is assumed of the value.
#[verifier::external_body]
fn now_unix() -> (r: i64) {
    chrono::Utc::now().timestamp()
}

/// Issues and validates bearer tokens.  Holds the shared signing secret,
/// handed in at construction — never a process-global — so every instance
/// can carry its own.
pub struct AuthService {
    jwt_key: String,
}

impl AuthService {
    /// The signing secret, for contracts only.
    pub closed spec fn spec_key(&self) -> Seq<char> {
        self.jwt_key@
    }

    pub fn new(jwt_key: String) -> (r: Self)
        ensures
            r.spec_key() == jwt_key@,
    {
        Self { jwt_key }
    }

    /// Builds and signs a token for `username` that expires at `exp`.
    pub fn create_jwt_at(&self, username: &str, exp: u64) -> (r: String)
        ensures
            r@ == jwt_token_of(username@, exp as nat, self.spec_key()),
            jwt_claims_of(r@, self.spec_key()) == Some((username@, exp as nat)),
    {
        match jwt_encode(username, exp, self.jwt_key.as_str()) {
            Ok(t) => t,
            Err(_) => {
                // Unreachable: signing with an HMAC secret cannot fail.
                proof {
                    assert(false);
                }
                String::new()
            },
        }
    }

    /// Issues a signed token for `username` expiring seven days from now.
    pub fn create_jwt(&self, username: &str) -> (r: String)
        ensures
            exists|exp: nat|
                r@ == jwt_token_of(username@, exp, self.spec_key()) && jwt_claims_of(
                    r@,
                    self.spec_key(),
                ) == Some((username@, exp)),
    {
        let now = now_unix();
        let now_clamped: u64 = if now < 0 {
            0
        } else {
            now as u64
        };
        let exp = now_clamped + TOKEN_VALIDITY_SECONDS;
        self.create_jwt_at(username, exp)
    }

    /// Validates the extracted bearer material against the signing secret
    /// at moment `now`.  On success the permissions carry the token's
    /// subject at the unprivileged level; a malformed token, a bad
    /// signature and an expiry at or before `now` all come back as the one
    /// `InvalidToken` category, so a probing client learns nothing about
    /// the cause.
    pub fn validate_request_at(&self, auth_params: &AuthParameters, now: u64) -> (r: Result<
        AuthPermissions,
        AuthError,
    >)
        ensures
            r is Ok <==> token_identity(auth_params.jwt@, self.spec_key(), now as nat) is Some,
            r matches Ok(p) ==> token_identity(auth_params.jwt@, self.spec_key(), now as nat)
                == Some(p.username@) && p.mode == AuthPermissionsMode::Unprivileged,
            r matches Err(e) ==> e is InvalidToken,
    {
        match jwt_decode(auth_params.jwt.as_str(), self.jwt_key.as_str()) {
            Ok(claims) => {
                if now < claims.exp {
                    Ok(AuthPermissions::new(AuthPermissionsMode::Unprivileged, claims.sub))
                } else {
                    Err(AuthError::InvalidToken(String::from_str("JWT parsing failure")))
                }
            },
            Err(_) => Err(AuthError::InvalidToken(String::from_str("JWT parsing failure"))),
        }
    }

    /// Validates the extracted bearer material at the current time.  The
    /// clock reading cannot be pinned, so the contract states the
    /// time-independent half: an accepted token carried the returned
    /// subject under a verified signature, and a token whose signature or
    /// shape is bad is rejected whatever the hour.
    pub fn validate_request(&self, auth_params: &AuthParameters) -> (r: Result<
        AuthPermissions,
        AuthError,
    >)
        ensures
            r matches Ok(p) ==> (jwt_claims_of(auth_params.jwt@, self.spec_key()) matches Some(c)
                && p.username@ == c.0 && p.mode == AuthPermissionsMode::Unprivileged),
            jwt_claims_of(auth_params.jwt@, self.spec_key()) is None ==> r is Err,
            r matches Err(e) ==> e is InvalidToken,
    {
        let now = now_unix();
        let now_clamped: u64 = if now < 0 {
            0
        } else {
            now as u64
        };
        self.validate_request_at(auth_params, now_clamped)
    }

    /// Validates at moment `now` and additionally requires the token's
    /// subject to be `username`.  A valid token for someone else is an
    /// authorization denial — distinct internally, same client-facing
    /// status as any other 401.
    pub fn validate_request_for_user_at(
        &self,
        auth_params: &AuthParameters,
        username: &str,
        now: u64,
    ) -> (r: Result<AuthPermissions, AuthError>)
        ensures
            r is Ok <==> accepted_for_user(
                auth_params.jwt@,
                self.spec_key(),
                now as nat,
                username@,
            ),
            r matches Ok(p) ==> p.username@ == username@ && p.mode
                == AuthPermissionsMode::Unprivileged,
            r matches Err(e) ==> (e is InvalidToken || e is AuthorizationDenied),
            r matches Err(e) ==> (e is AuthorizationDenied <==> (token_identity(
                auth_params.jwt@,
                self.spec_key(),
                now as nat,
            ) is Some && token_identity(auth_params.jwt@, self.spec_key(), now as nat) != Some(
                username@,
            ))),
    {
        let initial_validation = self.validate_request_at(auth_params, now)?;
        if str_eq(initial_validation.username.as_str(), username) {
            Ok(initial_validation)
        } else {
            Err(AuthError::AuthorizationDenied(String::from_str("Unauthorized action for user.")))
        }
    }

    /// Validates at the current time and requires the token's subject to
    /// be `username`; the time-independent half of the contract mirrors
    /// `validate_request`.
    pub fn validate_request_for_user(&self, auth_params: &AuthParameters, username: String) -> (r:
        Result<AuthPermissions, AuthError>)
        ensures
            r matches Ok(p) ==> (jwt_claims_of(auth_params.jwt@, self.spec_key()) matches Some(c)
                && c.0 == username@ && p.username@ == username@ && p.mode
                == AuthPermissionsMode::Unprivileged),
            jwt_claims_of(auth_params.jwt@, self.spec_key()) is None ==> r is Err,
            r matches Err(e) ==> (e is InvalidToken || e is AuthorizationDenied),
    {
        let now = now_unix();
        let now_clamped: u64 = if now < 0 {
            0
        } else {
            now as u64
        };
        self.validate_request_for_user_at(auth_params, username.as_str(), now_clamped)
    }
}

/// Law: token round trip — a token issued for a subject resolves back to
/// that subject at any moment strictly before its expiry.  The issuing
/// contract supplies the claims hypothesis for every token it returns.
pub proof fn lemma_token_round_trip(
    sub: Seq<char>,
    exp: nat,
    key: Seq<char>,
    token: Seq<char>,
    now: nat,
)
    requires
        jwt_claims_of(token, key) == Some((sub, exp)),
        now < exp,
    ensures
        token_identity(token, key, now) == Some(sub),
{
}

/// Law: token expiry — whatever its signature, a token whose expiry is at
/// or before the present moment resolves to no identity, and so is
/// rejected by validation.
pub proof fn lemma_expired_token_rejected(token: Seq<char>, key: Seq<char>, now: nat)
    requires
        match jwt_claims_of(token, key) {
            Some(c) => c.1 <= now,
            None => true,
        },
    ensures
        token_identity(token, key, now) is None,
{
}

/// Law: identity mismatch — a token that resolves to one username is
/// accepted on behalf of that username and of no other.
pub proof fn lemma_identity_mismatch_enforced(
    token: Seq<char>,
    key: Seq<char>,
    now: nat,
    owner: Seq<char>,
    other: Seq<char>,
)
    requires
        token_identity(token, key, now) == Some(owner),
        owner != other,
    ensures
        accepted_for_user(token, key, now, owner),
        !accepted_for_user(token, key, now, other),
{
}

} // verus!
