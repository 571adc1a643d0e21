use vstd::prelude::*;

use base64::Engine;

use crate::errors::{AuthError, SignUpError};
use crate::strutil::{has_prefix, str_has_prefix, find_char};

verus! {

/// What argon2's Argon2id KDF, at this crate's fixed parameters, returns
/// for a password and a B64 salt string: the self-describing PHC hash
/// string, or nothing when it rejects the input (bad salt, oversized
/// password).  The result depends on the two arguments alone.
pub uninterp spec fn argon2id_hash_of(password: Seq<char>, salt: Seq<char>) -> Option<Seq<char>>;

/// What parsing a stored PHC hash string and re-serializing it returns:
/// the canonical form of the hash, or nothing when the string is not
/// well-formed.  The result depends on the string alone.
pub uninterp spec fn phc_canon_of(stored: Seq<char>) -> Option<Seq<char>>;

/// What base64 standard-alphabet decoding returns for a string: the
/// decoded bytes, or nothing when the string is not valid base64.
pub uninterp spec fn b64_decode_of(encoded: Seq<char>) -> Option<Seq<u8>>;

/// A candidate password verifies against a stored hash string, for a given
/// salt, exactly when the stored string is well-formed and the KDF maps
/// the candidate and salt to its canonical form.
pub open spec fn password_matches(password: Seq<char>, salt: Seq<char>, stored: Seq<char>) -> bool {
    match phc_canon_of(stored) {
        Some(canon) => argon2id_hash_of(password, salt) == Some(canon),
        None => false,
    }
}

/// Transient credential material built from a request; consumed once by
/// validation and never persisted — only a hash of the password survives.
pub struct Credentials {
    pub username: String,
    pub pw: String,
    pub salt: Option<String>,
}

impl Credentials {
    pub fn clone(&self) -> (r: Self)
        ensures
            r.username@ == self.username@,
            r.pw@ == self.pw@,
            r.salt is Some <==> self.salt is Some,
            r.salt matches Some(s) ==> (self.salt matches Some(t) && s@ == t@),
    {
        Credentials {
            username: self.username.clone(),
            pw: self.pw.clone(),
            salt: match &self.salt {
                Some(s) => Some(s.clone()),
                None => None,
            },
        }
    }
}

/// The credential record a storage lookup hands back for a username: the
/// stored identifier, hash string and per-user salt.
pub struct StoredCredentials {
    pub user_id: u128,
    pub phash: String,
    pub salt: String,
}

/// Relies on argon2: `SaltString::from_b64` to validate the salt, and
/// `Argon2::hash_password` with algorithm Argon2id, version 0x13 and fixed
/// parameters m=15000, t=2, p=1.  The returned PHC string is a function of
/// the password and salt alone, and parsing it back and re-serializing it
/// reproduces it exactly, since `PasswordHash`'s parser and `Display`
/// invert each other on strings `Display` produced.
#[verifier::external_body]
fn argon2_hash(password: &str, salt: &str) -> (r: Result<String, ()>)
    ensures
        r matches Ok(h) ==> argon2id_hash_of(password@, salt@) == Some(h@) && phc_canon_of(h@)
            == Some(h@),
        r is Ok <==> argon2id_hash_of(password@, salt@) is Some,
{
    let salt = match argon2::password_hash::SaltString::from_b64(salt) {
        Ok(s) => s,
        Err(_) => return Err(()),
    };
    let params = argon2::Params::new(15000, 2, 1, None).map_err(|_| ())?;
    let hasher = argon2::Argon2::new(argon2::Algorithm::Argon2id, argon2::Version::V0x13, params);
    match argon2::PasswordHasher::hash_password(&hasher, password.as_bytes(), &salt) {
        Ok(h) => Ok(h.to_string()),
        Err(_) => Err(()),
    }
}

/// Relies on password-hash: `PasswordHash::new` parses exactly the
/// well-formed PHC strings, and `Display` re-serializes the parsed fields;
/// both are functions of the input string alone.
#[verifier::external_body]
fn phc_canonize(stored: &str) -> (r: Result<String, ()>)
    ensures
        r matches Ok(c) ==> phc_canon_of(stored@) == Some(c@),
        r is Ok <==> phc_canon_of(stored@) is Some,
{
    match argon2::password_hash::PasswordHash::new(stored) {
        Ok(h) => Ok(h.to_string()),
        Err(_) => Err(()),
    }
}

/// Relies on password-hash's `SaltString::generate` over `rand`'s thread
/// RNG: a fresh 16-byte random salt, B64-encoded as 22 characters.  Such a
/// salt decodes cleanly and lies within argon2's salt bounds, so hashing
/// with it succeeds for any password below the KDF's length limit.
#[verifier::external_body]
pub fn rand_salt_string() -> (r: String)
    ensures
        r@.len() == 22,
        forall|pw: Seq<char>| pw.len() <= 0x0fff_ffff ==> argon2id_hash_of(pw, r@) is Some,
{
    argon2::password_hash::SaltString::generate(&mut rand::thread_rng()).to_string()
}

/// Relies on base64's `STANDARD` engine `decode`: accepts exactly valid
/// standard-alphabet base64 and returns its bytes.
#[verifier::external_body]
fn b64_decode(encoded: &str) -> (r: Result<Vec<u8>, ()>)
    ensures
        r matches Ok(v) ==> b64_decode_of(encoded@) == Some(v@),
        r is Ok <==> b64_decode_of(encoded@) is Some,
{
    base64::engine::general_purpose::STANDARD.decode(encoded).map_err(|_| ())
}

/// Relies on std's `String::from_utf8`: accepts exactly valid UTF-8 and
/// decodes it to the characters it encodes.
#[verifier::external_body]
fn utf8_to_string(bytes: Vec<u8>) -> (r: Result<String, ()>)
    ensures
        r matches Ok(s) ==> s@ == vstd::utf8::decode_utf8(bytes@),
        r is Ok <==> vstd::utf8::valid_utf8(bytes@),
{
    String::from_utf8(bytes).map_err(|_| ())
}

/// Derives the stored form of a password: the Argon2id PHC hash string for
/// the given password and salt.  Fails only when the KDF rejects the
/// input, which is an infrastructure error, never an authentication
/// verdict.
pub fn compute_password_hash(password: &str, salt: &str) -> (r: Result<String, AuthError>)
    ensures
        r matches Ok(h) ==> argon2id_hash_of(password@, salt@) == Some(h@) && phc_canon_of(h@)
            == Some(h@),
        r is Ok <==> argon2id_hash_of(password@, salt@) is Some,
        r matches Err(e) ==> e is UnexpectedError,
{
    match argon2_hash(password, salt) {
        Ok(h) => Ok(h),
        Err(_) => Err(AuthError::UnexpectedError(String::from_str("Hashing failure"))),
    }
}

/// Re-derives a hash from the candidate password and the stored salt and
/// compares it with the canonical form of the stored hash string.  The KDF
/// always runs before the stored string is even parsed, so a malformed
/// stored hash costs the same wall-clock time as a mismatch.
pub fn verify_password_hash(
    expected_password_hash: &str,
    password_candidate: &str,
    salt_candidate: &str,
) -> (r: Result<(), AuthError>)
    ensures
        r is Ok <==> password_matches(
            password_candidate@,
            salt_candidate@,
            expected_password_hash@,
        ),
        r matches Err(e) ==> (e is UnexpectedError <==> argon2id_hash_of(
            password_candidate@,
            salt_candidate@,
        ) is None),
        r matches Err(e) ==> (e is UnexpectedError || e is InvalidCredentials),
{
    let hash_found = match compute_password_hash(password_candidate, salt_candidate) {
        Ok(h) => h,
        Err(e) => {
            return Err(e);
        },
    };
    let expected_canonical = match phc_canonize(expected_password_hash) {
        Ok(c) => c,
        Err(_) => {
            return Err(AuthError::InvalidCredentials(String::from_str("Invalid credentials")));
        },
    };
    if hash_found == expected_canonical {
        Ok(())
    } else {
        Err(AuthError::InvalidCredentials(String::from_str("Invalid credentials")))
    }
}

/// The stored hash string that the unknown-username path verifies against:
/// a fixed, well-formed Argon2id PHC string.
pub open spec fn placeholder_hash_view() -> Seq<char> {
    "$argon2id$v=19$m=15000,t=2,p=1$gZiV/M1gPc22ElAH/Jh1Hw$CWOrkoo7oJBQ/iyh7uJ0LO2aLEfrHwTWllSAxT0zRno"@
}

/// The salt the unknown-username path hashes with: a fixed, valid B64 salt
/// string.
pub open spec fn placeholder_salt_view() -> Seq<char> {
    "SaltySaltySaltySaltySalt"@
}

fn placeholder_hash() -> (r: &'static str)
    ensures
        r@ == placeholder_hash_view(),
{
    "$argon2id$v=19$m=15000,t=2,p=1$gZiV/M1gPc22ElAH/Jh1Hw$CWOrkoo7oJBQ/iyh7uJ0LO2aLEfrHwTWllSAxT0zRno"
}

fn placeholder_salt() -> (r: &'static str)
    ensures
        r@ == placeholder_salt_view(),
{
    "SaltySaltySaltySaltySalt"
}

/// The salt a lookup outcome makes the validator hash with.
pub open spec fn expected_salt_view(stored: Option<StoredCredentials>) -> Seq<char> {
    match stored {
        Some(s) => s.salt@,
        None => placeholder_salt_view(),
    }
}

/// Checks a candidate's password against the outcome of a storage lookup
/// for the candidate's username, and returns the stored identifier only on
/// a genuine match.  When the lookup found nothing, the same KDF still
/// runs, against fixed placeholder material, so an unknown username costs
/// the same time as a wrong password, and both come back as the single
/// `InvalidCredentials` category.  Storage and hashing failures come back
/// as `UnexpectedError`.
pub fn validate_credentials(credentials: &Credentials, stored: Option<StoredCredentials>) -> (r:
    Result<u128, AuthError>)
    ensures
        r matches Ok(user_id) ==> (stored matches Some(s) && user_id == s.user_id
            && password_matches(credentials.pw@, s.salt@, s.phash@)),
        stored matches Some(s) ==> (password_matches(credentials.pw@, s.salt@, s.phash@) ==> (r
            matches Ok(user_id) && user_id == s.user_id)),
        r matches Err(e) ==> (e is UnexpectedError <==> argon2id_hash_of(
            credentials.pw@,
            expected_salt_view(stored),
        ) is None),
        r matches Err(e) ==> (e is UnexpectedError || e is InvalidCredentials),
{
    let (user_id, expected_hash, expected_salt): (Option<u128>, String, String) = match stored {
        Some(s) => (Some(s.user_id), s.phash, s.salt),
        None => (None, String::from_str(placeholder_hash()), String::from_str(placeholder_salt())),
    };
    match verify_password_hash(expected_hash.as_str(), credentials.pw.as_str(), expected_salt.as_str()) {
        Ok(_) => {
            match user_id {
                Some(u) => Ok(u),
                None => Err(AuthError::InvalidCredentials(String::from_str("Unknown username."))),
            }
        },
        Err(e) => Err(e),
    }
}

/// Law: a hash freshly computed from a password and a salt verifies
/// against that same password and salt — the contract of the KDF wrapper
/// supplies both hypotheses for every hash it returns.
pub proof fn lemma_hash_verify_round_trip(pw: Seq<char>, salt: Seq<char>, h: Seq<char>)
    requires
        argon2id_hash_of(pw, salt) == Some(h),
        phc_canon_of(h) == Some(h),
    ensures
        password_matches(pw, salt, h),
{
}

/// Law: a candidate password whose digest differs from the one a stored
/// hash was computed from does not verify against that hash.  Candidates
/// whose digests collide under the KDF are outside the law's reach.
pub proof fn lemma_hash_rejects_other_password(
    p1: Seq<char>,
    p2: Seq<char>,
    salt: Seq<char>,
    h: Seq<char>,
)
    requires
        argon2id_hash_of(p1, salt) == Some(h),
        phc_canon_of(h) == Some(h),
        argon2id_hash_of(p2, salt) != argon2id_hash_of(p1, salt),
    ensures
        !password_matches(p2, salt, h),
{
}

/// How a present `Authorization` header value resolves to a username and
/// password: the `Basic ` scheme marker is required, the rest must decode
/// as base64 and then as UTF-8, and the result must carry a `:` with a
/// non-empty username before it.  The password is everything after the
/// first `:`.
pub open spec fn basic_credentials_of(h: Seq<char>) -> Option<(Seq<char>, Seq<char>)> {
    if !has_prefix(h, "Basic "@) {
        None
    } else {
        match b64_decode_of(h.skip("Basic "@.len() as int)) {
            Some(bytes) => if vstd::utf8::valid_utf8(bytes) {
                match split_first(vstd::utf8::decode_utf8(bytes), ':') {
                    Some((user, pw)) => if user.len() > 0 {
                        Some((user, pw))
                    } else {
                        None
                    },
                    None => None,
                }
            } else {
                None
            },
            None => None,
        }
    }
}

/// The parts of `s` before and after the first occurrence of `c`, if any.
pub open spec fn split_first(s: Seq<char>, c: char) -> Option<(Seq<char>, Seq<char>)>
    decreases s.len(),
{
    if s.len() == 0 {
        None
    } else if s[0] == c {
        Some((Seq::empty(), s.drop_first()))
    } else {
        match split_first(s.drop_first(), c) {
            Some((a, b)) => Some((seq![s[0]] + a, b)),
            None => None,
        }
    }
}

proof fn lemma_split_first_at(s: Seq<char>, c: char, i: int)
    requires
        0 <= i < s.len(),
        s[i] == c,
        forall|j: int| 0 <= j < i ==> s[j] != c,
    ensures
        split_first(s, c) == Some((s.subrange(0, i), s.subrange(i + 1, s.len() as int))),
    decreases i,
{
    if i == 0 {
        assert(s.subrange(0, 0) =~= Seq::<char>::empty());
        assert(s.drop_first() =~= s.subrange(1, s.len() as int));
    } else {
        lemma_split_first_at(s.drop_first(), c, i - 1);
        assert(seq![s[0]] + s.drop_first().subrange(0, i - 1) =~= s.subrange(0, i));
        assert(s.drop_first().subrange(i, s.drop_first().len() as int) =~= s.subrange(
            i + 1,
            s.len() as int,
        ));
    }
}

proof fn lemma_split_first_none(s: Seq<char>, c: char)
    requires
        forall|j: int| 0 <= j < s.len() ==> s[j] != c,
    ensures
        split_first(s, c) is None,
    decreases s.len(),
{
    if s.len() > 0 {
        lemma_split_first_none(s.drop_first(), c);
    }
}

/// Parses a `Basic` authentication header value into transient
/// credentials.  Rejects, always as a validation error, a missing header,
/// a missing `Basic ` scheme, bad base64, bytes that are not UTF-8, a
/// missing `:` delimiter and an empty username.
pub fn basic_authentication(header: Option<&str>) -> (r: Result<Credentials, SignUpError>)
    ensures
        r matches Ok(c) ==> (header matches Some(h) && basic_credentials_of(h@) == Some(
            (c.username@, c.pw@),
        ) && c.salt is None),
        r is Err <==> (header is None || (header matches Some(h) && basic_credentials_of(h@)
            is None)),
        r matches Err(e) ==> e is ValidationError,
{
    let h = match header {
        Some(h) => h,
        None => {
            return Err(
                SignUpError::ValidationError(
                    String::from_str("The 'Authorization' header was missing"),
                ),
            );
        },
    };
    if !str_has_prefix(h, "Basic ") {
        return Err(
            SignUpError::ValidationError(
                String::from_str("The authorization scheme was not 'Basic'."),
            ),
        );
    }
    proof {
        reveal_strlit("Basic ");
    }
    let encoded = h.substring_char(6, h.unicode_len());
    proof {
        assert(encoded@ =~= h@.skip("Basic "@.len() as int));
    }
    let decoded_bytes = match b64_decode(encoded) {
        Ok(v) => v,
        Err(_) => {
            return Err(
                SignUpError::ValidationError(
                    String::from_str("Failed to base64-decode 'Basic' credentials."),
                ),
            );
        },
    };
    let decoded = match utf8_to_string(decoded_bytes) {
        Ok(s) => s,
        Err(_) => {
            return Err(
                SignUpError::ValidationError(
                    String::from_str("The decoded credential string is not valid UTF8."),
                ),
            );
        },
    };
    let d = decoded.as_str();
    let n = d.unicode_len();
    match find_char(d, ':') {
        Some(i) => {
            proof {
                lemma_split_first_at(d@, ':', i as int);
            }
            if i == 0 {
                return Err(
                    SignUpError::ValidationError(
                        String::from_str("A username must be provided in 'Basic' auth."),
                    ),
                );
            }
            let username = String::from_str(d.substring_char(0, i));
            let pw = String::from_str(d.substring_char(i + 1, n));
            Ok(Credentials { username, pw, salt: None })
        },
        None => {
            proof {
                lemma_split_first_none(d@, ':');
            }
            Err(
                SignUpError::ValidationError(
                    String::from_str("A password must be provided in 'Basic' auth."),
                ),
            )
        },
    }
}

} // verus!
