use vstd::prelude::*;

use crate::credentials::{argon2id_hash_of, compute_password_hash, phc_canon_of, rand_salt_string};
use crate::errors::SignUpError;
use crate::strutil::is_space;

verus! {

/// The extra signup fields carried in the request body beside the Basic
/// credentials: just the email in the simplest revision.
pub struct SignUpData {
    pub email: String,
}

/// The combined signup payload: Basic credentials merged with the body.
pub struct UserSignUp {
    pub email: String,
    pub username: String,
    pub pw: String,
    pub contents_description: Option<String>,
    pub contents_attachment: Option<Vec<u8>>,
}

/// A well-formed signup email: non-empty, free of whitespace, with an
/// `@` that has characters on both sides.
pub open spec fn valid_email(s: Seq<char>) -> bool {
    &&& s.len() > 0
    &&& (forall|j: int| 0 <= j < s.len() ==> !is_space(s[j]))
    &&& exists|i: int| 0 < i < s.len() - 1 && s[i] == '@'
}

/// Whether a signup email is acceptable.
pub fn validate_email(email: &str) -> (r: bool)
    ensures
        r == valid_email(email@),
{
    let n = email.unicode_len();
    if n == 0 {
        return false;
    }
    let mut i: usize = 0;
    let mut found_at: bool = false;
    while i < n
        invariant
            i <= n,
            n == email@.len(),
            forall|j: int| 0 <= j < i ==> !is_space(email@[j]),
            found_at <==> exists|k: int| 0 < k < i && k < n - 1 && email@[k] == '@',
        decreases n - i,
    {
        let c = email.get_char(i);
        if c == ' ' || c == '\t' || c == '\r' || c == '\n' {
            return false;
        }
        if c == '@' && i > 0 && i + 1 < n {
            found_at = true;
        }
        i += 1;
    }
    found_at
}

/// Relies on uuid's `Uuid::new_v4`: a freshly drawn random identifier.
/// Nothing is assumed of the value.
#[verifier::external_body]
pub(crate) fn new_uuid() -> (r: u128) {
    uuid::Uuid::new_v4().as_u128()
}

/// The persistable account row built at signup: identifier, validated
/// email, username, hash string, the fresh salt it embeds, placeholder
/// role metadata, and the optional profile contents.
pub struct AppUser {
    pub unique_id: u128,
    pub email: String,
    pub username: String,
    pub phash: String,
    pub salt: String,
    pub role_id: i32,
    pub role_title: String,
    pub contents_id: Option<u128>,
    pub contents_description: Option<String>,
    pub contents_attachment: Option<Vec<u8>>,
}

impl AppUser {
    /// Builds the account row for a signup payload: validates the email,
    /// draws a fresh identifier and a fresh salt, and hashes the password
    /// with it.  Only the hash survives; the password itself is dropped
    /// here.  Every failure is a validation error.
    pub fn from_sign_up(value: UserSignUp) -> (r: Result<AppUser, SignUpError>)
        ensures
            r matches Ok(u) ==> ({
                &&& valid_email(value.email@)
                &&& u.email@ == value.email@
                &&& u.username@ == value.username@
                &&& argon2id_hash_of(value.pw@, u.salt@) == Some(u.phash@)
                &&& phc_canon_of(u.phash@) == Some(u.phash@)
                &&& u.salt@.len() == 22
                &&& (u.contents_id is Some <==> value.contents_attachment is Some)
                &&& u.contents_description == value.contents_description
                &&& u.contents_attachment == value.contents_attachment
                &&& u.role_id == -1
            }),
            r matches Err(e) ==> e is ValidationError,
            !valid_email(value.email@) ==> r is Err,
            valid_email(value.email@) && value.pw@.len() <= 0x0fff_ffff ==> r is Ok,
    {
        if !validate_email(value.email.as_str()) {
            return Err(SignUpError::ValidationError(String::from_str("Invalid email address.")));
        }
        let salt = rand_salt_string();
        let phash = match compute_password_hash(value.pw.as_str(), salt.as_str()) {
            Ok(h) => h,
            Err(_) => {
                return Err(SignUpError::ValidationError(String::from_str("Hashing failure")));
            },
        };
        let unique_id = new_uuid();
        let contents_id: Option<u128> = if value.contents_attachment.is_some() {
            Some(new_uuid())
        } else {
            None
        };
        Ok(
            AppUser {
                unique_id,
                email: value.email,
                username: value.username,
                phash,
                salt,
                role_id: -1,
                role_title: String::from_str("UNKNOWN"),
                contents_id,
                contents_description: value.contents_description,
                contents_attachment: value.contents_attachment,
            },
        )
    }
}

} // verus!
