use vstd::prelude::*;

use crate::strutil::{has_prefix, str_has_prefix, trim_str, trimmed};

verus! {

/// The raw bearer material taken from a request's `Authorization` header.
/// Extraction never fails: a missing header yields an empty token, and any
/// invalidity is left for token validation to find.
pub struct AuthParameters {
    pub jwt: String,
}

/// What extraction leaves of a present header value: the optional `Bearer`
/// scheme keyword is stripped from the front, and surrounding whitespace
/// is removed from what remains.
pub open spec fn extracted_token(h: Seq<char>) -> Seq<char> {
    if has_prefix(h, "Bearer"@) {
        trimmed(h.skip("Bearer"@.len() as int))
    } else {
        trimmed(h)
    }
}

impl AuthParameters {
    /// Parses the `Authorization` header value of a request, when one was
    /// present, into the bearer material for token validation.
    pub fn attempt_from_request(header: Option<&str>) -> (r: AuthParameters)
        ensures
            r.jwt@ == match header {
                Some(h) => extracted_token(h@),
                None => Seq::<char>::empty(),
            },
    {
        match header {
            Some(h) => {
                if str_has_prefix(h, "Bearer") {
                    proof {
                        reveal_strlit("Bearer");
                    }
                    let rest = h.substring_char(6, h.unicode_len());
                    proof {
                        assert(rest@ =~= h@.skip("Bearer"@.len() as int));
                    }
                    AuthParameters { jwt: trim_str(rest) }
                } else {
                    AuthParameters { jwt: trim_str(h) }
                }
            },
            None => AuthParameters { jwt: String::new() },
        }
    }
}

} // verus!
