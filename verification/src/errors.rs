use vstd::prelude::*;

verus! {

/// Failure category for credential validation, token validation and
/// per-route authorization.  Unknown usernames and wrong passwords share
/// `InvalidCredentials`, and every way a token can be bad shares
/// `InvalidToken`, so that a client can never tell the causes apart.
#[derive(Debug)]
pub enum AuthError {
    InvalidCredentials(String),
    InvalidToken(String),
    AuthorizationDenied(String),
    UnexpectedError(String),
}

impl AuthError {
    /// The HTTP status that a handler reports for this error: 401 for
    /// everything a client did wrong, 500 for infrastructure failures.
    pub open spec fn spec_status_code(&self) -> u16 {
        match self {
            AuthError::InvalidCredentials(_) => 401,
            AuthError::InvalidToken(_) => 401,
            AuthError::AuthorizationDenied(_) => 401,
            AuthError::UnexpectedError(_) => 500,
        }
    }

    pub fn status_code(&self) -> (code: u16)
        ensures
            code == self.spec_status_code(),
    {
        match self {
            AuthError::InvalidCredentials(_) => 401,
            AuthError::InvalidToken(_) => 401,
            AuthError::AuthorizationDenied(_) => 401,
            AuthError::UnexpectedError(_) => 500,
        }
    }
}

/// Failure category for the signup flow: `ValidationError` covers every
/// malformed input (bad Basic header, invalid email, duplicate username)
/// and maps to 400; `UnexpectedError` covers storage and hashing
/// infrastructure failures and maps to 500.
#[derive(Debug)]
pub enum SignUpError {
    ValidationError(String),
    UnexpectedError(String),
}

impl SignUpError {
    pub open spec fn spec_status_code(&self) -> u16 {
        match self {
            SignUpError::ValidationError(_) => 400,
            SignUpError::UnexpectedError(_) => 500,
        }
    }

    pub fn status_code(&self) -> (code: u16)
        ensures
            code == self.spec_status_code(),
    {
        match self {
            SignUpError::ValidationError(_) => 400,
            SignUpError::UnexpectedError(_) => 500,
        }
    }
}

} // verus!
