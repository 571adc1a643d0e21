use vstd::prelude::*;

verus! {

/// The claim set carried inside a bearer token: the username it was issued
/// to and its expiry as seconds since the Unix epoch.  The token's
/// signature protects both from tampering.
pub struct Claims {
    pub sub: String,
    pub exp: u64,
}

} // verus!
