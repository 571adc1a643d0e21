use vstd::prelude::*;

verus! {

/// The externally visible base URL the application was configured with;
/// handed to handlers that build absolute links.
pub struct ApplicationBaseUrl(pub String);

} // verus!
