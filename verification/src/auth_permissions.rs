use vstd::prelude::*;

verus! {

/// Coarse access level attached to a request after token validation.
/// Validation always hands out `Unprivileged`; the richer levels are
/// scaffolding for a future role model, and no check reads them yet —
/// authorization is identity-equality alone.
#[derive(Clone, Copy, PartialEq, Eq, Structural)]
pub enum AuthPermissionsMode {
    Unprivileged,
    Restrict,
    Allow,
    Max,
}

/// The permissions object derived from a validated token and attached to
/// the request scope: who the caller is, and at what access level.
pub struct AuthPermissions {
    pub mode: AuthPermissionsMode,
    pub username: String,
}

impl AuthPermissions {
    pub fn new(mode: AuthPermissionsMode, username: String) -> (r: Self)
        ensures
            r.mode == mode,
            r.username == username,
    {
        Self { mode, username }
    }
}

} // verus!
