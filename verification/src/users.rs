use vstd::prelude::*;
use vstd::std_specs::cmp::PartialEqSpec;

use crate::auth_permissions::{AuthPermissions, AuthPermissionsMode};
use crate::auth_parameters::AuthParameters;
use crate::auth_service::{jwt_claims_of, AuthService};
use crate::credentials::{argon2id_hash_of, compute_password_hash, phc_canon_of, rand_salt_string};
use crate::errors::AuthError;
use crate::strutil::str_eq;
use crate::utils::{clone_bytes, options_eq};

verus! {

/// The login request body: a username and the password to check.
pub struct LoginData {
    pub username: String,
    pub pw: String,
}

/// The signup request body carried beside the Basic credentials.
pub struct PostUserRequest {
    pub email: String,
    pub contents_description: Option<String>,
    pub contents_attachment: Option<Vec<u8>>,
}

/// A stored account row as the storage collaborator hands it back.
pub struct DbUser {
    pub unique_id: u128,
    pub email: String,
    pub username: String,
    pub phash: String,
    pub salt: String,
    pub role_id: i32,
    pub role_title: String,
    pub contents_id: Option<u128>,
    pub contents_description: Option<String>,
    pub contents_attachment: Option<Vec<u8>>,
}

/// A users query: exactly one of email or username must be present.
pub struct GetUsersRequest {
    pub email: Option<String>,
    pub username: Option<String>,
    pub user_id: Option<u128>,
}

/// The response shape of a users query; absent fields were withheld from
/// the requester.
pub struct UserResponse {
    pub unique_id: Option<u128>,
    pub email: Option<String>,
    pub username: Option<String>,
    pub role_id: Option<i32>,
    pub role_title: Option<String>,
    pub contents_id: Option<u128>,
    pub contents_description: Option<String>,
    pub contents_attachment: Option<Vec<u8>>,
}

/// A profile modification request; absent fields keep their stored
/// values.
pub struct PutUserRequest {
    pub username: Option<String>,
    pub email: Option<String>,
    pub password: Option<String>,
    pub contents_description: Option<String>,
    pub contents_attachment: Option<Vec<u8>>,
}

impl PutUserRequest {
    /// A request that names no field at all changes nothing and is
    /// rejected before any storage work.
    pub open spec fn spec_is_empty(&self) -> bool {
        &&& self.username is None
        &&& self.email is None
        &&& self.password is None
        &&& self.contents_description is None
        &&& self.contents_attachment is None
    }

    pub fn is_empty(&self) -> (r: bool)
        ensures
            r == self.spec_is_empty(),
    {
        self.username.is_none() && self.email.is_none() && self.password.is_none()
            && self.contents_description.is_none() && self.contents_attachment.is_none()
    }
}

/// Which single column a users query filters by.
pub enum UserFilter {
    Unfiltered,
    ByUsername(String),
    ByEmail(String),
    ByUuid(u128),
}

/// The first stage of a users query: rejects a query that names both or
/// neither of email and username, picks the lookup filter, and decides
/// whether the caller proved ownership of the queried username.
pub fn select_user_filter(args: &GetUsersRequest, auth: &Option<AuthPermissions>) -> (r: Result<
    (UserFilter, bool),
    (),
>)
    ensures
        r is Err <==> (args.email is None <==> args.username is None),
        r matches Ok(fr) ==> (args.username matches Some(u) ==> (fr.0 matches
            UserFilter::ByUsername(x) && x@ == u@ && (fr.1 <==> (auth matches Some(a)
            && a.username@ == u@)))),
        args.username is None ==> (args.email matches Some(em) ==> (r matches Ok(fr) ==> (fr.0
            matches UserFilter::ByEmail(x) && x@ == em@ && fr.1 == false))),
{
    if args.email.is_none() == args.username.is_none() {
        return Err(());
    }
    match &args.username {
        Some(u) => {
            let extra_rights = match auth {
                Some(a) => str_eq(a.username.as_str(), u.as_str()),
                None => false,
            };
            Ok((UserFilter::ByUsername(u.clone()), extra_rights))
        },
        None => {
            match &args.email {
                Some(em) => Ok((UserFilter::ByEmail(em.clone()), false)),
                None => {
                    proof {
                        assert(false);
                    }
                    Err(())
                },
            }
        },
    }
}

/// Everything the store holds about the account, shown only to its owner.
pub open spec fn full_user_response(user: DbUser) -> UserResponse {
    UserResponse {
        unique_id: Some(user.unique_id),
        email: Some(user.email),
        username: Some(user.username),
        role_id: Some(user.role_id),
        role_title: Some(user.role_title),
        contents_id: user.contents_id,
        contents_description: user.contents_description,
        contents_attachment: user.contents_attachment,
    }
}

/// The redacted shape for everyone else: a by-email query reveals only
/// the email, any other query only the username.
pub open spec fn restricted_user_response(user: DbUser, filter: UserFilter) -> UserResponse {
    match filter {
        UserFilter::ByEmail(_) => UserResponse {
            unique_id: None,
            email: Some(user.email),
            username: None,
            role_id: None,
            role_title: None,
            contents_id: None,
            contents_description: None,
            contents_attachment: None,
        },
        _ => UserResponse {
            unique_id: None,
            email: None,
            username: Some(user.username),
            role_id: None,
            role_title: None,
            contents_id: None,
            contents_description: None,
            contents_attachment: None,
        },
    }
}

/// The second stage of a users query: shapes the fetched row into the
/// response — full for the proven owner, redacted for everyone else.
pub fn build_user_response(user: DbUser, extra_rights: bool, filter: &UserFilter) -> (r: Result<
    UserResponse,
    (),
>)
    ensures
        r is Err <==> (!extra_rights && filter is Unfiltered),
        extra_rights ==> r == Ok::<UserResponse, ()>(full_user_response(user)),
        !extra_rights && !(filter is Unfiltered) ==> r == Ok::<UserResponse, ()>(
            restricted_user_response(user, *filter),
        ),
{
    if extra_rights {
        return Ok(
            UserResponse {
                unique_id: Some(user.unique_id),
                email: Some(user.email),
                username: Some(user.username),
                role_id: Some(user.role_id),
                role_title: Some(user.role_title),
                contents_id: user.contents_id,
                contents_description: user.contents_description,
                contents_attachment: user.contents_attachment,
            },
        );
    }
    match filter {
        UserFilter::Unfiltered => Err(()),
        UserFilter::ByEmail(_) => Ok(
            UserResponse {
                unique_id: None,
                email: Some(user.email),
                username: None,
                role_id: None,
                role_title: None,
                contents_id: None,
                contents_description: None,
                contents_attachment: None,
            },
        ),
        _ => Ok(
            UserResponse {
                unique_id: None,
                email: None,
                username: Some(user.username),
                role_id: None,
                role_title: None,
                contents_id: None,
                contents_description: None,
                contents_attachment: None,
            },
        ),
    }
}

/// Contents of two optional strings are the same.
pub open spec fn opt_string_view_eq(a: Option<String>, b: Option<String>) -> bool {
    match (a, b) {
        (Some(x), Some(y)) => x@ == y@,
        (None, None) => true,
        _ => false,
    }
}

/// Contents of two optional byte vectors are the same.
pub open spec fn opt_bytes_view_eq(a: Option<Vec<u8>>, b: Option<Vec<u8>>) -> bool {
    match (a, b) {
        (Some(x), Some(y)) => x@ == y@,
        (None, None) => true,
        _ => false,
    }
}

fn opt_string_eq(a: &Option<String>, b: &Option<String>) -> (r: bool)
    ensures
        r == opt_string_view_eq(*a, *b),
{
    match (a, b) {
        (Some(x), Some(y)) => *x == *y,
        (None, None) => true,
        _ => false,
    }
}

/// Whether a modification request actually changes the stored contents: a
/// present contents field that differs from the stored one.  A blank
/// field in the request erases the stored value; an absent one leaves it
/// alone.
pub fn should_modify_contents(existing: &DbUser, args: &PutUserRequest) -> (r: bool)
    ensures
        r == ((args.contents_attachment is Some && !opt_bytes_view_eq(
            existing.contents_attachment,
            args.contents_attachment,
        )) || (args.contents_description is Some && !opt_string_view_eq(
            existing.contents_description,
            args.contents_description,
        ))),
{
    let attachment_differs = args.contents_attachment.is_some() && !options_eq(
        &existing.contents_attachment,
        &args.contents_attachment,
    );
    proof {
        assert(<Vec<u8> as PartialEqSpec<Vec<u8>>>::obeys_eq_spec());
        match (&existing.contents_attachment, &args.contents_attachment) {
            (Some(x), Some(y)) => {
                if x.eq_spec(y) {
                    assert(forall|i: int| 0 <= i < x.len() ==> x[i] == y[i]);
                    assert(x@ =~= y@);
                }
                if x@ == y@ {
                    assert(forall|i: int| 0 <= i < x.len() ==> x[i].eq_spec(&y[i]));
                }
            },
            _ => {},
        }
    }
    let description_differs = args.contents_description.is_some() && !opt_string_eq(
        &existing.contents_description,
        &args.contents_description,
    );
    attachment_differs || description_differs
}

impl DbUser {
    /// Applies a modification request to a stored row: absent fields keep
    /// their stored values, and a new password gets a fresh salt and a
    /// fresh hash embedded in the row.
    pub fn apply_changes(self, args: &PutUserRequest) -> (r: Result<DbUser, AuthError>)
        ensures
            r matches Ok(u) ==> ({
                &&& u.unique_id == self.unique_id
                &&& u.role_id == self.role_id
                &&& u.role_title == self.role_title
                &&& u.contents_id == self.contents_id
                &&& (match args.username {
                    Some(x) => u.username@ == x@,
                    None => u.username == self.username,
                })
                &&& (match args.email {
                    Some(x) => u.email@ == x@,
                    None => u.email == self.email,
                })
                &&& (match args.password {
                    Some(p) => argon2id_hash_of(p@, u.salt@) == Some(u.phash@) && phc_canon_of(
                        u.phash@,
                    ) == Some(u.phash@) && u.salt@.len() == 22,
                    None => u.phash == self.phash && u.salt == self.salt,
                })
                &&& (match args.contents_description {
                    Some(x) => u.contents_description matches Some(y) && y@ == x@,
                    None => u.contents_description == self.contents_description,
                })
                &&& (match args.contents_attachment {
                    Some(x) => u.contents_attachment matches Some(y) && y@ == x@,
                    None => u.contents_attachment == self.contents_attachment,
                })
            }),
            r matches Err(e) ==> (e is UnexpectedError && args.password is Some),
            args.password is None ==> r is Ok,
            args.password matches Some(p) && p@.len() <= 0x0fff_ffff ==> r is Ok,
    {
        let mut result = self;
        match &args.username {
            Some(x) => {
                result.username = x.clone();
            },
            None => {},
        }
        match &args.email {
            Some(x) => {
                result.email = x.clone();
            },
            None => {},
        }
        match &args.password {
            Some(x) => {
                let salt = rand_salt_string();
                let phash = match compute_password_hash(x.as_str(), salt.as_str()) {
                    Ok(h) => h,
                    Err(e) => {
                        return Err(e);
                    },
                };
                result.salt = salt;
                result.phash = phash;
            },
            None => {},
        }
        match &args.contents_description {
            Some(x) => {
                result.contents_description = Some(x.clone());
            },
            None => {},
        }
        match &args.contents_attachment {
            Some(x) => {
                result.contents_attachment = Some(clone_bytes(x));
            },
            None => {},
        }
        Ok(result)
    }
}

/// The authorization decision of the delete-account route: the target
/// username must be non-empty (else 400) and must equal the authenticated
/// identity (else 401); the stored row is touched only on `Ok`.
pub fn delete_user_check(auth: &AuthPermissions, username: &str) -> (r: Result<(), u16>)
    ensures
        username@.len() == 0 ==> r == Err::<(), u16>(400u16),
        username@.len() > 0 && auth.username@ != username@ ==> r == Err::<(), u16>(401u16),
        username@.len() > 0 && auth.username@ == username@ ==> r is Ok,
{
    if username.unicode_len() == 0 {
        return Err(400);
    }
    if !str_eq(auth.username.as_str(), username) {
        return Err(401);
    }
    Ok(())
}

/// The authorization decision of the modify-account route: the
/// authenticated identity must own the addressed row (else 401), and the
/// request must name at least one change (else 400).
pub fn put_user_check(auth: &AuthPermissions, owner_username: &str, args: &PutUserRequest) -> (r:
    Result<(), u16>)
    ensures
        auth.username@ != owner_username@ ==> r == Err::<(), u16>(401u16),
        auth.username@ == owner_username@ && args.spec_is_empty() ==> r == Err::<(), u16>(400u16),
        auth.username@ == owner_username@ && !args.spec_is_empty() ==> r is Ok,
{
    if !str_eq(auth.username.as_str(), owner_username) {
        return Err(401);
    }
    if args.is_empty() {
        return Err(400);
    }
    Ok(())
}

/// How the users query derives optional owner permissions: only when the
/// query names a username, bearer material is present, and the token is
/// accepted on behalf of that username.
pub fn derive_get_users_permissions(
    auth: &AuthService,
    username: &Option<String>,
    auth_params: &Option<AuthParameters>,
) -> (r: Option<AuthPermissions>)
    ensures
        r is Some ==> (username is Some && auth_params is Some),
        r matches Some(p) ==> p.mode == AuthPermissionsMode::Unprivileged,
        username matches Some(u) ==> (r matches Some(p) ==> (p.username@ == u@ && (auth_params
            matches Some(ap) ==> (jwt_claims_of(ap.jwt@, auth.spec_key()) matches Some(c) && c.0
            == u@)))),
{
    match (username, auth_params) {
        (Some(u), Some(ap)) => match auth.validate_request_for_user(ap, u.clone()) {
            Ok(p) => Some(p),
            Err(_) => None,
        },
        _ => None,
    }
}

} // verus!
