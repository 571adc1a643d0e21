use vstd::prelude::*;

use crate::auth_parameters::AuthParameters;
use crate::auth_permissions::AuthPermissions;
use crate::auth_service::{jwt_claims_of, AuthService};
use crate::domain::new_uuid;
use crate::strutil::str_eq;
use crate::utils::clone_bytes;

verus! {

/// A geotagged pin with its contents.  Coordinates ride through the
/// library as the bit patterns of their floating-point values; the
/// library carries them and never interprets them.  Identifiers are the
/// 128-bit values of their UUIDs.
pub struct Pinpoint {
    pub pinpoint_id: u128,
    pub latitude_bits: u64,
    pub longitude_bits: u64,
    pub added_at: i64,
    pub contents_id: u128,
    pub description: String,
    pub attachment: Option<Vec<u8>>,
    pub user_id: Option<u128>,
    pub username: String,
}

/// The mathematical value of a `Pinpoint`.
pub struct PinpointView {
    pub pinpoint_id: u128,
    pub latitude_bits: u64,
    pub longitude_bits: u64,
    pub added_at: int,
    pub contents_id: u128,
    pub description: Seq<char>,
    pub attachment: Option<Seq<u8>>,
    pub user_id: Option<u128>,
    pub username: Seq<char>,
}

impl View for Pinpoint {
    type V = PinpointView;

    open spec fn view(&self) -> PinpointView {
        PinpointView {
            pinpoint_id: self.pinpoint_id,
            latitude_bits: self.latitude_bits,
            longitude_bits: self.longitude_bits,
            added_at: self.added_at as int,
            contents_id: self.contents_id,
            description: self.description@,
            attachment: match self.attachment {
                Some(a) => Some(a@),
                None => None,
            },
            user_id: self.user_id,
            username: self.username@,
        }
    }
}

/// A pin row as the storage collaborator hands it back, with the
/// nullable columns still optional.
pub struct DbPinpoint {
    pub pinpoint_id: u128,
    pub latitude_bits: Option<u64>,
    pub longitude_bits: Option<u64>,
    pub added_at: i64,
    pub contents_id: u128,
    pub description: Option<String>,
    pub attachment: Option<Vec<u8>>,
    pub user_id: u128,
    pub username: String,
}

/// How a stored row resolves to a pin: absent coordinates become zero,
/// an absent description becomes empty, and the owner is always known.
pub open spec fn pinpoint_of_db(row: DbPinpoint) -> PinpointView {
    PinpointView {
        pinpoint_id: row.pinpoint_id,
        latitude_bits: match row.latitude_bits {
            Some(b) => b,
            None => 0,
        },
        longitude_bits: match row.longitude_bits {
            Some(b) => b,
            None => 0,
        },
        added_at: row.added_at as int,
        contents_id: row.contents_id,
        description: match row.description {
            Some(d) => d@,
            None => Seq::empty(),
        },
        attachment: match row.attachment {
            Some(a) => Some(a@),
            None => None,
        },
        user_id: Some(row.user_id),
        username: row.username@,
    }
}

impl Pinpoint {
    pub fn new(
        pinpoint_id: u128,
        latitude_bits: u64,
        longitude_bits: u64,
        added_at: i64,
        contents_id: u128,
        description: String,
        attachment: Option<Vec<u8>>,
        user_id: Option<u128>,
        username: String,
    ) -> (r: Self)
        ensures
            r.pinpoint_id == pinpoint_id,
            r.latitude_bits == latitude_bits,
            r.longitude_bits == longitude_bits,
            r.added_at == added_at,
            r.contents_id == contents_id,
            r.description == description,
            r.attachment == attachment,
            r.user_id == user_id,
            r.username == username,
    {
        Self {
            pinpoint_id,
            latitude_bits,
            longitude_bits,
            added_at,
            contents_id,
            description,
            attachment,
            user_id,
            username,
        }
    }

    /// Resolves a stored row to a pin.
    pub fn from_db(row: &DbPinpoint) -> (r: Pinpoint)
        ensures
            r@ == pinpoint_of_db(*row),
    {
        Pinpoint {
            pinpoint_id: row.pinpoint_id,
            latitude_bits: match &row.latitude_bits {
                Some(b) => *b,
                None => 0,
            },
            longitude_bits: match &row.longitude_bits {
                Some(b) => *b,
                None => 0,
            },
            added_at: row.added_at,
            contents_id: row.contents_id,
            description: match &row.description {
                Some(d) => d.clone(),
                None => String::new(),
            },
            attachment: match &row.attachment {
                Some(a) => Some(clone_bytes(a)),
                None => None,
            },
            user_id: Some(row.user_id),
            username: row.username.clone(),
        }
    }

    /// Builds the pin a creation request describes: fresh identifiers for
    /// the pin and its contents, created at the given moment, with the
    /// owning user still to be resolved by the store.
    pub fn from_post_request(value: PostPinpointRequest, now: i64) -> (r: Pinpoint)
        ensures
            r.latitude_bits == value.latitude_bits,
            r.longitude_bits == value.longitude_bits,
            r.added_at == now,
            r.description == value.description,
            r.attachment == value.attachment,
            r.user_id is None,
            r.username == value.username,
    {
        Pinpoint {
            pinpoint_id: new_uuid(),
            latitude_bits: value.latitude_bits,
            longitude_bits: value.longitude_bits,
            added_at: now,
            contents_id: new_uuid(),
            description: value.description,
            attachment: value.attachment,
            user_id: None,
            username: value.username,
        }
    }
}

/// Which pins remain after an optional owner filter: exactly those whose
/// owner matches, in their original order; no filter keeps them all.
pub open spec fn filter_by_username(ps: Seq<PinpointView>, filter: Option<Seq<char>>) -> Seq<
    PinpointView,
>
    decreases ps.len(),
{
    if ps.len() == 0 {
        Seq::empty()
    } else {
        let rest = filter_by_username(ps.drop_last(), filter);
        let keep = match filter {
            Some(u) => ps.last().username == u,
            None => true,
        };
        if keep {
            rest + seq![ps.last()]
        } else {
            rest
        }
    }
}

/// Resolves the fetched rows to pins and keeps, when a username filter is
/// present, only the pins that user owns.
pub fn convert_and_filter_pinpoints(rows: &Vec<DbPinpoint>, user_filter: &Option<String>) -> (r:
    Vec<Pinpoint>)
    ensures
        r@.map_values(|p: Pinpoint| p@) == filter_by_username(
            rows@.map_values(|row: DbPinpoint| pinpoint_of_db(row)),
            match *user_filter {
                Some(u) => Some(u@),
                None => None,
            },
        ),
{
    let ghost m = rows@.map_values(|row: DbPinpoint| pinpoint_of_db(row));
    let ghost fv: Option<Seq<char>> = match user_filter {
        Some(u) => Some(u@),
        None => None,
    };
    let mut results: Vec<Pinpoint> = Vec::new();
    let n = rows.len();
    proof {
        assert(m.take(0) =~= Seq::<PinpointView>::empty());
        assert(results@.map_values(|p: Pinpoint| p@) =~= filter_by_username(m.take(0), fv));
    }
    let mut i: usize = 0;
    while i < n
        invariant
            i <= n,
            n == rows@.len(),
            m == rows@.map_values(|row: DbPinpoint| pinpoint_of_db(row)),
            fv == (match *user_filter {
                Some(u) => Some(u@),
                None => None,
            }),
            results@.map_values(|p: Pinpoint| p@) == filter_by_username(m.take(i as int), fv),
        decreases n - i,
    {
        let pinpoint = Pinpoint::from_db(&rows[i]);
        let keep = match user_filter {
            Some(u) => str_eq(pinpoint.username.as_str(), u.as_str()),
            None => true,
        };
        proof {
            assert(m.take(i + 1).drop_last() =~= m.take(i as int));
            assert(m.take(i + 1).last() == pinpoint_of_db(rows@[i as int]));
        }
        if keep {
            results.push(pinpoint);
        }
        proof {
            assert(results@.map_values(|p: Pinpoint| p@) =~= filter_by_username(
                m.take(i + 1),
                fv,
            ));
        }
        i += 1;
    }
    proof {
        assert(m.take(n as int) =~= m);
    }
    results
}

/// A pin creation request: everything the pin will hold, plus the name of
/// the owner the caller must prove to be.
pub struct PostPinpointRequest {
    pub latitude_bits: u64,
    pub longitude_bits: u64,
    pub description: String,
    pub attachment: Option<Vec<u8>>,
    pub username: String,
}

impl PostPinpointRequest {
    pub fn new(
        latitude_bits: u64,
        longitude_bits: u64,
        description: String,
        attachment: Option<Vec<u8>>,
        username: String,
    ) -> (r: Self)
        ensures
            r.latitude_bits == latitude_bits,
            r.longitude_bits == longitude_bits,
            r.description == description,
            r.attachment == attachment,
            r.username == username,
    {
        Self { latitude_bits, longitude_bits, description, attachment, username }
    }
}

/// A flat pin payload without attachment, as the simplest clients send it.
pub struct PinpointData {
    pub latitude_bits: u64,
    pub longitude_bits: u64,
    pub description: String,
    pub username: String,
}

impl PinpointData {
    pub fn new(latitude_bits: u64, longitude_bits: u64, description: String, username: String) -> (r:
        Self)
        ensures
            r.latitude_bits == latitude_bits,
            r.longitude_bits == longitude_bits,
            r.description == description,
            r.username == username,
    {
        Self { latitude_bits, longitude_bits, description, username }
    }
}

/// A bare username carried in a request body.
pub struct TempUsername {
    username: String,
}

impl TempUsername {
    pub closed spec fn spec_username(&self) -> Seq<char> {
        self.username@
    }

    pub fn new(username: String) -> (r: Self)
        ensures
            r.spec_username() == username@,
    {
        Self { username }
    }

    pub fn into_username(self) -> (r: String)
        ensures
            r@ == self.spec_username(),
    {
        self.username
    }
}

/// A pin query: an optional area of interest and an optional owner; the
/// coordinates ride through as bit patterns, read only by the store.
pub struct GetPinpointRequest {
    pub latitude_bits: Option<u64>,
    pub longitude_bits: Option<u64>,
    pub proximity_bits: Option<u64>,
    pub pinpoint_id: Option<u128>,
    pub username: Option<String>,
}

/// A pin deletion request: one pin by identifier, or — without one — all
/// pins of the named user.
pub struct DeletePinpointRequest {
    pub pinpoint_id: Option<u128>,
    pub username: Option<String>,
}

/// The response shape of a pin query; identifying fields are absent when
/// they were withheld from the requester.
pub struct GetPinpointResponse {
    pub latitude_bits: u64,
    pub longitude_bits: u64,
    pub description: String,
    pub added_at: i64,
    pub attachment: Vec<u8>,
    pub pinpoint_id: Option<u128>,
    pub pinpoint_user_id: Option<u128>,
    pub pinpoint_username: Option<String>,
}

/// The mathematical value of a `GetPinpointResponse`.
pub struct PinpointResponseView {
    pub latitude_bits: u64,
    pub longitude_bits: u64,
    pub description: Seq<char>,
    pub added_at: int,
    pub attachment: Seq<u8>,
    pub pinpoint_id: Option<u128>,
    pub pinpoint_user_id: Option<u128>,
    pub pinpoint_username: Option<Seq<char>>,
}

impl View for GetPinpointResponse {
    type V = PinpointResponseView;

    open spec fn view(&self) -> PinpointResponseView {
        PinpointResponseView {
            latitude_bits: self.latitude_bits,
            longitude_bits: self.longitude_bits,
            description: self.description@,
            added_at: self.added_at as int,
            attachment: self.attachment@,
            pinpoint_id: self.pinpoint_id,
            pinpoint_user_id: self.pinpoint_user_id,
            pinpoint_username: match self.pinpoint_username {
                Some(u) => Some(u@),
                None => None,
            },
        }
    }
}

/// How a pin is shaped into a query response at a given moment.
pub open spec fn response_of(p: PinpointView, now: int) -> PinpointResponseView {
    PinpointResponseView {
        latitude_bits: p.latitude_bits,
        longitude_bits: p.longitude_bits,
        description: p.description,
        added_at: now,
        attachment: match p.attachment {
            Some(a) => a,
            None => Seq::empty(),
        },
        pinpoint_id: Some(p.pinpoint_id),
        pinpoint_user_id: p.user_id,
        pinpoint_username: Some(p.username),
    }
}

/// A response record with its owner-identifying fields and attachment
/// cleared, for viewers other than the owner.
pub open spec fn censored_view(p: PinpointResponseView) -> PinpointResponseView {
    PinpointResponseView {
        attachment: Seq::empty(),
        pinpoint_id: None,
        pinpoint_user_id: None,
        pinpoint_username: None,
        ..p
    }
}

impl GetPinpointResponse {
    pub fn new(
        latitude_bits: u64,
        longitude_bits: u64,
        description: String,
        added_at: i64,
        attachment: Vec<u8>,
        pinpoint_id: Option<u128>,
        pinpoint_user_id: Option<u128>,
        pinpoint_username: Option<String>,
    ) -> (r: Self)
        ensures
            r.latitude_bits == latitude_bits,
            r.longitude_bits == longitude_bits,
            r.description == description,
            r.added_at == added_at,
            r.attachment == attachment,
            r.pinpoint_id == pinpoint_id,
            r.pinpoint_user_id == pinpoint_user_id,
            r.pinpoint_username == pinpoint_username,
    {
        Self {
            latitude_bits,
            longitude_bits,
            description,
            added_at,
            attachment,
            pinpoint_id,
            pinpoint_user_id,
            pinpoint_username,
        }
    }

    pub fn clone(&self) -> (r: Self)
        ensures
            r@ == self@,
    {
        Self {
            latitude_bits: self.latitude_bits,
            longitude_bits: self.longitude_bits,
            description: self.description.clone(),
            added_at: self.added_at,
            attachment: clone_bytes(&self.attachment),
            pinpoint_id: self.pinpoint_id,
            pinpoint_user_id: self.pinpoint_user_id,
            pinpoint_username: match &self.pinpoint_username {
                Some(u) => Some(u.clone()),
                None => None,
            },
        }
    }

    /// The redacted copy handed to viewers other than the owner: the
    /// identifying fields and the attachment are cleared, the rest kept.
    pub fn clone_as_censored(&self) -> (r: Self)
        ensures
            r@ == censored_view(self@),
    {
        Self {
            latitude_bits: self.latitude_bits,
            longitude_bits: self.longitude_bits,
            description: self.description.clone(),
            added_at: self.added_at,
            attachment: Vec::new(),
            pinpoint_id: None,
            pinpoint_user_id: None,
            pinpoint_username: None,
        }
    }

    /// Shapes a pin into a query response stamped with the given moment.
    pub fn from_pinpoint(p: &Pinpoint, now: i64) -> (r: Self)
        ensures
            r@ == response_of(p@, now as int),
    {
        Self {
            latitude_bits: p.latitude_bits,
            longitude_bits: p.longitude_bits,
            description: p.description.clone(),
            added_at: now,
            attachment: match &p.attachment {
                Some(a) => clone_bytes(a),
                None => Vec::new(),
            },
            pinpoint_id: Some(p.pinpoint_id),
            pinpoint_user_id: p.user_id,
            pinpoint_username: Some(p.username.clone()),
        }
    }
}

/// Shapes every fetched pin into a query response, all stamped with the
/// same moment.
pub fn convert_to_pinpoint_response(pinpoints: &Vec<Pinpoint>, now: i64) -> (r: Vec<
    GetPinpointResponse,
>)
    ensures
        r@.len() == pinpoints@.len(),
        forall|i: int|
            0 <= i < r@.len() ==> #[trigger] r@[i]@ == response_of(pinpoints@[i]@, now as int),
{
    let mut out: Vec<GetPinpointResponse> = Vec::new();
    let n = pinpoints.len();
    let mut i: usize = 0;
    while i < n
        invariant
            i <= n,
            n == pinpoints@.len(),
            out@.len() == i,
            forall|j: int|
                0 <= j < i ==> #[trigger] out@[j]@ == response_of(pinpoints@[j]@, now as int),
        decreases n - i,
    {
        out.push(GetPinpointResponse::from_pinpoint(&pinpoints[i], now));
        i += 1;
    }
    out
}

/// Which response records a viewer receives: records without an owner are
/// dropped, the viewer's own records pass intact, everyone else's pass
/// censored; the original order is kept.
pub open spec fn censor_seq(ps: Seq<PinpointResponseView>, me: Seq<char>) -> Seq<
    PinpointResponseView,
>
    decreases ps.len(),
{
    if ps.len() == 0 {
        Seq::empty()
    } else {
        let rest = censor_seq(ps.drop_last(), me);
        match ps.last().pinpoint_username {
            Some(u) => if u == me {
                rest + seq![ps.last()]
            } else {
                rest + seq![censored_view(ps.last())]
            },
            None => rest,
        }
    }
}

/// Redacts a fetched response list for the requesting user: their own
/// records stay intact, every other owner's record loses its identifying
/// fields and attachment, and ownerless records are dropped.  Reads
/// degrade to redaction; they are never rejected here.
pub fn censor_pinpoints_by_username(
    response_pinpoints: &Vec<GetPinpointResponse>,
    username: &str,
) -> (r: Vec<GetPinpointResponse>)
    ensures
        r@.map_values(|p: GetPinpointResponse| p@) == censor_seq(
            response_pinpoints@.map_values(|p: GetPinpointResponse| p@),
            username@,
        ),
{
    let ghost m = response_pinpoints@.map_values(|p: GetPinpointResponse| p@);
    let mut filtered: Vec<GetPinpointResponse> = Vec::new();
    let n = response_pinpoints.len();
    proof {
        assert(m.take(0) =~= Seq::<PinpointResponseView>::empty());
        assert(filtered@.map_values(|p: GetPinpointResponse| p@) =~= censor_seq(
            m.take(0),
            username@,
        ));
    }
    let mut i: usize = 0;
    while i < n
        invariant
            i <= n,
            n == response_pinpoints@.len(),
            m == response_pinpoints@.map_values(|p: GetPinpointResponse| p@),
            filtered@.map_values(|p: GetPinpointResponse| p@) == censor_seq(
                m.take(i as int),
                username@,
            ),
        decreases n - i,
    {
        let p = &response_pinpoints[i];
        proof {
            assert(m.take(i + 1).drop_last() =~= m.take(i as int));
            assert(m.take(i + 1).last() == response_pinpoints@[i as int]@);
        }
        match &p.pinpoint_username {
            Some(u) => {
                if str_eq(u.as_str(), username) {
                    filtered.push(p.clone());
                } else {
                    filtered.push(p.clone_as_censored());
                }
            },
            None => {},
        }
        proof {
            assert(filtered@.map_values(|q: GetPinpointResponse| q@) =~= censor_seq(
                m.take(i + 1),
                username@,
            ));
        }
        i += 1;
    }
    proof {
        assert(m.take(n as int) =~= m);
    }
    filtered
}

/// Law: read redaction — every record the censoring pass returns either
/// names the requesting user as its owner and is intact by construction,
/// or has been stripped of its attachment and every identifying field.
pub proof fn lemma_censor_redacts(ps: Seq<PinpointResponseView>, me: Seq<char>, i: int)
    requires
        0 <= i < censor_seq(ps, me).len(),
    ensures
        censor_seq(ps, me)[i].pinpoint_username == Some(me) || (censor_seq(ps, me)[i].attachment
            == Seq::<u8>::empty() && censor_seq(ps, me)[i].pinpoint_id is None && censor_seq(
            ps,
            me,
        )[i].pinpoint_user_id is None && censor_seq(ps, me)[i].pinpoint_username is None),
    decreases ps.len(),
{
    if ps.len() > 0 {
        let rest = censor_seq(ps.drop_last(), me);
        if i < rest.len() {
            lemma_censor_redacts(ps.drop_last(), me, i);
        }
    }
}

/// The authorization decision of the pin read route: the path's username
/// must equal the authenticated identity, or the request is rejected
/// before any storage access.
pub fn get_pinpoints_check(auth: &AuthPermissions, path_username: &str) -> (r: bool)
    ensures
        r == (auth.username@ == path_username@),
{
    str_eq(auth.username.as_str(), path_username)
}

/// What an authorized deletion request resolves to: one pin, or all of
/// the proven owner's pins.
#[derive(Debug)]
pub enum DeletePinpointPlan {
    AllForUser(String),
    ById(u128),
}

/// The decision of the pin deletion route: the request must name a
/// non-empty username (else 400), the bearer token must be accepted on
/// behalf of it (else 401), and only then is a deletion plan handed back
/// for the store to run.
pub fn delete_pinpoints_check(
    auth: &AuthService,
    auth_params: &AuthParameters,
    args: &DeletePinpointRequest,
) -> (r: Result<DeletePinpointPlan, u16>)
    ensures
        args.username is None ==> r == Err::<DeletePinpointPlan, u16>(400u16),
        args.username matches Some(u) ==> (u@.len() == 0 ==> r == Err::<DeletePinpointPlan, u16>(
            400u16,
        )),
        args.username matches Some(u) ==> (u@.len() > 0 ==> ({
            &&& (r matches Ok(plan) ==> (jwt_claims_of(auth_params.jwt@, auth.spec_key()) matches
                Some(c) && c.0 == u@ && (match args.pinpoint_id {
                Some(id) => plan == DeletePinpointPlan::ById(id),
                None => plan matches DeletePinpointPlan::AllForUser(x) && x@ == u@,
            })))
            &&& (jwt_claims_of(auth_params.jwt@, auth.spec_key()) is None ==> r == Err::<
                DeletePinpointPlan,
                u16,
            >(401u16))
            &&& (r is Err ==> r == Err::<DeletePinpointPlan, u16>(401u16))
        })),
{
    let username = match &args.username {
        Some(u) => u,
        None => {
            return Err(400);
        },
    };
    if username.unicode_len() == 0 {
        return Err(400);
    }
    match auth.validate_request_for_user(auth_params, username.clone()) {
        Ok(_) => {},
        Err(_) => {
            return Err(401);
        },
    }
    match &args.pinpoint_id {
        Some(id) => Ok(DeletePinpointPlan::ById(*id)),
        None => Ok(DeletePinpointPlan::AllForUser(username.clone())),
    }
}

} // verus!
