//! Sign-up and sign-in checks: the four roles, the checks on a registration,
//! the role and name checks that guard every write, and how a request's
//! credentials are read from its `Authorization` and `Cookie` headers.
use vstd::prelude::*;
use std::time::{SystemTime, SystemTimeError, Duration, UNIX_EPOCH};
use crate::text::{chars_of, string_of, same_text, is_blank, is_blank_text, concat2, concat3,
    append_chars, trimmed, trim, split_chars, split_on, strip_prefix, has_prefix, without_prefix};
use crate::rejection::{Rejection, empty_field, empty_field_message, UNPROCESSABLE_ENTITY, FORBIDDEN};
use crate::ids::{make_id, id_of, texts_of};

verus! {

broadcast use vstd::string::group_string_axioms;

/// The roles a user can register with.
pub const ROLES: [&'static str; 4] = ["seller", "buyer", "job_seeker", "recruiter"];

/// Whether a text names one of the four roles.
pub open spec fn is_role(r: Seq<char>) -> bool {
    ||| r == "seller"@
    ||| r == "buyer"@
    ||| r == "job_seeker"@
    ||| r == "recruiter"@
}

pub fn is_known_role(role: &str) -> (r: bool)
    ensures
        r == is_role(role@),
{
    same_text(role, "seller") || same_text(role, "buyer") || same_text(role, "job_seeker")
        || same_text(role, "recruiter")
}

/// The message for a role that is not one of the four.
pub open spec fn unknown_role_message(role: Seq<char>) -> Seq<char> {
    "unknown role: \""@ + role + "\" (expected one of [\"seller\", \"buyer\", \"job_seeker\", \"recruiter\"])"@
}

/// 422: the role is not one of the four.
pub fn unknown_role(role: &str) -> (r: Rejection)
    ensures
        r.status == UNPROCESSABLE_ENTITY,
        r.message@ == unknown_role_message(role@),
{
    Rejection {
        status: UNPROCESSABLE_ENTITY,
        message: concat3(
            "unknown role: \"",
            role,
            "\" (expected one of [\"seller\", \"buyer\", \"job_seeker\", \"recruiter\"])",
        ),
    }
}

/// A registration: a display name and one of the four roles.
#[derive(Debug, Clone)]
pub struct RegisterRequest {
    pub name: String,
    pub role: String,
}

/// `None` where the registration is acceptable: the name is not blank and
/// the role is one of the four; else the first failing check's refusal.
pub fn validate_register(body: &RegisterRequest) -> (r: Option<Rejection>)
    ensures
        r is None <==> !is_blank_text(body.name@) && is_role(body.role@),
        is_blank_text(body.name@) ==> (r matches Some(x) && x.status == UNPROCESSABLE_ENTITY
            && x.message@ == empty_field_message("name"@)),
        !is_blank_text(body.name@) && !is_role(body.role@) ==> (r matches Some(x) && x.status
            == UNPROCESSABLE_ENTITY && x.message@ == unknown_role_message(body.role@)),
{
    if is_blank(body.name.as_str()) {
        return Some(empty_field("name"));
    }
    if !is_known_role(body.role.as_str()) {
        return Some(unknown_role(body.role.as_str()));
    }
    None
}

/// The id of a new user: from the name and the role, fallback prefix `user`.
pub fn registration_id(body: &RegisterRequest) -> (id: String)
    ensures
        id@ == id_of(seq![body.name@, body.role@], "user"@),
{
    let parts: [&str; 2] = [body.name.as_str(), body.role.as_str()];
    let ghost texts = texts_of(parts@);
    assert(texts =~= seq![body.name@, body.role@]);
    make_id(&parts, "user")
}

/// The signed-in user of a request.
#[derive(Debug, Clone)]
pub struct AuthUser {
    pub name: String,
    pub role: String,
}

pub open spec fn role_mismatch_message(required: Seq<char>, actual: Seq<char>) -> Seq<char> {
    "this action requires role \""@ + required + "\", but the authenticated user has role \""@
        + actual + "\""@
}

/// `None` where the user has the role; else 403.
pub fn require_role(user: &AuthUser, role: &str) -> (r: Option<Rejection>)
    ensures
        r is None <==> user.role@ == role@,
        r matches Some(x) ==> x.status == FORBIDDEN && x.message@ == role_mismatch_message(
            role@,
            user.role@,
        ),
{
    if same_text(user.role.as_str(), role) {
        None
    } else {
        let mut message = concat3("this action requires role \"", role, "\", but the authenticated user has role \"");
        message.append(user.role.as_str());
        message.append("\"");
        Some(Rejection { status: FORBIDDEN, message })
    }
}

pub open spec fn name_mismatch_message(field_name: Seq<char>) -> Seq<char> {
    "field \""@ + field_name + "\" must match the authenticated user's own name"@
}

/// `None` where the name given in the request is the user's own; else 403
/// (no one acts under another user's name).
pub fn require_name_matches(user: &AuthUser, field_name: &str, claimed_name: &str) -> (r: Option<Rejection>)
    ensures
        r is None <==> user.name@ == claimed_name@,
        r matches Some(x) ==> x.status == FORBIDDEN && x.message@ == name_mismatch_message(field_name@),
{
    if same_text(user.name.as_str(), claimed_name) {
        None
    } else {
        Some(Rejection {
            status: FORBIDDEN,
            message: concat3("field \"", field_name, "\" must match the authenticated user's own name"),
        })
    }
}

// ---------------------------------------------------------------------------
// Time

#[verifier::external_type_specification]
#[verifier::external_body]
pub struct ExSystemTime(SystemTime);

#[verifier::external_type_specification]
#[verifier::external_body]
pub struct ExSystemTimeError(SystemTimeError);

/// `SystemTime::now`. Nothing is stated of the time it returns.
#[verifier::external_body]
fn system_now() -> SystemTime {
    SystemTime::now()
}

/// `SystemTime::duration_since` the Unix epoch. Nothing is stated of the result.
#[verifier::external_body]
fn since_unix_epoch(t: &SystemTime) -> Result<Duration, SystemTimeError> {
    t.duration_since(UNIX_EPOCH)
}

/// `Duration::as_secs`. Nothing is stated of the result.
#[verifier::external_body]
fn whole_seconds(d: &Duration) -> u64 {
    d.as_secs()
}

/// The Unix time for a number of seconds since the epoch (`None` where the
/// clock was before the epoch, which counts as 0): the count taken as an
/// `i64`, wrapping as `as` does.
pub open spec fn unix_seconds(elapsed: Option<u64>) -> i64 {
    match elapsed {
        Some(secs) => secs as i64,
        None => 0,
    }
}

pub fn unix_seconds_of(elapsed: Option<u64>) -> (r: i64)
    ensures
        r == unix_seconds(elapsed),
{
    match elapsed {
        Some(secs) => secs as i64,
        None => 0,
    }
}

/// The current Unix time in seconds (0 where the clock is before 1970).
pub fn now_unix() -> (r: i64)
    ensures
        exists|elapsed: Option<u64>| r == unix_seconds(elapsed),
{
    let now = system_now();
    let elapsed = match since_unix_epoch(&now) {
        Ok(d) => Some(whole_seconds(&d)),
        Err(_) => None,
    };
    unix_seconds_of(elapsed)
}

// ---------------------------------------------------------------------------
// Sessions

/// The name of the session cookie.
pub const SESSION_COOKIE_NAME: &'static str = "aruaru_session";

/// How long a session lasts, in seconds: thirty days.
pub const SESSION_MAX_AGE_SECONDS: i64 = 60 * 60 * 24 * 30;

/// `n` in decimal digits, without leading zeros (`0` for zero).
pub open spec fn decimal(n: nat) -> Seq<char>
    decreases n,
{
    if n < 10 {
        seq![(48 + n) as char]
    } else {
        decimal(n / 10).push((48 + n % 10) as char)
    }
}

pub fn decimal_of(n: u64) -> (r: Vec<char>)
    ensures
        r@ == decimal(n as nat),
    decreases n,
{
    if n < 10 {
        vec![((48 + n) as u8) as char]
    } else {
        let mut r = decimal_of(n / 10);
        r.push(((48 + n % 10) as u8) as char);
        r
    }
}

/// The `Set-Cookie` value that starts a session.
pub open spec fn session_cookie_text(session_id: Seq<char>) -> Seq<char> {
    SESSION_COOKIE_NAME@ + "="@ + session_id + "; Path=/; HttpOnly; SameSite=Lax; Max-Age="@
        + decimal(SESSION_MAX_AGE_SECONDS as nat)
}

pub fn session_cookie(session_id: &str) -> (r: String)
    ensures
        r@ == session_cookie_text(session_id@),
{
    let head = concat3(SESSION_COOKIE_NAME, "=", session_id);
    let mut out = chars_of(head.as_str());
    let attrs = chars_of("; Path=/; HttpOnly; SameSite=Lax; Max-Age=");
    append_chars(&mut out, attrs.as_slice());
    let age = decimal_of(SESSION_MAX_AGE_SECONDS as u64);
    append_chars(&mut out, age.as_slice());
    string_of(out.as_slice())
}

/// The value of the first `;`-separated piece of a `Cookie` header that,
/// trimmed, starts with `key`: what follows `key` there.
pub open spec fn cookie_lookup(pieces: Seq<Seq<char>>, key: Seq<char>) -> Option<Seq<char>>
    decreases pieces.len(),
{
    if pieces.len() == 0 {
        None
    } else if has_prefix(trim(pieces[0]), key) {
        Some(trim(pieces[0]).skip(key.len() as int))
    } else {
        cookie_lookup(pieces.drop_first(), key)
    }
}

/// The session id that a `Cookie` header carries, if any.
pub open spec fn session_cookie_value(header: Seq<char>) -> Option<Seq<char>> {
    cookie_lookup(split_on(header, ';'), SESSION_COOKIE_NAME@ + "="@)
}

pub fn read_session_cookie(header: &str) -> (r: Option<String>)
    ensures
        r matches Some(v) ==> session_cookie_value(header@) == Some(v@),
        r is None ==> session_cookie_value(header@) is None,
{
    let key_text = concat2(SESSION_COOKIE_NAME, "=");
    let key = chars_of(key_text.as_str());
    let cs = chars_of(header);
    let pieces = split_chars(cs.as_slice(), ';');
    let ghost all = split_on(header@, ';');
    let mut i: usize = 0;
    assert(all.skip(0) =~= all);
    while i < pieces.len()
        invariant
            i <= pieces@.len(),
            pieces@.len() == all.len(),
            forall|j: int| 0 <= j < pieces@.len() ==> #[trigger] pieces@[j]@ == all[j],
            key@ == SESSION_COOKIE_NAME@ + "="@,
            all == split_on(header@, ';'),
            cookie_lookup(all, key@) == cookie_lookup(all.skip(i as int), key@),
        decreases pieces@.len() - i,
    {
        let ghost rest = all.skip(i as int);
        assert(rest[0] == all[i as int]);
        assert(rest.drop_first() =~= all.skip(i + 1));
        let t = trimmed(pieces[i].as_slice());
        match strip_prefix(t.as_slice(), key.as_slice()) {
            Some(v) => {
                return Some(string_of(v.as_slice()));
            },
            None => {},
        }
        i += 1;
    }
    None
}

/// The token of an `Authorization: Bearer <token>` header value.
pub fn bearer_token(authorization: &str) -> (r: Option<String>)
    ensures
        r matches Some(t) ==> without_prefix(authorization@, "Bearer "@) == Some(t@),
        r is None ==> without_prefix(authorization@, "Bearer "@) is None,
{
    let cs = chars_of(authorization);
    let p = chars_of("Bearer ");
    match strip_prefix(cs.as_slice(), p.as_slice()) {
        Some(v) => Some(string_of(v.as_slice())),
        None => None,
    }
}

/// How a request identifies its user.
#[derive(Debug, Clone)]
pub enum Credential {
    /// A bearer token from the `Authorization` header.
    Bearer(String),
    /// A session id from the session cookie.
    Session(String),
    /// Neither.
    Missing,
}

/// The bearer token where the `Authorization` header carries one, else the
/// session cookie where the `Cookie` header carries one.
pub fn credential_from_headers(authorization: Option<&str>, cookie: Option<&str>) -> (r: Credential)
    ensures
        ({
            let bearer = match authorization {
                Some(a) => without_prefix(a@, "Bearer "@),
                None => None,
            };
            let session = match cookie {
                Some(c) => session_cookie_value(c@),
                None => None,
            };
            match bearer {
                Some(t) => r matches Credential::Bearer(x) && x@ == t,
                None => match session {
                    Some(v) => r matches Credential::Session(x) && x@ == v,
                    None => r is Missing,
                },
            }
        }),
{
    if let Some(a) = authorization {
        if let Some(t) = bearer_token(a) {
            return Credential::Bearer(t);
        }
    }
    if let Some(c) = cookie {
        if let Some(v) = read_session_cookie(c) {
            return Credential::Session(v);
        }
    }
    Credential::Missing
}

/// Whether something created at `created_at` has outlived `max_age` seconds
/// at time `now`.
pub open spec fn has_expired(now: i64, created_at: i64, max_age: i64) -> bool {
    now - created_at > max_age
}

/// Whether a session created at `created_at` is no longer valid at `now`.
pub fn session_is_expired(now: i64, created_at: i64) -> (r: bool)
    requires
        i64::MIN <= now - created_at <= i64::MAX,
    ensures
        r == has_expired(now, created_at, SESSION_MAX_AGE_SECONDS),
{
    now - created_at > SESSION_MAX_AGE_SECONDS
}

} // verus!
