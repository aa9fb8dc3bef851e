//! Access gate: takes the bearer token out of an `Authorization` header value
//! and has it verified, in a mandatory and an optional mode.
use crate::clock::{is_reading, unix_now};
use crate::identity::uuid_parsing;
use crate::token::{verification, verify};
use vstd::prelude::*;

verus! {

/// What a token asserts: its subject, the textual identity of a user, and
/// the second at which it expires.
#[derive(Debug, Clone)]
pub struct Claims {
    pub sub: String,
    pub exp: i64,
}

/// Mathematical value of [`Claims`].
pub struct ClaimsView {
    pub sub: Seq<char>,
    pub exp: i64,
}

impl View for Claims {
    type V = ClaimsView;

    open spec fn view(&self) -> ClaimsView {
        ClaimsView { sub: self.sub@, exp: self.exp }
    }
}

/// Mathematical value of claims that may be absent.
pub open spec fn seen(claims: Option<Claims>) -> Option<ClaimsView> {
    match claims {
        Some(c) => Some(c@),
        None => None,
    }
}

/// The identity a request acts as: the one its claims name, or none for an
/// anonymous request and for a subject that is no identity.
pub open spec fn caller_of(claims: Option<ClaimsView>) -> Option<Seq<u8>> {
    match claims {
        Some(c) => uuid_parsing(c.sub),
        None => None,
    }
}

/// The request could not be tied to a verified identity.
#[derive(Debug, Clone, Copy, PartialEq, Eq, Structural)]
pub struct Unauthenticated;

/// The scheme word and the blank that precede a bearer token.
pub open spec fn bearer_scheme() -> Seq<char> {
    seq!['B', 'e', 'a', 'r', 'e', 'r', ' ']
}

/// The token carried by a header value: what follows `Bearer `, if the
/// value starts so.
pub open spec fn bearer_of(header: Seq<char>) -> Option<Seq<char>> {
    if bearer_scheme().is_prefix_of(header) {
        Some(header.skip(bearer_scheme().len() as int))
    } else {
        None
    }
}

/// The claims that a request carrying this `Authorization` value is
/// admitted with at `now`; `None` if it has no header, no bearer token, or
/// an invalid one.
pub open spec fn admitted(authorization: Option<Seq<char>>, secret: Seq<u8>, now: i64) -> Option<
    ClaimsView,
> {
    match authorization {
        Some(header) => match bearer_of(header) {
            Some(token) => verification(token, secret, now),
            None => None,
        },
        None => None,
    }
}

/// Mathematical value of a header value that may be absent.
pub open spec fn seen_header(authorization: Option<&str>) -> Option<Seq<char>> {
    match authorization {
        Some(h) => Some(h@),
        None => None,
    }
}

/// Calls `str::strip_prefix` with a string pattern: the rest of `text` after
/// `prefix` where `text` starts with it, else `None`.
#[verifier::external_body]
pub(crate) fn strip_prefix<'a>(text: &'a str, prefix: &str) -> (r: Option<&'a str>)
    ensures
        r matches Some(rest) ==> prefix@.is_prefix_of(text@) && rest@ == text@.skip(
            prefix@.len() as int,
        ),
        r is None ==> !prefix@.is_prefix_of(text@),
{
    text.strip_prefix(prefix)
}

/// Takes the bearer token out of an `Authorization` header value.
pub fn bearer_token<'a>(header: &'a str) -> (r: Option<&'a str>)
    ensures
        seen_header(r) == bearer_of(header@),
{
    proof {
        reveal_strlit("Bearer ");
        assert("Bearer "@ =~= bearer_scheme());
    }
    strip_prefix(header, "Bearer ")
}

/// Optional gate at time `now`: the claims of a valid bearer token, or
/// `None` for a request that goes on as anonymous. It never refuses a
/// request.
pub fn accept_bearer(authorization: Option<&str>, secret: &[u8], now: i64) -> (r: Option<Claims>)
    ensures
        seen(r) == admitted(seen_header(authorization), secret@, now),
{
    match authorization {
        Some(header) => match bearer_token(header) {
            Some(token) => verify(token, secret, now),
            None => None,
        },
        None => None,
    }
}

/// Mandatory gate at time `now`: the claims of a valid bearer token, or a
/// refusal when the header is missing, carries no bearer token, or the
/// token is invalid.
pub fn require_bearer(authorization: Option<&str>, secret: &[u8], now: i64) -> (r: Result<
    Claims,
    Unauthenticated,
>)
    ensures
        match r {
            Ok(claims) => admitted(seen_header(authorization), secret@, now) == Some(claims@),
            Err(_) => admitted(seen_header(authorization), secret@, now) is None,
        },
{
    match accept_bearer(authorization, secret, now) {
        Some(claims) => Ok(claims),
        None => Err(Unauthenticated),
    }
}

/// Mandatory gate, at the time of the call.
pub fn auth_middleware(authorization: Option<&str>, secret: &[u8]) -> (r: Result<
    Claims,
    Unauthenticated,
>)
    ensures
        exists|now: i64|
            is_reading(now) && match r {
                Ok(claims) => #[trigger] admitted(seen_header(authorization), secret@, now) == Some(
                    claims@,
                ),
                Err(_) => admitted(seen_header(authorization), secret@, now) is None,
            },
{
    let now = unix_now();
    require_bearer(authorization, secret, now)
}

/// Optional gate, at the time of the call.
pub fn optional_auth_middleware(authorization: Option<&str>, secret: &[u8]) -> (r: Option<Claims>)
    ensures
        exists|now: i64|
            is_reading(now) && seen(r) == #[trigger] admitted(
                seen_header(authorization),
                secret@,
                now,
            ),
{
    let now = unix_now();
    accept_bearer(authorization, secret, now)
}

} // verus!
