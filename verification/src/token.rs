//! Token codec: issues and verifies signed, time-bounded assertions of a
//! user's identity. Signing and signature checking are the `jsonwebtoken`
//! crate's; expiry is decided here, against a clock value the caller passes.
use crate::identity::{canonical_text, uuid_parsing, uuid_to_text, IDENTITY_LEN};
use crate::middleware::auth::{seen, Claims, ClaimsView};
use vstd::prelude::*;

verus! {

/// Lifetime of a token issued at login, in seconds.
pub const TOKEN_TTL_SECONDS: i64 = 86_400;

/// What `jsonwebtoken::encode` returns for a default header, the claims
/// `sub` and `exp`, and an HMAC key made of `secret`; `None` where it fails.
pub uninterp spec fn jwt_encoding(sub: Seq<char>, exp: i64, secret: Seq<u8>) -> Option<Seq<char>>;

/// What `jsonwebtoken::decode` reads from a token under an HMAC key made of
/// `secret`, with the default validation but for the expiry check: the
/// claims `sub` and `exp`, or `None` where it rejects the token.
pub uninterp spec fn jwt_decoding(token: Seq<char>, secret: Seq<u8>) -> Option<(Seq<char>, i64)>;

/// The part of a token that its signature covers: everything before the
/// last `.`.
pub open spec fn signing_input(token: Seq<char>) -> Seq<char>
    decreases token.len(),
{
    if token.len() == 0 {
        token
    } else if token.last() == '.' {
        token.drop_last()
    } else {
        signing_input(token.drop_last())
    }
}

/// `token` is the encoding of the claims under `secret`, and, the expiry
/// not being negative, decodes to them again.
pub open spec fn encoded_as(token: Seq<char>, sub: Seq<char>, exp: i64, secret: Seq<u8>) -> bool {
    &&& jwt_encoding(sub, exp, secret) == Some(token)
    &&& exp >= 0 ==> jwt_decoding(token, secret) == Some((sub, exp))
}

/// Of all tokens that begin with the signing input of `token` and a `.`,
/// none but `token` itself decodes under `secret`: whatever else stands in
/// place of its signature is rejected.
pub open spec fn sole_signature(token: Seq<char>, secret: Seq<u8>) -> bool {
    forall|other: Seq<char>|
        other != token && (signing_input(token) + seq!['.']).is_prefix_of(other)
            ==> #[trigger] jwt_decoding(other, secret) is None
}

/// The failure of the `jsonwebtoken` crate, carried opaquely.
#[verifier::external_type_specification]
#[verifier::external_body]
pub struct ExJwtError(jsonwebtoken::errors::Error);

/// Calls `jsonwebtoken::encode` with the default header (HMAC-SHA256) on a
/// JSON object holding `sub` and `exp`. The crate signs deterministically,
/// and a token it made decodes under the same secret to the same claims
/// provided the expiry is not negative (its decoder reads `exp` unsigned).
#[verifier::external_body]
pub(crate) fn jwt_encode(sub: &str, exp: i64, secret: &[u8]) -> (r: Result<
    String,
    jsonwebtoken::errors::Error,
>)
    ensures
        jwt_encoding(sub@, exp, secret@) == match r {
            Ok(token) => Some(token@),
            Err(_) => None,
        },
        r matches Ok(token) ==> (exp >= 0 ==> jwt_decoding(token@, secret@) == Some((sub@, exp))),
{
    let mut claims = serde_json::Map::new();
    claims.insert("sub".to_string(), serde_json::Value::from(sub));
    claims.insert("exp".to_string(), serde_json::Value::from(exp));
    let key = jsonwebtoken::EncodingKey::from_secret(secret);
    jsonwebtoken::encode(&jsonwebtoken::Header::default(), &claims, &key)
}

/// Calls `jsonwebtoken::decode` with the default validation (HMAC-SHA256,
/// `exp` required), the expiry check switched off so that the answer does
/// not depend on the clock, and reads `sub` as a string and `exp` as an
/// integer from the claims object. The crate splits a token at its last
/// `.` and accepts it only if what follows is the text of the HMAC of what
/// precedes, and only if what precedes is two base64 parts around one `.`;
/// so no other ending of the same signing input is accepted.
#[verifier::external_body]
pub(crate) fn jwt_decode(token: &str, secret: &[u8]) -> (r: Option<Claims>)
    ensures
        jwt_decoding(token@, secret@) == match r {
            Some(claims) => Some((claims.sub@, claims.exp)),
            None => None,
        },
        r is Some ==> sole_signature(token@, secret@),
{
    let mut rules = jsonwebtoken::Validation::default();
    rules.validate_exp = false;
    let key = jsonwebtoken::DecodingKey::from_secret(secret);
    let claims = jsonwebtoken::decode::<serde_json::Value>(token, &key, &rules).ok()?.claims;
    let sub = claims.get("sub")?.as_str()?.to_string();
    Some(Claims { sub, exp: claims.get("exp")?.as_i64()? })
}

/// Why no token was issued.
#[derive(Debug, Clone, Copy, PartialEq, Eq, Structural)]
pub enum IssueError {
    /// The subject is not sixteen bytes long.
    NotAnIdentity,
    /// `now + ttl` is not a representable time.
    ExpiryOutOfRange,
    /// The encoder failed.
    Codec,
}

/// Mathematical value of what `issue` returns.
pub open spec fn seen_issue(r: Result<String, IssueError>) -> Result<Seq<char>, IssueError> {
    match r {
        Ok(token) => Ok(token@),
        Err(e) => Err(e),
    }
}

/// What `issue` returns: a refusal for a subject that is no identity and for
/// an expiry that cannot be represented, else what the encoder makes of the
/// canonical text of the subject and the expiry `now + ttl`.
pub open spec fn issuing(subject: Seq<u8>, ttl: i64, now: i64, secret: Seq<u8>) -> Result<
    Seq<char>,
    IssueError,
> {
    if subject.len() != IDENTITY_LEN {
        Err(IssueError::NotAnIdentity)
    } else if !(i64::MIN <= now + ttl <= i64::MAX) {
        Err(IssueError::ExpiryOutOfRange)
    } else {
        match jwt_encoding(canonical_text(subject), (now + ttl) as i64, secret) {
            Some(token) => Ok(token),
            None => Err(IssueError::Codec),
        }
    }
}

/// `token` was issued for `subject` under `secret`, to expire at `exp`: it
/// encodes the canonical text of the subject, which parses back to the
/// subject.
pub open spec fn issued_for(token: Seq<char>, subject: Seq<u8>, exp: i64, secret: Seq<u8>) -> bool {
    &&& subject.len() == IDENTITY_LEN
    &&& uuid_parsing(canonical_text(subject)) == Some(subject)
    &&& encoded_as(token, canonical_text(subject), exp, secret)
}

/// Issues a token that binds `subject` and expires `ttl` seconds after `now`.
pub fn issue(subject: &[u8], ttl: i64, now: i64, secret: &[u8]) -> (r: Result<String, IssueError>)
    ensures
        seen_issue(r) == issuing(subject@, ttl, now, secret@),
        r matches Ok(token) ==> issued_for(token@, subject@, (now + ttl) as i64, secret@),
{
    let sub = match uuid_to_text(subject) {
        Ok(text) => text,
        Err(_) => { return Err(IssueError::NotAnIdentity); },
    };
    let exp = match now.checked_add(ttl) {
        Some(exp) => exp,
        None => { return Err(IssueError::ExpiryOutOfRange); },
    };
    match jwt_encode(sub.as_str(), exp, secret) {
        Ok(token) => Ok(token),
        Err(_) => Err(IssueError::Codec),
    }
}

/// The claims of a token that is valid at `now`: its signature is authentic
/// under `secret` and its expiry lies after `now`. Every other token is
/// invalid, for whatever reason.
pub open spec fn verification(token: Seq<char>, secret: Seq<u8>, now: i64) -> Option<ClaimsView> {
    match jwt_decoding(token, secret) {
        Some((sub, exp)) => if exp > now {
            Some(ClaimsView { sub, exp })
        } else {
            None
        },
        None => None,
    }
}

/// `token` is valid at `now`, and no other token that shares its signing
/// input is.
pub open spec fn accepted(token: Seq<char>, secret: Seq<u8>, now: i64) -> bool {
    &&& verification(token, secret, now) is Some
    &&& sole_signature(token, secret)
}

/// Verifies a token at time `now`. `None` stands for every kind of invalid
/// token alike: malformed, wrongly signed, expired.
pub fn verify(token: &str, secret: &[u8], now: i64) -> (r: Option<Claims>)
    ensures
        seen(r) == verification(token@, secret@, now),
        r matches Some(c) ==> c.exp > now && accepted(token@, secret@, now),
{
    match jwt_decode(token, secret) {
        Some(claims) => if claims.exp > now {
            Some(claims)
        } else {
            None
        },
        None => None,
    }
}

} // verus!
