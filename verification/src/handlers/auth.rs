//! Credential verifier: registration and login.
use crate::handlers::{Outcome, OutcomeView, Pending, PendingView, Step, StepView};
use crate::identity::{new_identity, IDENTITY_LEN};
use crate::models::user::{AuthResponse, LoginRequest, RegisterRequest, User, UserView};
use crate::password::{accepts, hash_password, password_matches};
use crate::store::{QueryView, ReplyView, StoreQuery, StoreReply};
use crate::token::{issue, issuing, TOKEN_TTL_SECONDS};
use vstd::prelude::*;

verus! {

/// First step of a registration of `username` once the identity is drawn
/// and the password hashed: the insert of the credential, or a fault where
/// hashing failed.
pub open spec fn registering(
    username: Seq<char>,
    id: Seq<u8>,
    hash: Option<Seq<char>>,
) -> StepView {
    match hash {
        Some(password_hash) => StepView::Ask {
            query: QueryView::InsertUser { user: UserView { id, username, password_hash } },
            then: PendingView::Register,
        },
        None => StepView::Done(OutcomeView::Fault),
    }
}

/// First step of a registration, from the drawn identity and the hash.
pub fn registration(username: String, id: Vec<u8>, hash: Option<String>) -> (step: Step)
    ensures
        step@ == registering(
            username@,
            id@,
            match hash {
                Some(h) => Some(h@),
                None => None,
            },
        ),
{
    match hash {
        Some(password_hash) => Step::Ask {
            query: StoreQuery::InsertUser { user: User { id, username, password_hash } },
            then: Pending::Register,
        },
        None => Step::Done(Outcome::Fault),
    }
}

/// Registers a user: hashes the password, draws an identity and asks the
/// store to insert the credential. The password itself goes no further.
pub fn register(payload: RegisterRequest) -> (step: Step)
    ensures
        match step@ {
            StepView::Ask { query, then } => {
                &&& then == PendingView::Register
                &&& query matches QueryView::InsertUser { user }
                &&& user.username == payload.username@
                &&& user.id.len() == IDENTITY_LEN
                &&& accepts(payload.password@, user.password_hash)
            },
            StepView::Done(outcome) => outcome == OutcomeView::Fault,
        },
{
    let hash = hash_password(payload.password.as_str());
    let id = new_identity();
    registration(payload.username, id, hash)
}

/// Outcome of a registration: created when the insert was carried out,
/// a conflict exactly when the store reports a taken unique key, a fault
/// for anything else.
pub open spec fn registered(reply: ReplyView) -> OutcomeView {
    match reply {
        ReplyView::Done { .. } => OutcomeView::Created,
        ReplyView::UniqueViolation => OutcomeView::Conflict,
        _ => OutcomeView::Fault,
    }
}

/// Ends a registration with the store's reply to the insert.
pub fn register_stored(reply: StoreReply) -> (outcome: Outcome)
    ensures
        outcome@ == registered(reply@),
{
    match reply {
        StoreReply::Done { .. } => Outcome::Created,
        StoreReply::UniqueViolation => Outcome::Conflict,
        _ => Outcome::Fault,
    }
}

/// First step of a login: the lookup of the credential by username, with
/// the presented password kept for the check that follows.
pub open spec fn login_begun(username: Seq<char>, password: Seq<char>) -> StepView {
    StepView::Ask {
        query: QueryView::FindUserByUsername { username },
        then: PendingView::Login { password },
    }
}

/// Begins a login: asks the store for the credential of the username.
pub fn login(payload: LoginRequest) -> (step: Step)
    ensures
        step@ == login_begun(payload.username@, payload.password@),
{
    Step::Ask {
        query: StoreQuery::FindUserByUsername { username: payload.username },
        then: Pending::Login { password: payload.password },
    }
}

/// Outcome of a login: a token bound to the user's identity when the
/// credential exists and accepts the password; `Unauthorized` alike when
/// the username is unknown and when the password is wrong; a fault when the
/// store or the codec fails.
pub open spec fn logged_in(
    password: Seq<char>,
    reply: ReplyView,
    secret: Seq<u8>,
    now: i64,
) -> OutcomeView {
    match reply {
        ReplyView::User(Some(user)) => if accepts(password, user.password_hash) {
            match issuing(user.id, TOKEN_TTL_SECONDS, now, secret) {
                Ok(token) => OutcomeView::Token(token),
                Err(_) => OutcomeView::Fault,
            }
        } else {
            OutcomeView::Unauthorized
        },
        ReplyView::User(None) => OutcomeView::Unauthorized,
        _ => OutcomeView::Fault,
    }
}

/// Ends a login with the store's reply to the lookup, at time `now`.
pub fn login_found(password: &str, reply: StoreReply, secret: &[u8], now: i64) -> (outcome: Outcome)
    ensures
        outcome@ == logged_in(password@, reply@, secret@, now),
{
    match reply {
        StoreReply::User(Some(user)) => {
            if !password_matches(password, user.password_hash.as_str()) {
                return Outcome::Unauthorized;
            }
            match issue(user.id.as_slice(), TOKEN_TTL_SECONDS, now, secret) {
                Ok(token) => Outcome::Token(AuthResponse { token }),
                Err(_) => Outcome::Fault,
            }
        },
        StoreReply::User(None) => Outcome::Unauthorized,
        _ => Outcome::Fault,
    }
}

} // verus!
