//! The operations of the service, each as an exchange with the store: a
//! handler decides on the next [`Step`], the caller puts the query of an
//! [`Step::Ask`] to the store and hands the reply to [`resume_at`], until a
//! [`Step::Done`] carries the outcome.
use crate::clock::{is_reading, unix_now};
use crate::middleware::auth::{seen, Claims, ClaimsView};
use crate::models::article::{
    seen_articles, Article, ArticleView, PatchView, UpdateArticleRequest,
};
use crate::models::user::AuthResponse;
use crate::store::{answer, QueryView, ReplyView, StoreQuery, StoreReply, StoreState};
use vstd::prelude::*;

pub mod article;
pub mod auth;

verus! {

/// How an operation ended.
#[derive(Debug)]
pub enum Outcome {
    /// A credential or an article was created.
    Created,
    /// An article was changed.
    Updated,
    /// An article was deleted.
    Deleted,
    /// A login succeeded.
    Token(AuthResponse),
    /// The articles of the caller, newest first.
    Articles(Vec<Article>),
    /// The article asked for.
    Article(Article),
    /// Unknown username or wrong password; which of the two is not told.
    Unauthorized,
    /// The request carries no verified identity where one is needed.
    Unauthenticated,
    /// The caller is known but does not own the article.
    Forbidden,
    /// The article does not exist, or is hidden from the caller.
    NotFound,
    /// The username is taken.
    Conflict,
    /// The store or the codec failed; no detail is given.
    Fault,
}

/// Mathematical value of an [`Outcome`].
pub enum OutcomeView {
    Created,
    Updated,
    Deleted,
    Token(Seq<char>),
    Articles(Seq<ArticleView>),
    Article(ArticleView),
    Unauthorized,
    Unauthenticated,
    Forbidden,
    NotFound,
    Conflict,
    Fault,
}

impl View for Outcome {
    type V = OutcomeView;

    open spec fn view(&self) -> OutcomeView {
        match *self {
            Outcome::Created => OutcomeView::Created,
            Outcome::Updated => OutcomeView::Updated,
            Outcome::Deleted => OutcomeView::Deleted,
            Outcome::Token(response) => OutcomeView::Token(response.token@),
            Outcome::Articles(list) => OutcomeView::Articles(seen_articles(list@)),
            Outcome::Article(a) => OutcomeView::Article(a@),
            Outcome::Unauthorized => OutcomeView::Unauthorized,
            Outcome::Unauthenticated => OutcomeView::Unauthenticated,
            Outcome::Forbidden => OutcomeView::Forbidden,
            Outcome::NotFound => OutcomeView::NotFound,
            Outcome::Conflict => OutcomeView::Conflict,
            Outcome::Fault => OutcomeView::Fault,
        }
    }
}

/// What an operation waits for while its query is with the store, and what
/// it has to remember meanwhile.
#[derive(Debug)]
pub enum Pending {
    /// The insert of a new credential.
    Register,
    /// The lookup of the credential to check `password` against.
    Login { password: String },
    /// The listing of the caller's articles.
    List,
    /// The insert of a new article.
    Create,
    /// The lookup of the article that `caller` wants to change.
    UpdateFetched { caller: Vec<u8>, id: i32, payload: UpdateArticleRequest },
    /// The write of the changed fields.
    UpdateWritten,
    /// The delete conditioned on id and owner.
    Delete,
    /// The lookup of an article by slug, for a request with these claims.
    SlugFetched { claims: Option<Claims> },
}

/// Mathematical value of a [`Pending`].
pub enum PendingView {
    Register,
    Login { password: Seq<char> },
    List,
    Create,
    UpdateFetched { caller: Seq<u8>, id: i32, patch: PatchView },
    UpdateWritten,
    Delete,
    SlugFetched { claims: Option<ClaimsView> },
}

impl View for Pending {
    type V = PendingView;

    open spec fn view(&self) -> PendingView {
        match *self {
            Pending::Register => PendingView::Register,
            Pending::Login { password } => PendingView::Login { password: password@ },
            Pending::List => PendingView::List,
            Pending::Create => PendingView::Create,
            Pending::UpdateFetched { caller, id, payload } => PendingView::UpdateFetched {
                caller: caller@,
                id,
                patch: payload@,
            },
            Pending::UpdateWritten => PendingView::UpdateWritten,
            Pending::Delete => PendingView::Delete,
            Pending::SlugFetched { claims } => PendingView::SlugFetched { claims: seen(claims) },
        }
    }
}

/// What a handler wants next.
#[derive(Debug)]
pub enum Step {
    /// Put `query` to the store and resume with its reply and `then`.
    Ask { query: StoreQuery, then: Pending },
    /// The operation has ended.
    Done(Outcome),
}

/// Mathematical value of a [`Step`].
pub enum StepView {
    Ask { query: QueryView, then: PendingView },
    Done(OutcomeView),
}

impl View for Step {
    type V = StepView;

    open spec fn view(&self) -> StepView {
        match *self {
            Step::Ask { query, then } => StepView::Ask { query: query@, then: then@ },
            Step::Done(outcome) => StepView::Done(outcome@),
        }
    }
}

impl PendingView {
    /// Upper bound on the queries still to come, this one included.
    pub open spec fn rounds(self) -> nat {
        match self {
            PendingView::UpdateFetched { .. } => 2,
            _ => 1,
        }
    }
}

impl StepView {
    /// Upper bound on the queries still to come.
    pub open spec fn rounds(self) -> nat {
        match self {
            StepView::Ask { then, .. } => then.rounds(),
            StepView::Done(_) => 0,
        }
    }
}

/// The step that follows when the store answers `reply` to the query that
/// `then` waits for, under the signing secret `secret` at time `now`.
pub open spec fn resumption(
    then: PendingView,
    reply: ReplyView,
    secret: Seq<u8>,
    now: i64,
) -> StepView {
    match then {
        PendingView::Register => StepView::Done(auth::registered(reply)),
        PendingView::Login { password } => StepView::Done(
            auth::logged_in(password, reply, secret, now),
        ),
        PendingView::List => StepView::Done(article::listed(reply)),
        PendingView::Create => StepView::Done(article::created(reply)),
        PendingView::UpdateFetched { caller, id, patch } => article::update_checked(
            caller,
            id,
            patch,
            reply,
        ),
        PendingView::UpdateWritten => StepView::Done(article::updated(reply)),
        PendingView::Delete => StepView::Done(article::deleted(reply)),
        PendingView::SlugFetched { claims } => StepView::Done(
            article::slug_resolved(claims, reply),
        ),
    }
}

/// The whole exchange that begins with `step`, against a store with contents
/// `store`: the contents afterwards and the outcome.
pub open spec fn run(store: StoreState, step: StepView, secret: Seq<u8>, now: i64) -> (
    StoreState,
    OutcomeView,
)
    decreases step.rounds(),
{
    match step {
        StepView::Done(outcome) => (store, outcome),
        StepView::Ask { query, then } => {
            let (after, reply) = answer(store, query, now);
            run(after, resumption(then, reply, secret, now), secret, now)
        },
    }
}

/// Resumes an operation with the store's reply, at time `now`.
pub fn resume_at(then: Pending, reply: StoreReply, secret: &[u8], now: i64) -> (step: Step)
    ensures
        step@ == resumption(then@, reply@, secret@, now),
        step@.rounds() < then@.rounds(),
{
    match then {
        Pending::Register => Step::Done(auth::register_stored(reply)),
        Pending::Login { password } => Step::Done(
            auth::login_found(password.as_str(), reply, secret, now),
        ),
        Pending::List => Step::Done(article::list_fetched(reply)),
        Pending::Create => Step::Done(article::create_stored(reply)),
        Pending::UpdateFetched { caller, id, payload } => article::update_fetched(
            caller,
            id,
            payload,
            reply,
        ),
        Pending::UpdateWritten => Step::Done(article::update_stored(reply)),
        Pending::Delete => Step::Done(article::delete_stored(reply)),
        Pending::SlugFetched { claims } => Step::Done(article::slug_fetched(claims, reply)),
    }
}

/// Resumes an operation with the store's reply, at the time of the call.
pub fn resume(then: Pending, reply: StoreReply, secret: &[u8]) -> (step: Step)
    ensures
        exists|now: i64|
            is_reading(now) && step@ == #[trigger] resumption(then@, reply@, secret@, now),
        step@.rounds() < then@.rounds(),
{
    let now = unix_now();
    resume_at(then, reply, secret, now)
}

} // verus!
