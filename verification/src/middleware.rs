//! The request authenticator: it runs ahead of every protected operation,
//! resolves the presented token to a live session and exposes the owning
//! account to what follows.

use vstd::prelude::*;
use crate::models::{Session, SessionView};
use crate::primitives::now_micros;
use crate::queries::{find_live, get_active_session_by_token, Database, DbError, DbErrorView};

verus! {

/// Why a request was not authenticated.
#[derive(Debug)]
pub enum AuthError {
    /// No token was presented.
    InvalidToken,
    /// The session has expired.
    ExpiredSession,
    /// No live session carries the token: it is unknown, or it has expired.
    SessionNotFound,
    /// The session found belongs to no account.
    UserMissing,
    /// The session store failed.
    DatabaseError(DbError),
}

/// An authentication failure as the contracts see it.
pub enum AuthErrorView {
    InvalidToken,
    ExpiredSession,
    SessionNotFound,
    UserMissing,
    DatabaseError(DbErrorView),
}

impl View for AuthError {
    type V = AuthErrorView;

    open spec fn view(&self) -> AuthErrorView {
        match self {
            AuthError::InvalidToken => AuthErrorView::InvalidToken,
            AuthError::ExpiredSession => AuthErrorView::ExpiredSession,
            AuthError::SessionNotFound => AuthErrorView::SessionNotFound,
            AuthError::UserMissing => AuthErrorView::UserMissing,
            AuthError::DatabaseError(e) => AuthErrorView::DatabaseError(e@),
        }
    }
}

impl AuthErrorView {
    /// The HTTP status that reports the failure: a store failure is internal,
    /// every other cause is the same unauthenticated answer.
    pub open spec fn status(self) -> u16 {
        match self {
            AuthErrorView::DatabaseError(_) => 500,
            _ => 401,
        }
    }

    /// The text shown for the failure.
    pub open spec fn text(self) -> Seq<char> {
        match self {
            AuthErrorView::InvalidToken => "Invalid session token"@,
            AuthErrorView::ExpiredSession => "Session has expired"@,
            AuthErrorView::SessionNotFound => "Session not found"@,
            AuthErrorView::UserMissing => "User ID missing in session"@,
            AuthErrorView::DatabaseError(e) => "Database error: "@ + e.text(),
        }
    }
}

impl AuthError {
    /// The HTTP status that reports the failure.
    pub fn status_code(&self) -> (r: u16)
        ensures
            r == self@.status(),
    {
        match self {
            AuthError::DatabaseError(_) => 500,
            _ => 401,
        }
    }

    /// The text shown for the failure.
    pub fn message(&self) -> (r: String)
        ensures
            r@ == self@.text(),
    {
        match self {
            AuthError::InvalidToken => "Invalid session token".to_owned(),
            AuthError::ExpiredSession => "Session has expired".to_owned(),
            AuthError::SessionNotFound => "Session not found".to_owned(),
            AuthError::UserMissing => "User ID missing in session".to_owned(),
            AuthError::DatabaseError(e) => {
                let detail = e.message();
                "Database error: ".to_owned().concat(detail.as_str())
            },
        }
    }
}

/// The identity that a session lookup yields: the owner of the session found.
pub open spec fn identity_of(found: Option<SessionView>) -> Result<u128, AuthErrorView> {
    match found {
        None => Err(AuthErrorView::SessionNotFound),
        Some(session) => match session.user_id {
            Some(user_id) => Ok(user_id),
            None => Err(AuthErrorView::UserMissing),
        },
    }
}

/// The identity that presenting `token` at `now` resolves to, given the
/// stored sessions. A session counts only while `now` lies before its expiry.
pub open spec fn authenticated_as(
    rows: Seq<SessionView>,
    token: Option<Seq<char>>,
    now: i64,
) -> Result<u128, AuthErrorView> {
    match token {
        None => Err(AuthErrorView::InvalidToken),
        Some(text) => identity_of(find_live(rows, text, now)),
    }
}

/// Turns the result of the session lookup into the identity of the request.
pub fn resolve_session(found: Result<Option<Session>, DbError>) -> (r: Result<u128, AuthError>)
    ensures
        match found {
            Ok(Some(session)) => match r {
                Ok(id) => identity_of(Some(session@)) == Ok::<u128, AuthErrorView>(id),
                Err(e) => identity_of(Some(session@)) == Err::<u128, AuthErrorView>(e@),
            },
            Ok(None) => r.is_err() && r.unwrap_err()@ == AuthErrorView::SessionNotFound,
            Err(cause) => r.is_err() && r.unwrap_err()@ == AuthErrorView::DatabaseError(cause@),
        },
{
    match found {
        Ok(Some(session)) => match session.user_id {
            Some(user_id) => Ok(user_id),
            None => Err(AuthError::UserMissing),
        },
        Ok(None) => Err(AuthError::SessionNotFound),
        Err(cause) => Err(AuthError::DatabaseError(cause)),
    }
}

/// Resolves the token presented at `now` to the account that owns its live
/// session. An unknown token and an expired one fail alike.
pub fn authenticate(db: &Database, token: Option<&str>, now: i64) -> (r: Result<u128, AuthError>)
    ensures
        match r {
            Ok(id) => authenticated_as(
                db.session_rows(),
                match token {
                    Some(text) => Some(text@),
                    None => None,
                },
                now,
            ) == Ok::<u128, AuthErrorView>(id),
            Err(e) => authenticated_as(
                db.session_rows(),
                match token {
                    Some(text) => Some(text@),
                    None => None,
                },
                now,
            ) == Err::<u128, AuthErrorView>(e@),
        },
{
    match token {
        None => Err(AuthError::InvalidToken),
        Some(text) => resolve_session(get_active_session_by_token(db, text, now)),
    }
}

/// What a protected operation sees of a request: the token in its credential
/// slot and, once authenticated, the account behind it.
#[derive(Debug)]
pub struct RequestContext {
    /// The token presented in the session cookie, if any.
    pub session_token: Option<String>,
    /// The authenticated account, set by the authenticator.
    pub user_id: Option<u128>,
}

/// Access to the identity that the authenticator resolved for a request.
pub trait AuthenticatedRequest {
    /// The authenticated account, as the contracts see it.
    spec fn identity(&self) -> Option<u128>;

    /// The authenticated account, if the request was authenticated.
    fn authenticated_user_id(&self) -> (r: Option<u128>)
        ensures
            r == self.identity(),
    ;
}

impl AuthenticatedRequest for RequestContext {
    open spec fn identity(&self) -> Option<u128> {
        self.user_id
    }

    fn authenticated_user_id(&self) -> (r: Option<u128>) {
        self.user_id
    }
}

impl RequestContext {
    /// The presented token, as the contracts see it.
    pub open spec fn token_view(&self) -> Option<Seq<char>> {
        match self.session_token {
            Some(text) => Some(text@),
            None => None,
        }
    }

    /// A request as it arrives: not yet authenticated.
    pub fn new(session_token: Option<String>) -> (r: Self)
        ensures
            r.session_token == session_token,
            r.user_id.is_none(),
    {
        RequestContext { session_token, user_id: None }
    }

    /// The presented token.
    pub fn token(&self) -> (r: Option<&str>)
        ensures
            match r {
                Some(text) => self.token_view() == Some(text@),
                None => self.token_view().is_none(),
            },
    {
        match &self.session_token {
            Some(text) => Some(text.as_str()),
            None => None,
        }
    }

    /// Authenticates the request at `now`. On success the owning account is
    /// exposed to what follows; on failure the request is left as it was.
    pub fn call(&mut self, db: &Database, now: i64) -> (r: Result<(), AuthError>)
        ensures
            final(self).session_token == old(self).session_token,
            match authenticated_as(db.session_rows(), old(self).token_view(), now) {
                Ok(id) => r.is_ok() && final(self).user_id == Some(id),
                Err(e) => r.is_err() && r.unwrap_err()@ == e && final(self).user_id == old(
                    self,
                ).user_id,
            },
    {
        let resolved = authenticate(db, self.token(), now);
        match resolved {
            Ok(id) => {
                self.user_id = Some(id);
                Ok(())
            },
            Err(e) => Err(e),
        }
    }

    /// Authenticates the request against the clock. Whatever the clock reads,
    /// the outcome is that of authenticating at that instant.
    pub fn call_now(&mut self, db: &Database) -> (r: Result<(), AuthError>)
        ensures
            final(self).session_token == old(self).session_token,
            exists|now: i64|
                match #[trigger] authenticated_as(db.session_rows(), old(self).token_view(), now) {
                    Ok(id) => r.is_ok() && final(self).user_id == Some(id),
                    Err(e) => r.is_err() && r.unwrap_err()@ == e && final(self).user_id == old(
                        self,
                    ).user_id,
                },
    {
        let now = now_micros();
        self.call(db, now)
    }
}

} // verus!
