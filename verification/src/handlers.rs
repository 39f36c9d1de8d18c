//! The endpoints of the authentication core, as functions from what a request
//! carries to the reply that is sent: a status, a body and, at login and
//! logout, the session cookie.

use vstd::prelude::*;
use crate::middleware::{AuthError, AuthErrorView, AuthenticatedRequest, RequestContext};
use crate::models::User;
use crate::primitives::{format_uuid, uuid_text};
use crate::queries::{find_user, has_owned, has_token, without_owned, Database};
use crate::requests::{LoginRequest, NewUserRequest};
use crate::services::{
    credentials_of, is_issued_to, is_superuser, is_token, forbidden, ServiceError,
    ServiceErrorView,
};

verus! {

/// The name of the cookie that carries the session token.
pub const SESSION_COOKIE: &'static str = "session_token";

/// The lifetime of the session cookie: 24 hours, in seconds.
pub const SESSION_MAX_AGE_SECONDS: i64 = 86_400;

/// The session cookie set on a reply.
#[derive(Debug)]
pub struct SessionCookie {
    pub name: String,
    pub value: String,
    /// The base path the cookie is scoped to.
    pub path: String,
    /// The cookie is kept from scripts.
    pub http_only: bool,
    /// Seconds until the client drops the cookie; 0 clears it at once.
    pub max_age_seconds: i64,
}

/// A cookie as the contracts see it.
pub struct CookieView {
    pub name: Seq<char>,
    pub value: Seq<char>,
    pub path: Seq<char>,
    pub http_only: bool,
    pub max_age_seconds: i64,
}

impl View for SessionCookie {
    type V = CookieView;

    open spec fn view(&self) -> CookieView {
        CookieView {
            name: self.name@,
            value: self.value@,
            path: self.path@,
            http_only: self.http_only,
            max_age_seconds: self.max_age_seconds,
        }
    }
}

/// The reply to a request.
#[derive(Debug)]
pub struct HttpReply {
    pub status: u16,
    pub body: String,
    pub cookie: Option<SessionCookie>,
}

/// A reply as the contracts see it.
pub struct ReplyView {
    pub status: u16,
    pub body: Seq<char>,
    pub cookie: Option<CookieView>,
}

impl View for HttpReply {
    type V = ReplyView;

    open spec fn view(&self) -> ReplyView {
        ReplyView {
            status: self.status,
            body: self.body@,
            cookie: match self.cookie {
                Some(cookie) => Some(cookie@),
                None => None,
            },
        }
    }
}

/// The path a cookie is scoped to: the base path, or the root where none is
/// configured.
pub open spec fn path_of(base_url: Seq<char>) -> Seq<char> {
    if base_url.len() == 0 {
        "/"@
    } else {
        base_url
    }
}

/// The cookie that delivers `token` to the client.
pub open spec fn issued_cookie(base_url: Seq<char>, token: Seq<char>) -> CookieView {
    CookieView {
        name: SESSION_COOKIE@,
        value: token,
        path: path_of(base_url),
        http_only: true,
        max_age_seconds: SESSION_MAX_AGE_SECONDS,
    }
}

/// The cookie that makes the client drop its token.
pub open spec fn cleared_cookie(base_url: Seq<char>) -> CookieView {
    CookieView {
        name: SESSION_COOKIE@,
        value: Seq::<char>::empty(),
        path: path_of(base_url),
        http_only: true,
        max_age_seconds: 0,
    }
}

/// The reply that reports a service failure. An internal failure is reported
/// without its detail.
pub open spec fn failure_reply(e: ServiceErrorView) -> ReplyView {
    ReplyView {
        status: e.status(),
        body: if e.status() == 500 {
            "Internal server error"@
        } else {
            e.text()
        },
        cookie: None,
    }
}

/// The reply that reports an authentication failure.
pub open spec fn rejection_reply(e: AuthErrorView) -> ReplyView {
    ReplyView {
        status: e.status(),
        body: if e.status() == 500 {
            "Internal server error"@
        } else {
            e.text()
        },
        cookie: None,
    }
}

/// The reply to a request that reached a protected endpoint without an
/// authenticated identity or without its token.
pub open spec fn unauthorized_reply() -> ReplyView {
    ReplyView { status: 401, body: "Unauthorized"@, cookie: None }
}

/// The reply to a login, given its outcome.
pub open spec fn login_reply_of(
    base_url: Seq<char>,
    outcome: Result<Seq<char>, ServiceErrorView>,
) -> ReplyView {
    match outcome {
        Ok(token) => ReplyView {
            status: 200,
            body: "Logged in successfully"@,
            cookie: Some(issued_cookie(base_url, token)),
        },
        Err(e) => failure_reply(e),
    }
}

/// The reply to a logout, given its outcome.
pub open spec fn logout_reply_of(
    base_url: Seq<char>,
    outcome: Result<(), ServiceErrorView>,
) -> ReplyView {
    match outcome {
        Ok(_) => ReplyView {
            status: 200,
            body: "Logged out successfully"@,
            cookie: Some(cleared_cookie(base_url)),
        },
        Err(e) => failure_reply(e),
    }
}

/// The reply to an account creation, given its outcome: the identifier of the
/// new account, never its digest.
pub open spec fn creation_reply_of(outcome: Result<u128, ServiceErrorView>) -> ReplyView {
    match outcome {
        Ok(id) => ReplyView { status: 201, body: uuid_text(id), cookie: None },
        Err(e) => failure_reply(e),
    }
}

/// The path a cookie is scoped to.
pub fn cookie_path(base_url: &str) -> (r: String)
    ensures
        r@ == path_of(base_url@),
{
    if base_url.is_empty() {
        "/".to_owned()
    } else {
        base_url.to_owned()
    }
}

/// Reports a service failure.
pub fn error_reply(e: &ServiceError) -> (r: HttpReply)
    ensures
        r@ == failure_reply(e@),
{
    let status = e.status_code();
    let body = if status == 500 {
        "Internal server error".to_owned()
    } else {
        e.message()
    };
    HttpReply { status, body, cookie: None }
}

/// Reports an authentication failure.
pub fn auth_error_reply(e: &AuthError) -> (r: HttpReply)
    ensures
        r@ == rejection_reply(e@),
{
    let status = e.status_code();
    let body = if status == 500 {
        "Internal server error".to_owned()
    } else {
        e.message()
    };
    HttpReply { status, body, cookie: None }
}

/// Reports whether the service and its store can be reached.
pub fn health_check(store_reachable: bool) -> (r: HttpReply)
    ensures
        r@ == (if store_reachable {
            ReplyView { status: 200, body: "Server and database connection healthy"@, cookie: None }
        } else {
            ReplyView { status: 503, body: "Database connection issue"@, cookie: None }
        }),
{
    if store_reachable {
        HttpReply {
            status: 200,
            body: "Server and database connection healthy".to_owned(),
            cookie: None,
        }
    } else {
        HttpReply { status: 503, body: "Database connection issue".to_owned(), cookie: None }
    }
}

/// The reply to a login: on success the token travels in an HTTP-only cookie
/// that lasts as long as the session; on failure no cookie is set.
pub fn login_reply(base_url: &str, outcome: Result<String, ServiceError>) -> (r: HttpReply)
    ensures
        r@ == login_reply_of(
            base_url@,
            match outcome {
                Ok(token) => Ok(token@),
                Err(e) => Err(e@),
            },
        ),
{
    match outcome {
        Ok(token) => HttpReply {
            status: 200,
            body: "Logged in successfully".to_owned(),
            cookie: Some(
                SessionCookie {
                    name: SESSION_COOKIE.to_owned(),
                    value: token,
                    path: cookie_path(base_url),
                    http_only: true,
                    max_age_seconds: SESSION_MAX_AGE_SECONDS,
                },
            ),
        },
        Err(e) => error_reply(&e),
    }
}

/// The reply to a logout: on success the cookie is replaced by one that
/// expires at once.
pub fn logout_reply(base_url: &str, outcome: Result<(), ServiceError>) -> (r: HttpReply)
    ensures
        r@ == logout_reply_of(
            base_url@,
            match outcome {
                Ok(_) => Ok(()),
                Err(e) => Err(e@),
            },
        ),
{
    match outcome {
        Ok(_) => HttpReply {
            status: 200,
            body: "Logged out successfully".to_owned(),
            cookie: Some(
                SessionCookie {
                    name: SESSION_COOKIE.to_owned(),
                    value: String::new(),
                    path: cookie_path(base_url),
                    http_only: true,
                    max_age_seconds: 0,
                },
            ),
        },
        Err(e) => error_reply(&e),
    }
}

/// The reply to an account creation.
pub fn create_user_reply(outcome: Result<User, ServiceError>) -> (r: HttpReply)
    ensures
        r@ == creation_reply_of(
            match outcome {
                Ok(user) => Ok(user.id),
                Err(e) => Err(e@),
            },
        ),
{
    match outcome {
        Ok(user) => HttpReply { status: 201, body: format_uuid(user.id), cookie: None },
        Err(e) => error_reply(&e),
    }
}

/// The login endpoint. Where the credentials fail, the reply is the failure
/// and nothing is stored. Where they hold, either a session is stored and its
/// token is set as the cookie, or an internal failure is reported and nothing
/// is stored.
pub fn login(db: &mut Database, base_url: &str, req: &LoginRequest) -> (r: HttpReply)
    requires
        old(db).well_formed(),
    ensures
        final(db).well_formed(),
        final(db).user_rows() == old(db).user_rows(),
        match credentials_of(find_user(old(db).user_rows(), req.username@), req.password@) {
            Err(cause) => r@ == failure_reply(cause) && final(db).session_rows() == old(
                db,
            ).session_rows(),
            Ok(user_id) => if r@.status == 200 {
                &&& r@.cookie.is_some()
                &&& r@ == login_reply_of(
                    base_url@,
                    Ok(r@.cookie.unwrap().value),
                )
                &&& is_token(r@.cookie.unwrap().value)
                &&& !has_token(old(db).session_rows(), r@.cookie.unwrap().value)
                &&& final(db).session_rows() == old(db).session_rows().push(
                    final(db).session_rows().last(),
                )
                &&& is_issued_to(final(db).session_rows().last(), user_id, r@.cookie.unwrap().value)
            } else {
                &&& r@ == (ReplyView { status: 500, body: "Internal server error"@, cookie: None })
                &&& final(db).session_rows() == old(db).session_rows()
            },
        },
{
    let outcome = crate::services::login(db, req);
    login_reply(base_url, outcome)
}

/// The logout endpoint. A request without an authenticated identity or
/// without its token is unauthorized and changes nothing. Otherwise the
/// session that matches both is deleted; where there is none, the reply is
/// not-found.
pub fn logout(db: &mut Database, base_url: &str, request: &RequestContext) -> (r: HttpReply)
    requires
        old(db).well_formed(),
    ensures
        final(db).well_formed(),
        final(db).user_rows() == old(db).user_rows(),
        match (request.user_id, request.token_view()) {
            (Some(user_id), Some(token)) => {
                &&& final(db).session_rows() == without_owned(
                    old(db).session_rows(),
                    user_id,
                    token,
                )
                &&& r@ == logout_reply_of(
                    base_url@,
                    if has_owned(old(db).session_rows(), user_id, token) {
                        Ok(())
                    } else {
                        Err(crate::services::session_not_found())
                    },
                )
            },
            _ => r@ == unauthorized_reply() && final(db).session_rows() == old(db).session_rows(),
        },
{
    let user_id = match request.authenticated_user_id() {
        Some(id) => id,
        None => {
            return HttpReply { status: 401, body: "Unauthorized".to_owned(), cookie: None };
        },
    };
    let token = match request.token() {
        Some(text) => text,
        None => {
            return HttpReply { status: 401, body: "Unauthorized".to_owned(), cookie: None };
        },
    };
    let outcome = crate::services::logout(db, user_id, token);
    logout_reply(base_url, outcome)
}

/// The account-creation endpoint. A request without an authenticated identity
/// is unauthorized; an identity other than the designated administrator is
/// forbidden; in both cases nothing is stored. Otherwise the reply carries the
/// identifier of the account that was stored, or reports why none was.
pub fn create_user(db: &mut Database, new_user: &NewUserRequest, request: &RequestContext) -> (r:
    HttpReply)
    requires
        old(db).well_formed(),
    ensures
        final(db).well_formed(),
        final(db).session_rows() == old(db).session_rows(),
        match request.user_id {
            None => r@ == unauthorized_reply() && final(db).user_rows() == old(db).user_rows(),
            Some(user_id) => if !is_superuser(user_id) {
                r@ == failure_reply(forbidden()) && final(db).user_rows() == old(db).user_rows()
            } else if r@.status == 201 {
                &&& final(db).user_rows().len() == old(db).user_rows().len() + 1
                &&& final(db).user_rows() == old(db).user_rows().push(final(db).user_rows().last())
                &&& final(db).user_rows().last().username == new_user.username@
                &&& final(db).user_rows().last().full_name == new_user.full_name@
                &&& r@ == creation_reply_of(Ok(final(db).user_rows().last().id))
            } else {
                &&& final(db).user_rows() == old(db).user_rows()
                &&& r@.cookie.is_none()
                &&& r@.status == 500 || (r@.status == 422 && crate::queries::has_username(
                    old(db).user_rows(),
                    new_user.username@,
                ))
            },
        },
{
    let user_id = match request.authenticated_user_id() {
        Some(id) => id,
        None => {
            return HttpReply { status: 401, body: "Unauthorized".to_owned(), cookie: None };
        },
    };
    let outcome = crate::services::create_user(
        db,
        user_id,
        new_user.username.clone(),
        new_user.password.clone(),
        new_user.full_name.clone(),
    );
    create_user_reply(outcome)
}

} // verus!
