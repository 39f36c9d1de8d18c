//! The authentication service: login, logout and the privileged creation of
//! accounts, with the error taxonomy they share.

use vstd::prelude::*;
use crate::laws::{logged_out_token_is_rejected, new_session_authenticates};
use crate::middleware::{authenticated_as, AuthErrorView};
use crate::models::{NewSession, NewUser, SessionView, User, UserView};
use crate::primitives::{
    bcrypt_verify, fresh_uuid, hash_digest, is_alphanumeric, now_micros, parse_uuid,
    random_alphanumeric, uuid_parse, verify_digest,
};
use crate::queries::{
    create_new_session, create_new_user, delete_session, find_user, get_user_by_username,
    has_owned, has_session_id, has_token, has_user_id, has_username, without_owned, Database,
    DbError, DbErrorView, QueryFailure,
};
use crate::requests::LoginRequest;

verus! {

/// How long a session lasts: 24 hours, in microseconds.
pub const SESSION_LIFETIME_MICROS: i64 = 86_400_000_000;

/// How many characters a session token has.
pub const TOKEN_LENGTH: usize = 30;

/// The identifier of the one account that may create accounts.
pub const SUPERUSER_ID_STR: &'static str = "7763abad-f33d-4308-b89d-8897e9037d16";

/// A failure of the service layer.
#[derive(Debug)]
pub enum ServiceError {
    /// The record store failed.
    DbError(DbError),
    /// The input is malformed or conflicts with what is stored.
    ValidationError(String),
    /// The caller did not prove who it is.
    Unauthorized(String),
    /// The caller is known but may not do this.
    Forbidden(String),
    /// What was asked for does not exist.
    NotFound(String),
    /// An unexpected internal failure.
    Other(String),
}

/// A service failure as the contracts see it.
pub enum ServiceErrorView {
    DbError(DbErrorView),
    ValidationError(Seq<char>),
    Unauthorized(Seq<char>),
    Forbidden(Seq<char>),
    NotFound(Seq<char>),
    Other(Seq<char>),
}

impl View for ServiceError {
    type V = ServiceErrorView;

    open spec fn view(&self) -> ServiceErrorView {
        match self {
            ServiceError::DbError(e) => ServiceErrorView::DbError(e@),
            ServiceError::ValidationError(text) => ServiceErrorView::ValidationError(text@),
            ServiceError::Unauthorized(text) => ServiceErrorView::Unauthorized(text@),
            ServiceError::Forbidden(text) => ServiceErrorView::Forbidden(text@),
            ServiceError::NotFound(text) => ServiceErrorView::NotFound(text@),
            ServiceError::Other(text) => ServiceErrorView::Other(text@),
        }
    }
}

impl ServiceErrorView {
    /// The HTTP status that reports the failure.
    pub open spec fn status(self) -> u16 {
        match self {
            ServiceErrorView::DbError(_) => 500,
            ServiceErrorView::ValidationError(_) => 422,
            ServiceErrorView::Unauthorized(_) => 401,
            ServiceErrorView::Forbidden(_) => 403,
            ServiceErrorView::NotFound(_) => 404,
            ServiceErrorView::Other(_) => 500,
        }
    }

    /// The text shown for the failure.
    pub open spec fn text(self) -> Seq<char> {
        match self {
            ServiceErrorView::DbError(e) => "Database error: "@ + e.text(),
            ServiceErrorView::ValidationError(text) => "Validation error: "@ + text,
            ServiceErrorView::Unauthorized(text) => "Unauthorized: "@ + text,
            ServiceErrorView::Forbidden(text) => "Forbidden: "@ + text,
            ServiceErrorView::NotFound(text) => "Not found: "@ + text,
            ServiceErrorView::Other(text) => "Internal server error: "@ + text,
        }
    }
}

impl ServiceError {
    /// The HTTP status that reports the failure.
    pub fn status_code(&self) -> (r: u16)
        ensures
            r == self@.status(),
    {
        match self {
            ServiceError::DbError(_) => 500,
            ServiceError::ValidationError(_) => 422,
            ServiceError::Unauthorized(_) => 401,
            ServiceError::Forbidden(_) => 403,
            ServiceError::NotFound(_) => 404,
            ServiceError::Other(_) => 500,
        }
    }

    /// The text shown for the failure.
    pub fn message(&self) -> (r: String)
        ensures
            r@ == self@.text(),
    {
        match self {
            ServiceError::DbError(e) => {
                let detail = e.message();
                "Database error: ".to_owned().concat(detail.as_str())
            },
            ServiceError::ValidationError(text) => {
                "Validation error: ".to_owned().concat(text.as_str())
            },
            ServiceError::Unauthorized(text) => "Unauthorized: ".to_owned().concat(text.as_str()),
            ServiceError::Forbidden(text) => "Forbidden: ".to_owned().concat(text.as_str()),
            ServiceError::NotFound(text) => "Not found: ".to_owned().concat(text.as_str()),
            ServiceError::Other(text) => "Internal server error: ".to_owned().concat(text.as_str()),
        }
    }
}

impl From<DbError> for ServiceError {
    fn from(err: DbError) -> (r: Self) {
        ServiceError::DbError(err)
    }
}

impl vstd::std_specs::convert::FromSpecImpl<DbError> for ServiceError {
    open spec fn obeys_from_spec() -> bool {
        true
    }

    open spec fn from_spec(err: DbError) -> Self {
        ServiceError::DbError(err)
    }
}

/// The failure reported for an unknown username and for a wrong password alike.
pub open spec fn invalid_credentials() -> ServiceErrorView {
    ServiceErrorView::Unauthorized("Invalid username or password"@)
}

/// The failure reported when the hashing primitive cannot check a password.
pub open spec fn verification_failed() -> ServiceErrorView {
    ServiceErrorView::Other("Password verification error"@)
}

/// What a finished password check means for the account `user_id`.
pub open spec fn verdict_of(user_id: u128, check: Option<bool>) -> Result<u128, ServiceErrorView> {
    match check {
        None => Err(verification_failed()),
        Some(false) => Err(invalid_credentials()),
        Some(true) => Ok(user_id),
    }
}

/// What presenting `password` means, given the account found under the
/// username: the account's identifier, or the failure.
pub open spec fn credentials_of(found: Option<UserView>, password: Seq<char>) -> Result<
    u128,
    ServiceErrorView,
> {
    match found {
        None => Err(invalid_credentials()),
        Some(user) => verdict_of(user.id, bcrypt_verify(password, user.hashed_password)),
    }
}

/// The session issued to `user_id` at `now`.
pub open spec fn issued_session(
    user_id: u128,
    session_id: u128,
    token: Seq<char>,
    now: i64,
) -> SessionView {
    SessionView {
        id: session_id,
        user_id: Some(user_id),
        session_token: token,
        expires_at: (now + SESSION_LIFETIME_MICROS) as i64,
        created_at: Some(now),
    }
}

/// The session was issued to `user_id` under `token` and lasts 24 hours.
pub open spec fn is_issued_to(row: SessionView, user_id: u128, token: Seq<char>) -> bool {
    &&& row.user_id == Some(user_id)
    &&& row.session_token == token
    &&& row.created_at.is_some()
    &&& row.expires_at == row.created_at.unwrap() + SESSION_LIFETIME_MICROS
}

/// A text is a session token: 30 characters, each an ASCII letter or digit.
pub open spec fn is_token(text: Seq<char>) -> bool {
    &&& text.len() == TOKEN_LENGTH
    &&& forall|i: int| 0 <= i < text.len() ==> is_alphanumeric(#[trigger] text[i])
}

/// The account `user_id` is the designated administrator.
pub open spec fn is_superuser(user_id: u128) -> bool {
    uuid_parse(SUPERUSER_ID_STR@) == Some(user_id)
}

/// The failure reported to an account that may not create accounts.
pub open spec fn forbidden() -> ServiceErrorView {
    ServiceErrorView::Forbidden("Forbidden"@)
}

/// The failure reported when no session matches at logout.
pub open spec fn session_not_found() -> ServiceErrorView {
    ServiceErrorView::NotFound("Session not found"@)
}

/// The outcome of a login that would store its session under the given
/// identifier and token: the token, or the failure.
pub open spec fn login_result(
    users: Seq<UserView>,
    sessions: Seq<SessionView>,
    username: Seq<char>,
    password: Seq<char>,
    session_id: u128,
    token: Seq<char>,
) -> Result<Seq<char>, ServiceErrorView> {
    match credentials_of(find_user(users, username), password) {
        Err(e) => Err(e),
        Ok(_) => if has_session_id(sessions, session_id) {
            Err(ServiceErrorView::DbError(DbErrorView::QueryError(QueryFailure::DuplicateId)))
        } else if has_token(sessions, token) {
            Err(ServiceErrorView::DbError(DbErrorView::QueryError(QueryFailure::DuplicateToken)))
        } else {
            Ok(token)
        },
    }
}

/// The sessions after a login at `now` under the given session identifier and
/// token: one row more where the login succeeds, unchanged otherwise.
pub open spec fn login_sessions(
    users: Seq<UserView>,
    sessions: Seq<SessionView>,
    username: Seq<char>,
    password: Seq<char>,
    now: i64,
    session_id: u128,
    token: Seq<char>,
) -> Seq<SessionView> {
    match credentials_of(find_user(users, username), password) {
        Ok(user_id) => if has_session_id(sessions, session_id) || has_token(sessions, token) {
            sessions
        } else {
            sessions.push(issued_session(user_id, session_id, token, now))
        },
        Err(_) => sessions,
    }
}

/// Turns the result of the hashing primitive's check into the answer of the
/// password hasher: a failure of the primitive is an internal failure, never a
/// mismatch.
pub fn verification_outcome(check: Result<bool, bcrypt::BcryptError>) -> (r: Result<
    bool,
    ServiceError,
>)
    ensures
        match check {
            Ok(matched) => r.is_ok() && r.unwrap() == matched,
            Err(_) => r.is_err() && r.unwrap_err()@ == verification_failed(),
        },
{
    match check {
        Ok(matched) => Ok(matched),
        Err(_) => Err(ServiceError::Other("Password verification error".to_owned())),
    }
}

/// Verifies a password against a stored digest.
pub fn verify_password(password: &str, digest: &str) -> (r: Result<bool, ServiceError>)
    ensures
        match bcrypt_verify(password@, digest@) {
            Some(matched) => r.is_ok() && r.unwrap() == matched,
            None => r.is_err() && r.unwrap_err()@ == verification_failed(),
        },
{
    verification_outcome(verify_digest(password, digest))
}

/// Checks `password` against the account found under the presented username.
/// An absent account and a wrong password give the same failure.
pub fn check_credentials(found: Option<&User>, password: &str) -> (r: Result<u128, ServiceError>)
    ensures
        match r {
            Ok(id) => credentials_of(
                match found {
                    Some(user) => Some(user@),
                    None => None,
                },
                password@,
            ) == Ok::<u128, ServiceErrorView>(id),
            Err(e) => credentials_of(
                match found {
                    Some(user) => Some(user@),
                    None => None,
                },
                password@,
            ) == Err::<u128, ServiceErrorView>(e@),
        },
{
    match found {
        None => Err(ServiceError::Unauthorized("Invalid username or password".to_owned())),
        Some(user) => match verify_password(password, user.hashed_password.as_str()) {
            Ok(true) => Ok(user.id),
            Ok(false) => Err(
                ServiceError::Unauthorized("Invalid username or password".to_owned()),
            ),
            Err(e) => Err(e),
        },
    }
}

/// Draws a fresh session token.
pub fn generate_token() -> (r: String)
    ensures
        is_token(r@),
{
    let mut token = String::new();
    let mut i: usize = 0;
    while i < TOKEN_LENGTH
        invariant
            i <= TOKEN_LENGTH,
            token@.len() == i,
            forall|j: int| 0 <= j < token@.len() ==> is_alphanumeric(#[trigger] token@[j]),
        decreases TOKEN_LENGTH - i,
    {
        let byte = random_alphanumeric();
        token.push(byte as char);
        i += 1;
    }
    token
}

/// The session to store for `user_id` at `now`: it expires 24 hours later.
pub fn new_session(user_id: u128, session_id: u128, token: String, now: i64) -> (r: NewSession)
    requires
        now <= i64::MAX - SESSION_LIFETIME_MICROS,
    ensures
        r@ == issued_session(user_id, session_id, token@, now),
        r@.well_formed(),
        is_issued_to(r@, user_id, token@),
{
    NewSession {
        id: session_id,
        user_id: Some(user_id),
        session_token: token,
        expires_at: now + SESSION_LIFETIME_MICROS,
        created_at: Some(now),
    }
}

/// Turns the result of storing a session into the result of the login: the
/// token is released only once the session is stored.
pub fn session_outcome(stored: Result<usize, DbError>, token: String) -> (r: Result<
    String,
    ServiceError,
>)
    ensures
        match r {
            Ok(t) => stored.is_ok() && t@ == token@,
            Err(e) => match stored {
                Ok(_) => false,
                Err(cause) => e@ == ServiceErrorView::DbError(cause@),
            },
        },
{
    match stored {
        Ok(_) => Ok(token),
        Err(cause) => Err(ServiceError::DbError(cause)),
    }
}

/// Logs in with a given clock reading, session identifier and token: checks
/// the credentials and, where they hold, stores a session that expires 24
/// hours after `now` and hands back the token.
pub fn login_with(
    db: &mut Database,
    req: &LoginRequest,
    now: i64,
    session_id: u128,
    token: String,
) -> (r: Result<String, ServiceError>)
    requires
        old(db).well_formed(),
        now <= i64::MAX - SESSION_LIFETIME_MICROS,
    ensures
        final(db).well_formed(),
        final(db).user_rows() == old(db).user_rows(),
        final(db).session_rows() == login_sessions(
            old(db).user_rows(),
            old(db).session_rows(),
            req.username@,
            req.password@,
            now,
            session_id,
            token@,
        ),
        match r {
            Ok(t) => login_result(
                old(db).user_rows(),
                old(db).session_rows(),
                req.username@,
                req.password@,
                session_id,
                token@,
            ) == Ok::<Seq<char>, ServiceErrorView>(t@),
            Err(e) => login_result(
                old(db).user_rows(),
                old(db).session_rows(),
                req.username@,
                req.password@,
                session_id,
                token@,
            ) == Err::<Seq<char>, ServiceErrorView>(e@),
        },
{
    let found = match get_user_by_username(db, req.username.as_str()) {
        Ok(found) => found,
        Err(cause) => {
            return Err(ServiceError::DbError(cause));
        },
    };
    let user_id = match check_credentials(found.as_ref(), req.password.as_str()) {
        Ok(id) => id,
        Err(e) => {
            return Err(e);
        },
    };
    let session = new_session(user_id, session_id, token.clone(), now);
    let stored = create_new_session(db, &session);
    session_outcome(stored, token)
}

/// Logs in: checks the credentials and, where they hold, stores a session
/// under a fresh token that expires 24 hours from now, and hands back the
/// token. Until the session expires the token resolves to the account that
/// logged in. Where the credentials fail, nothing is stored.
pub fn login(db: &mut Database, req: &LoginRequest) -> (r: Result<String, ServiceError>)
    requires
        old(db).well_formed(),
    ensures
        final(db).well_formed(),
        final(db).user_rows() == old(db).user_rows(),
        match r {
            Ok(token) => {
                &&& is_token(token@)
                &&& !has_token(old(db).session_rows(), token@)
                &&& final(db).session_rows().len() == old(db).session_rows().len() + 1
                &&& final(db).session_rows() == old(db).session_rows().push(
                    final(db).session_rows().last(),
                )
                &&& match credentials_of(
                    find_user(old(db).user_rows(), req.username@),
                    req.password@,
                ) {
                    Ok(user_id) => {
                        &&& is_issued_to(final(db).session_rows().last(), user_id, token@)
                        &&& forall|at: i64|
                            at < final(db).session_rows().last().expires_at
                                ==> #[trigger] authenticated_as(
                                final(db).session_rows(),
                                Some(token@),
                                at,
                            ) == Ok::<u128, AuthErrorView>(user_id)
                    },
                    Err(_) => false,
                }
            },
            Err(e) => {
                &&& final(db).session_rows() == old(db).session_rows()
                &&& match credentials_of(
                    find_user(old(db).user_rows(), req.username@),
                    req.password@,
                ) {
                    Ok(_) => e@ is DbError || e@ == ServiceErrorView::Other(
                        "Clock out of range"@,
                    ),
                    Err(cause) => e@ == cause,
                }
            },
        },
{
    let found = match get_user_by_username(db, req.username.as_str()) {
        Ok(found) => found,
        Err(cause) => {
            return Err(ServiceError::DbError(cause));
        },
    };
    if let Err(e) = check_credentials(found.as_ref(), req.password.as_str()) {
        return Err(e);
    }
    let token = generate_token();
    let now = now_micros();
    if now > i64::MAX - SESSION_LIFETIME_MICROS {
        return Err(ServiceError::Other("Clock out of range".to_owned()));
    }
    let session_id = fresh_uuid();
    let outcome = login_with(db, req, now, session_id, token);
    proof {
        if outcome.is_ok() {
            let before = old(db).session_rows();
            let issued = db.session_rows().last();
            let user_id = issued.user_id.unwrap();
            assert forall|at: i64| at < issued.expires_at implies #[trigger] authenticated_as(
                db.session_rows(),
                Some(issued.session_token),
                at,
            ) == Ok::<u128, AuthErrorView>(user_id) by {
                new_session_authenticates(before, issued, user_id, at);
            }
        }
    }
    outcome
}

/// Turns the number of sessions deleted into the result of the logout.
pub fn logout_outcome(deleted: Result<usize, DbError>) -> (r: Result<(), ServiceError>)
    ensures
        match r {
            Ok(_) => match deleted {
                Ok(n) => n != 0,
                Err(_) => false,
            },
            Err(e) => match deleted {
                Ok(n) => n == 0 && e@ == session_not_found(),
                Err(cause) => e@ == ServiceErrorView::DbError(cause@),
            },
        },
{
    match deleted {
        Ok(n) => if n == 0 {
            Err(ServiceError::NotFound("Session not found".to_owned()))
        } else {
            Ok(())
        },
        Err(cause) => Err(ServiceError::DbError(cause)),
    }
}

/// Logs out: deletes the session that belongs to `user_id` and carries
/// `token`, after which the token no longer authenticates. Sessions of other
/// accounts stay, whatever their token.
pub fn logout(db: &mut Database, user_id: u128, token: &str) -> (r: Result<(), ServiceError>)
    requires
        old(db).well_formed(),
    ensures
        final(db).well_formed(),
        final(db).user_rows() == old(db).user_rows(),
        final(db).session_rows() == without_owned(old(db).session_rows(), user_id, token@),
        !has_owned(final(db).session_rows(), user_id, token@),
        match r {
            Ok(_) => {
                &&& has_owned(old(db).session_rows(), user_id, token@)
                &&& final(db).session_rows().len() + 1 == old(db).session_rows().len()
                &&& forall|at: i64| #[trigger]
                    authenticated_as(final(db).session_rows(), Some(token@), at) == Err::<
                        u128,
                        AuthErrorView,
                    >(AuthErrorView::SessionNotFound)
            },
            Err(e) => {
                &&& !has_owned(old(db).session_rows(), user_id, token@)
                &&& e@ == session_not_found()
                &&& final(db).session_rows() == old(db).session_rows()
            },
        },
{
    let deleted = delete_session(db, user_id, token);
    proof {
        if has_owned(old(db).session_rows(), user_id, token@) {
            assert forall|at: i64| #[trigger]
                authenticated_as(db.session_rows(), Some(token@), at) == Err::<u128, AuthErrorView>(
                    AuthErrorView::SessionNotFound,
                ) by {
                logged_out_token_is_rejected(old(db).session_rows(), user_id, token@, at);
            }
        }
    }
    logout_outcome(deleted)
}

/// The identifier of the designated administrator, read from its text.
pub fn superuser_id() -> (r: Option<u128>)
    ensures
        r == uuid_parse(SUPERUSER_ID_STR@),
{
    parse_uuid(SUPERUSER_ID_STR)
}

/// Whether `user_id` equals the administrator identifier `admin`.
pub fn authorize_as(admin: Option<u128>, user_id: u128) -> (r: Result<(), ServiceError>)
    ensures
        match r {
            Ok(_) => admin == Some(user_id),
            Err(e) => admin != Some(user_id) && e@ == forbidden(),
        },
{
    match admin {
        Some(id) => if id == user_id {
            Ok(())
        } else {
            Err(ServiceError::Forbidden("Forbidden".to_owned()))
        },
        None => Err(ServiceError::Forbidden("Forbidden".to_owned())),
    }
}

/// The authorization policy: only the designated administrator may create
/// accounts.
pub fn authorize_account_creation(user_id: u128) -> (r: Result<(), ServiceError>)
    ensures
        match r {
            Ok(_) => is_superuser(user_id),
            Err(e) => !is_superuser(user_id) && e@ == forbidden(),
        },
{
    authorize_as(superuser_id(), user_id)
}

/// Turns the result of hashing into the digest to store, or an internal
/// failure.
pub fn hashing_outcome(hashed: Result<String, bcrypt::BcryptError>) -> (r: Result<
    String,
    ServiceError,
>)
    ensures
        match r {
            Ok(digest) => hashed == Ok::<String, bcrypt::BcryptError>(digest),
            Err(e) => hashed.is_err() && e@ == ServiceErrorView::Other("Failed to hash password"@),
        },
{
    match hashed {
        Ok(digest) => Ok(digest),
        Err(_) => Err(ServiceError::Other("Failed to hash password".to_owned())),
    }
}

/// Hashes a password for storage. The digest is salted at random; whichever
/// comes back verifies against the password.
pub fn hash_password(password: &str) -> (r: Result<String, ServiceError>)
    ensures
        match r {
            Ok(digest) => bcrypt_verify(password@, digest@) == Some(true),
            Err(e) => e@ == ServiceErrorView::Other("Failed to hash password"@),
        },
{
    hashing_outcome(hash_digest(password))
}

/// The account to store for the given details: no audit timestamps are set.
pub fn new_user(id: u128, username: String, hashed_password: String, full_name: String) -> (r:
    NewUser)
    ensures
        r@ == (UserView {
            id,
            username: username@,
            hashed_password: hashed_password@,
            full_name: full_name@,
            created_at: None,
            updated_at: None,
        }),
{
    NewUser { id, username, hashed_password, full_name, created_at: None, updated_at: None }
}

/// The failure reported when the username is already taken.
pub open spec fn username_taken() -> ServiceErrorView {
    ServiceErrorView::ValidationError("Username already exists"@)
}

/// Turns the result of storing an account into the result of its creation: a
/// taken username is a validation failure, any other failure is the store's.
pub fn creation_outcome(stored: Result<User, DbError>) -> (r: Result<User, ServiceError>)
    ensures
        match r {
            Ok(user) => stored == Ok::<User, DbError>(user),
            Err(e) => match stored {
                Ok(_) => false,
                Err(cause) => if cause@ == DbErrorView::QueryError(
                    QueryFailure::DuplicateUsername,
                ) {
                    e@ == username_taken()
                } else {
                    e@ == ServiceErrorView::DbError(cause@)
                },
            },
        },
{
    match stored {
        Ok(user) => Ok(user),
        Err(DbError::QueryError(QueryFailure::DuplicateUsername)) => Err(
            ServiceError::ValidationError("Username already exists".to_owned()),
        ),
        Err(cause) => Err(ServiceError::DbError(cause)),
    }
}

/// Stores the account `record` and hands back the stored record.
pub fn store_user(db: &mut Database, record: &NewUser) -> (r: Result<User, ServiceError>)
    requires
        old(db).well_formed(),
    ensures
        final(db).well_formed(),
        final(db).session_rows() == old(db).session_rows(),
        match r {
            Ok(user) => {
                &&& user@ == record@
                &&& !has_user_id(old(db).user_rows(), record.id)
                &&& !has_username(old(db).user_rows(), record@.username)
                &&& final(db).user_rows() == old(db).user_rows().push(record@)
            },
            Err(e) => {
                &&& final(db).user_rows() == old(db).user_rows()
                &&& if has_user_id(old(db).user_rows(), record.id) {
                    e@ == ServiceErrorView::DbError(
                        DbErrorView::QueryError(QueryFailure::DuplicateId),
                    )
                } else {
                    has_username(old(db).user_rows(), record@.username) && e@ == username_taken()
                }
            },
        },
{
    let stored = create_new_user(db, record);
    creation_outcome(stored)
}

/// Creates an account on behalf of `user_id` under the administrator `admin`.
/// The policy is checked first: for anyone but the administrator nothing is
/// hashed and nothing is stored.
pub fn create_user_under(
    db: &mut Database,
    admin: Option<u128>,
    user_id: u128,
    new_username: String,
    new_password: String,
    new_full_name: String,
) -> (r: Result<User, ServiceError>)
    requires
        old(db).well_formed(),
    ensures
        final(db).well_formed(),
        final(db).session_rows() == old(db).session_rows(),
        match r {
            Ok(user) => {
                &&& admin == Some(user_id)
                &&& user@.username == new_username@
                &&& user@.full_name == new_full_name@
                &&& bcrypt_verify(new_password@, user@.hashed_password) == Some(true)
                &&& user@.created_at.is_none()
                &&& user@.updated_at.is_none()
                &&& !has_user_id(old(db).user_rows(), user@.id)
                &&& !has_username(old(db).user_rows(), new_username@)
                &&& final(db).user_rows() == old(db).user_rows().push(user@)
            },
            Err(e) => {
                &&& final(db).user_rows() == old(db).user_rows()
                &&& if admin != Some(user_id) {
                    e@ == forbidden()
                } else {
                    ||| e@ == ServiceErrorView::Other("Failed to hash password"@)
                    ||| e@ == ServiceErrorView::DbError(
                        DbErrorView::QueryError(QueryFailure::DuplicateId),
                    )
                    ||| has_username(old(db).user_rows(), new_username@) && e@ == username_taken()
                }
            },
        },
{
    if let Err(e) = authorize_as(admin, user_id) {
        return Err(e);
    }
    let digest = match hash_password(new_password.as_str()) {
        Ok(digest) => digest,
        Err(e) => {
            return Err(e);
        },
    };
    let record = new_user(fresh_uuid(), new_username, digest, new_full_name);
    store_user(db, &record)
}

/// Creates an account on behalf of `user_id`. Only the designated
/// administrator may do so; for anyone else nothing is hashed and nothing is
/// stored.
pub fn create_user(
    db: &mut Database,
    user_id: u128,
    new_username: String,
    new_password: String,
    new_full_name: String,
) -> (r: Result<User, ServiceError>)
    requires
        old(db).well_formed(),
    ensures
        final(db).well_formed(),
        final(db).session_rows() == old(db).session_rows(),
        match r {
            Ok(user) => {
                &&& is_superuser(user_id)
                &&& user@.username == new_username@
                &&& user@.full_name == new_full_name@
                &&& bcrypt_verify(new_password@, user@.hashed_password) == Some(true)
                &&& user@.created_at.is_none()
                &&& user@.updated_at.is_none()
                &&& !has_user_id(old(db).user_rows(), user@.id)
                &&& !has_username(old(db).user_rows(), new_username@)
                &&& final(db).user_rows() == old(db).user_rows().push(user@)
            },
            Err(e) => {
                &&& final(db).user_rows() == old(db).user_rows()
                &&& if !is_superuser(user_id) {
                    e@ == forbidden()
                } else {
                    ||| e@ == ServiceErrorView::Other("Failed to hash password"@)
                    ||| e@ == ServiceErrorView::DbError(
                        DbErrorView::QueryError(QueryFailure::DuplicateId),
                    )
                    ||| has_username(old(db).user_rows(), new_username@) && e@ == username_taken()
                }
            },
        },
{
    create_user_under(db, superuser_id(), user_id, new_username, new_password, new_full_name)
}

} // verus!
