//! The record store: the accounts and the sessions, with the lookups, inserts
//! and deletes that the authentication core performs on them.
//!
//! Contracts speak of the rows as sequences of views, in insertion order.

use vstd::prelude::*;
use crate::models::{NewSession, NewUser, Session, SessionView, User, UserView};

verus! {

/// Why a single statement failed.
#[derive(Debug, Clone, Copy, PartialEq, Eq, Structural)]
pub enum QueryFailure {
    /// A row that had to exist was not there.
    NotFound,
    /// Another row already has the identifier.
    DuplicateId,
    /// Another account already has the username.
    DuplicateUsername,
    /// Another session already has the token.
    DuplicateToken,
    /// Any other failure reported by the store.
    Other,
}

/// A failure of the record store.
#[derive(Debug)]
pub enum DbError {
    /// No connection to the store could be had.
    ConnectionError(String),
    /// The store refused or failed a statement.
    QueryError(QueryFailure),
    /// A failure described only by its text.
    StdError(String),
}

/// A store failure as the contracts see it.
pub enum DbErrorView {
    ConnectionError(Seq<char>),
    QueryError(QueryFailure),
    StdError(Seq<char>),
}

impl View for DbError {
    type V = DbErrorView;

    open spec fn view(&self) -> DbErrorView {
        match self {
            DbError::ConnectionError(text) => DbErrorView::ConnectionError(text@),
            DbError::QueryError(failure) => DbErrorView::QueryError(*failure),
            DbError::StdError(text) => DbErrorView::StdError(text@),
        }
    }
}

impl QueryFailure {
    /// The text that describes the failure.
    pub open spec fn text(self) -> Seq<char> {
        match self {
            QueryFailure::NotFound => "Record not found"@,
            QueryFailure::DuplicateId => "duplicate key value violates unique constraint on id"@,
            QueryFailure::DuplicateUsername =>
                "duplicate key value violates unique constraint on username"@,
            QueryFailure::DuplicateToken =>
                "duplicate key value violates unique constraint on session_token"@,
            QueryFailure::Other => "statement failed"@,
        }
    }

    /// Describes the failure in words.
    pub fn message(&self) -> (r: String)
        ensures
            r@ == self.text(),
    {
        match self {
            QueryFailure::NotFound => "Record not found".to_owned(),
            QueryFailure::DuplicateId =>
                "duplicate key value violates unique constraint on id".to_owned(),
            QueryFailure::DuplicateUsername =>
                "duplicate key value violates unique constraint on username".to_owned(),
            QueryFailure::DuplicateToken =>
                "duplicate key value violates unique constraint on session_token".to_owned(),
            QueryFailure::Other => "statement failed".to_owned(),
        }
    }
}

impl DbErrorView {
    /// The text shown for the failure.
    pub open spec fn text(self) -> Seq<char> {
        match self {
            DbErrorView::ConnectionError(detail) => "Database connection error: "@ + detail,
            DbErrorView::QueryError(failure) => "Query execution error: "@ + failure.text(),
            DbErrorView::StdError(detail) => detail,
        }
    }
}

impl DbError {
    /// The text shown for the failure.
    pub fn message(&self) -> (r: String)
        ensures
            r@ == self@.text(),
    {
        match self {
            DbError::ConnectionError(detail) => {
                "Database connection error: ".to_owned().concat(detail.as_str())
            },
            DbError::QueryError(failure) => {
                let detail = failure.message();
                "Query execution error: ".to_owned().concat(detail.as_str())
            },
            DbError::StdError(detail) => detail.clone(),
        }
    }
}

impl Clone for DbError {
    fn clone(&self) -> (r: Self)
        ensures
            r@ == self@,
    {
        match self {
            DbError::ConnectionError(detail) => DbError::ConnectionError(detail.clone()),
            DbError::QueryError(failure) => DbError::QueryError(*failure),
            DbError::StdError(detail) => DbError::StdError(detail.clone()),
        }
    }
}

/// Some account in `rows` has the username `name`.
pub open spec fn has_username(rows: Seq<UserView>, name: Seq<char>) -> bool {
    exists|i: int| 0 <= i < rows.len() && (#[trigger] rows[i]).username == name
}

/// Some account in `rows` has the identifier `id`.
pub open spec fn has_user_id(rows: Seq<UserView>, id: u128) -> bool {
    exists|i: int| 0 <= i < rows.len() && (#[trigger] rows[i]).id == id
}

/// Row `i` is the first account of `rows` named `name`.
pub open spec fn is_first_named(rows: Seq<UserView>, name: Seq<char>, i: int) -> bool {
    &&& 0 <= i < rows.len()
    &&& rows[i].username == name
    &&& forall|j: int| 0 <= j < i ==> (#[trigger] rows[j]).username != name
}

/// The first account of `rows` named `name`, if there is one.
pub open spec fn find_user(rows: Seq<UserView>, name: Seq<char>) -> Option<UserView> {
    if has_username(rows, name) {
        Some(rows[choose|i: int| is_first_named(rows, name, i)])
    } else {
        None
    }
}

/// No two accounts share an identifier or a username.
pub open spec fn unique_users(rows: Seq<UserView>) -> bool {
    forall|i: int, j: int|
        0 <= i < j < rows.len() ==> (#[trigger] rows[i]).id != (#[trigger] rows[j]).id
            && rows[i].username != rows[j].username
}

/// Some session in `rows` has the identifier `id`.
pub open spec fn has_session_id(rows: Seq<SessionView>, id: u128) -> bool {
    exists|i: int| 0 <= i < rows.len() && (#[trigger] rows[i]).id == id
}

/// Some session in `rows` carries the token `token`.
pub open spec fn has_token(rows: Seq<SessionView>, token: Seq<char>) -> bool {
    exists|i: int| 0 <= i < rows.len() && (#[trigger] rows[i]).session_token == token
}

/// The session carries `token` and has not expired at `now`.
pub open spec fn is_live(row: SessionView, token: Seq<char>, now: i64) -> bool {
    row.session_token == token && row.active_at(now)
}

/// Some session in `rows` carries `token` and has not expired at `now`.
pub open spec fn has_live(rows: Seq<SessionView>, token: Seq<char>, now: i64) -> bool {
    exists|i: int| 0 <= i < rows.len() && is_live(#[trigger] rows[i], token, now)
}

/// Row `i` is the first session of `rows` that carries `token` and has not
/// expired at `now`.
pub open spec fn is_first_live(
    rows: Seq<SessionView>,
    token: Seq<char>,
    now: i64,
    i: int,
) -> bool {
    &&& 0 <= i < rows.len()
    &&& is_live(rows[i], token, now)
    &&& forall|j: int| 0 <= j < i ==> !is_live(#[trigger] rows[j], token, now)
}

/// The first session of `rows` that carries `token` and has not expired at
/// `now`, if there is one.
pub open spec fn find_live(rows: Seq<SessionView>, token: Seq<char>, now: i64) -> Option<
    SessionView,
> {
    if has_live(rows, token, now) {
        Some(rows[choose|i: int| is_first_live(rows, token, now, i)])
    } else {
        None
    }
}

/// The session belongs to the account `owner` and carries `token`.
pub open spec fn is_owned(row: SessionView, owner: u128, token: Seq<char>) -> bool {
    row.user_id == Some(owner) && row.session_token == token
}

/// Some session in `rows` belongs to `owner` and carries `token`.
pub open spec fn has_owned(rows: Seq<SessionView>, owner: u128, token: Seq<char>) -> bool {
    exists|i: int| 0 <= i < rows.len() && is_owned(#[trigger] rows[i], owner, token)
}

/// Row `i` is the first session of `rows` that belongs to `owner` and carries
/// `token`.
pub open spec fn is_first_owned(
    rows: Seq<SessionView>,
    owner: u128,
    token: Seq<char>,
    i: int,
) -> bool {
    &&& 0 <= i < rows.len()
    &&& is_owned(rows[i], owner, token)
    &&& forall|j: int| 0 <= j < i ==> !is_owned(#[trigger] rows[j], owner, token)
}

/// `rows` without the session that belongs to `owner` and carries `token`.
/// Tokens are unique, so at most one row leaves.
pub open spec fn without_owned(rows: Seq<SessionView>, owner: u128, token: Seq<char>) -> Seq<
    SessionView,
> {
    if has_owned(rows, owner, token) {
        rows.remove(choose|i: int| is_first_owned(rows, owner, token, i))
    } else {
        rows
    }
}

/// No two sessions share an identifier or a token, and each ends after it began.
pub open spec fn unique_sessions(rows: Seq<SessionView>) -> bool {
    &&& forall|i: int, j: int|
        0 <= i < j < rows.len() ==> (#[trigger] rows[i]).id != (#[trigger] rows[j]).id
            && rows[i].session_token != rows[j].session_token
    &&& forall|i: int| 0 <= i < rows.len() ==> (#[trigger] rows[i]).well_formed()
}

/// The credential store and the session store.
///
/// Accounts are only ever added. A session stays stored past its expiry until
/// a logout deletes it: nothing sweeps expired rows, they merely stop
/// authenticating.
pub struct Database {
    users: Vec<User>,
    sessions: Vec<Session>,
}

impl Database {
    /// The accounts, in insertion order.
    pub closed spec fn user_rows(&self) -> Seq<UserView> {
        self.users@.map_values(|u: User| u@)
    }

    /// The sessions, in insertion order.
    pub closed spec fn session_rows(&self) -> Seq<SessionView> {
        self.sessions@.map_values(|s: Session| s@)
    }

    /// Usernames, tokens and identifiers are unique, and each session ends
    /// after it began.
    pub open spec fn well_formed(&self) -> bool {
        unique_users(self.user_rows()) && unique_sessions(self.session_rows())
    }

    /// A store without rows.
    pub fn new() -> (r: Self)
        ensures
            r.well_formed(),
            r.user_rows() == Seq::<UserView>::empty(),
            r.session_rows() == Seq::<SessionView>::empty(),
    {
        let r = Database { users: Vec::new(), sessions: Vec::new() };
        assert(r.user_rows() =~= Seq::<UserView>::empty());
        assert(r.session_rows() =~= Seq::<SessionView>::empty());
        r
    }

    /// How many accounts are stored.
    pub fn user_count(&self) -> (r: usize)
        ensures
            r == self.user_rows().len(),
    {
        self.users.len()
    }

    /// How many sessions are stored, expired ones included.
    pub fn session_count(&self) -> (r: usize)
        ensures
            r == self.session_rows().len(),
    {
        self.sessions.len()
    }

    /// The session at position `index` in insertion order.
    pub fn session_at(&self, index: usize) -> (r: Option<Session>)
        ensures
            match r {
                Some(s) => {
                    &&& index < self.session_rows().len()
                    &&& s@ == self.session_rows()[index as int]
                },
                None => index >= self.session_rows().len(),
            },
    {
        if index < self.sessions.len() {
            Some(self.sessions[index].clone())
        } else {
            None
        }
    }
}

/// Fetches the account named `user_name`.
pub fn get_user_by_username(db: &Database, user_name: &str) -> (r: Result<Option<User>, DbError>)
    ensures
        match r {
            Ok(Some(user)) => find_user(db.user_rows(), user_name@) == Some(user@),
            Ok(None) => find_user(db.user_rows(), user_name@).is_none(),
            Err(_) => false,
        },
{
    let wanted = user_name.to_owned();
    let mut i: usize = 0;
    while i < db.users.len()
        invariant
            i <= db.users.len(),
            wanted@ == user_name@,
            forall|j: int| 0 <= j < i ==> (#[trigger] db.user_rows()[j]).username != user_name@,
        decreases db.users.len() - i,
    {
        if db.users[i].username == wanted {
            assert(is_first_named(db.user_rows(), user_name@, i as int));
            return Ok(Some(db.users[i].clone()));
        }
        i += 1;
    }
    Ok(None)
}

/// Stores a new session and reports how many rows were inserted.
pub fn create_new_session(db: &mut Database, session_data: &NewSession) -> (r: Result<
    usize,
    DbError,
>)
    requires
        old(db).well_formed(),
        session_data@.well_formed(),
    ensures
        final(db).well_formed(),
        final(db).user_rows() == old(db).user_rows(),
        match r {
            Ok(n) => {
                &&& n == 1
                &&& !has_session_id(old(db).session_rows(), session_data.id)
                &&& !has_token(old(db).session_rows(), session_data@.session_token)
                &&& final(db).session_rows() == old(db).session_rows().push(session_data@)
            },
            Err(e) => {
                &&& final(db).session_rows() == old(db).session_rows()
                &&& if has_session_id(old(db).session_rows(), session_data.id) {
                    e@ == DbErrorView::QueryError(QueryFailure::DuplicateId)
                } else {
                    &&& has_token(old(db).session_rows(), session_data@.session_token)
                    &&& e@ == DbErrorView::QueryError(QueryFailure::DuplicateToken)
                }
            },
        },
{
    let mut i: usize = 0;
    while i < db.sessions.len()
        invariant
            *db == *old(db),
            db.well_formed(),
            i <= db.sessions.len(),
            forall|j: int| 0 <= j < i ==> (#[trigger] db.session_rows()[j]).id != session_data.id,
        decreases db.sessions.len() - i,
    {
        if db.sessions[i].id == session_data.id {
            assert(db.session_rows()[i as int].id == session_data.id);
            return Err(DbError::QueryError(QueryFailure::DuplicateId));
        }
        i += 1;
    }
    let mut k: usize = 0;
    while k < db.sessions.len()
        invariant
            *db == *old(db),
            db.well_formed(),
            k <= db.sessions.len(),
            !has_session_id(db.session_rows(), session_data.id),
            forall|j: int|
                0 <= j < k ==> (#[trigger] db.session_rows()[j]).session_token
                    != session_data@.session_token,
        decreases db.sessions.len() - k,
    {
        if db.sessions[k].session_token == session_data.session_token {
            assert(db.session_rows()[k as int].session_token == session_data@.session_token);
            return Err(DbError::QueryError(QueryFailure::DuplicateToken));
        }
        k += 1;
    }
    db.sessions.push(Session::from_new(session_data));
    assert(db.session_rows() =~= old(db).session_rows().push(session_data@));
    Ok(1)
}

/// Fetches the session that carries `token` and has not expired at
/// `current_time`.
pub fn get_active_session_by_token(db: &Database, token: &str, current_time: i64) -> (r: Result<
    Option<Session>,
    DbError,
>)
    ensures
        match r {
            Ok(Some(session)) => find_live(db.session_rows(), token@, current_time) == Some(
                session@,
            ),
            Ok(None) => find_live(db.session_rows(), token@, current_time).is_none(),
            Err(_) => false,
        },
{
    let wanted = token.to_owned();
    let mut i: usize = 0;
    while i < db.sessions.len()
        invariant
            i <= db.sessions.len(),
            wanted@ == token@,
            forall|j: int|
                0 <= j < i ==> !is_live(#[trigger] db.session_rows()[j], token@, current_time),
        decreases db.sessions.len() - i,
    {
        if db.sessions[i].expires_at > current_time && db.sessions[i].session_token == wanted {
            assert(is_first_live(db.session_rows(), token@, current_time, i as int));
            return Ok(Some(db.sessions[i].clone()));
        }
        i += 1;
    }
    Ok(None)
}

/// Deletes the session that belongs to `user_id` and carries `token`, and
/// reports how many rows were deleted.
pub fn delete_session(db: &mut Database, user_id: u128, token: &str) -> (r: Result<usize, DbError>)
    requires
        old(db).well_formed(),
    ensures
        final(db).well_formed(),
        final(db).user_rows() == old(db).user_rows(),
        final(db).session_rows() == without_owned(old(db).session_rows(), user_id, token@),
        !has_owned(final(db).session_rows(), user_id, token@),
        match r {
            Ok(n) => n == old(db).session_rows().len() - final(db).session_rows().len() && n == (
            if has_owned(old(db).session_rows(), user_id, token@) {
                1nat
            } else {
                0nat
            }),
            Err(_) => false,
        },
{
    let wanted = token.to_owned();
    let mut i: usize = 0;
    while i < db.sessions.len()
        invariant
            *db == *old(db),
            db.well_formed(),
            i <= db.sessions.len(),
            wanted@ == token@,
            forall|j: int|
                0 <= j < i ==> !is_owned(#[trigger] db.session_rows()[j], user_id, token@),
        decreases db.sessions.len() - i,
    {
        if db.sessions[i].user_id == Some(user_id) && db.sessions[i].session_token == wanted {
            assert(is_first_owned(db.session_rows(), user_id, token@, i as int));
            db.sessions.remove(i);
            proof {
                let before = old(db).session_rows();
                let after = db.session_rows();
                assert(after =~= before.remove(i as int));
                assert forall|a: int| 0 <= a < after.len() implies !is_owned(
                    #[trigger] after[a],
                    user_id,
                    token@,
                ) && after[a].well_formed() by {
                    if a < i {
                        assert(after[a] == before[a]);
                    } else {
                        assert(after[a] == before[a + 1]);
                    }
                }
                assert forall|a: int, b: int| 0 <= a < b < after.len() implies (
                #[trigger] after[a]).id != (#[trigger] after[b]).id && after[a].session_token
                    != after[b].session_token by {
                    let a0 = if a < i { a } else { a + 1 };
                    let b0 = if b < i { b } else { b + 1 };
                    assert(after[a] == before[a0]);
                    assert(after[b] == before[b0]);
                }
            }
            return Ok(1);
        }
        i += 1;
    }
    Ok(0)
}

/// Stores a new account and hands back the stored record.
pub fn create_new_user(db: &mut Database, user_data: &NewUser) -> (r: Result<User, DbError>)
    requires
        old(db).well_formed(),
    ensures
        final(db).well_formed(),
        final(db).session_rows() == old(db).session_rows(),
        match r {
            Ok(user) => {
                &&& user@ == user_data@
                &&& !has_user_id(old(db).user_rows(), user_data.id)
                &&& !has_username(old(db).user_rows(), user_data@.username)
                &&& final(db).user_rows() == old(db).user_rows().push(user_data@)
            },
            Err(e) => {
                &&& final(db).user_rows() == old(db).user_rows()
                &&& if has_user_id(old(db).user_rows(), user_data.id) {
                    e@ == DbErrorView::QueryError(QueryFailure::DuplicateId)
                } else {
                    &&& has_username(old(db).user_rows(), user_data@.username)
                    &&& e@ == DbErrorView::QueryError(QueryFailure::DuplicateUsername)
                }
            },
        },
{
    let mut i: usize = 0;
    while i < db.users.len()
        invariant
            *db == *old(db),
            db.well_formed(),
            i <= db.users.len(),
            forall|j: int| 0 <= j < i ==> (#[trigger] db.user_rows()[j]).id != user_data.id,
        decreases db.users.len() - i,
    {
        if db.users[i].id == user_data.id {
            assert(db.user_rows()[i as int].id == user_data.id);
            return Err(DbError::QueryError(QueryFailure::DuplicateId));
        }
        i += 1;
    }
    let mut k: usize = 0;
    while k < db.users.len()
        invariant
            *db == *old(db),
            db.well_formed(),
            k <= db.users.len(),
            !has_user_id(db.user_rows(), user_data.id),
            forall|j: int|
                0 <= j < k ==> (#[trigger] db.user_rows()[j]).username != user_data@.username,
        decreases db.users.len() - k,
    {
        if db.users[k].username == user_data.username {
            assert(db.user_rows()[k as int].username == user_data@.username);
            return Err(DbError::QueryError(QueryFailure::DuplicateUsername));
        }
        k += 1;
    }
    let stored = User::from_new(user_data);
    db.users.push(stored.clone());
    assert(db.user_rows() =~= old(db).user_rows().push(user_data@));
    Ok(stored)
}

} // verus!
