//! What holds of the authentication core as a whole: how login, the request
//! authenticator and logout relate.

use vstd::prelude::*;
use crate::middleware::{authenticated_as, AuthErrorView};
use crate::models::{SessionView, UserView};
use crate::primitives::bcrypt_verify;
use crate::queries::{
    find_live, find_user, has_live, has_owned, has_session_id, has_token, has_username,
    is_first_live, is_first_named, is_first_owned, is_live, is_owned, unique_sessions,
    without_owned,
};
use crate::services::{
    credentials_of, invalid_credentials, issued_session, login_result, login_sessions,
    ServiceErrorView, SESSION_LIFETIME_MICROS,
};

verus! {

/// The first live row for a token is the one that a lookup finds.
pub proof fn first_live_is_found(rows: Seq<SessionView>, token: Seq<char>, now: i64, i: int)
    requires
        is_first_live(rows, token, now, i),
    ensures
        find_live(rows, token, now) == Some(rows[i]),
{
    assert(has_live(rows, token, now));
    let c = choose|c: int| is_first_live(rows, token, now, c);
    assert(is_first_live(rows, token, now, c));
    if c < i {
        assert(!is_live(rows[c], token, now));
    }
    if i < c {
        assert(!is_live(rows[i], token, now));
    }
}

/// The first account under a username is the one that a lookup finds.
pub proof fn first_named_is_found(rows: Seq<UserView>, name: Seq<char>, i: int)
    requires
        is_first_named(rows, name, i),
    ensures
        find_user(rows, name) == Some(rows[i]),
{
    assert(has_username(rows, name));
    let c = choose|c: int| is_first_named(rows, name, c);
    assert(is_first_named(rows, name, c));
    if c < i {
        assert(rows[c].username != name);
    }
    if i < c {
        assert(rows[i].username != name);
    }
}

/// The first row owned under a token is the one that a logout removes.
pub proof fn first_owned_is_removed(rows: Seq<SessionView>, owner: u128, token: Seq<char>, i: int)
    requires
        is_first_owned(rows, owner, token, i),
    ensures
        without_owned(rows, owner, token) == rows.remove(i),
{
    assert(has_owned(rows, owner, token));
    let c = choose|c: int| is_first_owned(rows, owner, token, c);
    assert(is_first_owned(rows, owner, token, c));
    if c < i {
        assert(!is_owned(rows[c], owner, token));
    }
    if i < c {
        assert(!is_owned(rows[i], owner, token));
    }
}

/// Where some row is owned under a token, one of them is the first.
pub proof fn owned_has_first(rows: Seq<SessionView>, owner: u128, token: Seq<char>) -> (i: int)
    requires
        has_owned(rows, owner, token),
    ensures
        is_first_owned(rows, owner, token, i),
    decreases rows.len(),
{
    let w = choose|w: int| 0 <= w < rows.len() && is_owned(#[trigger] rows[w], owner, token);
    let front = rows.subrange(0, w);
    if exists|j: int| 0 <= j < w && is_owned(#[trigger] rows[j], owner, token) {
        let j = choose|j: int| 0 <= j < w && is_owned(#[trigger] rows[j], owner, token);
        assert(front[j] == rows[j]);
        assert(has_owned(front, owner, token));
        let i = owned_has_first(front, owner, token);
        assert(rows[i] == front[i]);
        assert forall|k: int| 0 <= k < i implies !is_owned(#[trigger] rows[k], owner, token) by {
            assert(rows[k] == front[k]);
        }
        i
    } else {
        w
    }
}

/// Where some row is live for a token, one of them is the first.
pub proof fn live_has_first(rows: Seq<SessionView>, token: Seq<char>, now: i64) -> (i: int)
    requires
        has_live(rows, token, now),
    ensures
        is_first_live(rows, token, now, i),
    decreases rows.len(),
{
    let w = choose|w: int| 0 <= w < rows.len() && is_live(#[trigger] rows[w], token, now);
    let front = rows.subrange(0, w);
    if exists|j: int| 0 <= j < w && is_live(#[trigger] rows[j], token, now) {
        let j = choose|j: int| 0 <= j < w && is_live(#[trigger] rows[j], token, now);
        assert(front[j] == rows[j]);
        assert(has_live(front, token, now));
        let i = live_has_first(front, token, now);
        assert(rows[i] == front[i]);
        assert forall|k: int| 0 <= k < i implies !is_live(#[trigger] rows[k], token, now) by {
            assert(rows[k] == front[k]);
        }
        i
    } else {
        w
    }
}

/// A session stored under a token that the store did not hold resolves, when
/// its token is presented before it expires, to the account it was issued to.
pub proof fn new_session_authenticates(
    rows: Seq<SessionView>,
    row: SessionView,
    user_id: u128,
    at: i64,
)
    requires
        !has_token(rows, row.session_token),
        row.user_id == Some(user_id),
        at < row.expires_at,
    ensures
        authenticated_as(rows.push(row), Some(row.session_token), at) == Ok::<u128, AuthErrorView>(
            user_id,
        ),
{
    let after = rows.push(row);
    let last = rows.len() as int;
    assert(after[last] == row);
    assert forall|j: int| 0 <= j < last implies !is_live(
        #[trigger] after[j],
        row.session_token,
        at,
    ) by {
        assert(after[j] == rows[j]);
    }
    assert(is_first_live(after, row.session_token, at, last));
    first_live_is_found(after, row.session_token, at, last);
}

/// An account stored under a username that was free is the one found under
/// that username, and the password whose digest it holds is accepted for it.
pub proof fn stored_account_has_valid_credentials(
    users: Seq<UserView>,
    user: UserView,
    password: Seq<char>,
)
    requires
        !has_username(users, user.username),
        bcrypt_verify(password, user.hashed_password) == Some(true),
    ensures
        find_user(users.push(user), user.username) == Some(user),
        credentials_of(find_user(users.push(user), user.username), password) == Ok::<
            u128,
            ServiceErrorView,
        >(user.id),
{
    let after = users.push(user);
    let last = users.len() as int;
    assert(after[last] == user);
    assert forall|j: int| 0 <= j < last implies (#[trigger] after[j]).username
        != user.username by {
        assert(after[j] == users[j]);
    }
    assert(is_first_named(after, user.username, last));
    first_named_is_found(after, user.username, last);
}

/// A login with valid credentials succeeds, and the token it returns resolves
/// to the account that logged in, at every instant before the session
/// expires. The session identifier and the token must be new to the store.
pub proof fn valid_login_authenticates(
    users: Seq<UserView>,
    sessions: Seq<SessionView>,
    user: UserView,
    password: Seq<char>,
    now: i64,
    session_id: u128,
    token: Seq<char>,
    at: i64,
)
    requires
        find_user(users, user.username) == Some(user),
        bcrypt_verify(password, user.hashed_password) == Some(true),
        !has_session_id(sessions, session_id),
        !has_token(sessions, token),
        now <= i64::MAX - SESSION_LIFETIME_MICROS,
        at < now + SESSION_LIFETIME_MICROS,
    ensures
        login_result(users, sessions, user.username, password, session_id, token) == Ok::<
            Seq<char>,
            ServiceErrorView,
        >(token),
        login_sessions(users, sessions, user.username, password, now, session_id, token)
            == sessions.push(issued_session(user.id, session_id, token, now)),
        authenticated_as(
            login_sessions(users, sessions, user.username, password, now, session_id, token),
            Some(token),
            at,
        ) == Ok::<u128, AuthErrorView>(user.id),
{
    new_session_authenticates(
        sessions,
        issued_session(user.id, session_id, token, now),
        user.id,
        at,
    );
}

/// A login under an unknown username or with a wrong password fails with the
/// same invalid-credentials failure, and stores no session.
pub proof fn rejected_login_stores_nothing(
    users: Seq<UserView>,
    sessions: Seq<SessionView>,
    username: Seq<char>,
    password: Seq<char>,
    now: i64,
    session_id: u128,
    token: Seq<char>,
)
    requires
        match find_user(users, username) {
            Some(user) => bcrypt_verify(password, user.hashed_password) == Some(false),
            None => true,
        },
    ensures
        login_result(users, sessions, username, password, session_id, token) == Err::<
            Seq<char>,
            ServiceErrorView,
        >(invalid_credentials()),
        login_sessions(users, sessions, username, password, now, session_id, token) == sessions,
        login_sessions(users, sessions, username, password, now, session_id, token).len()
            == sessions.len(),
{
}

/// A token whose sessions have all expired is rejected, though the rows are
/// still stored, and it stays rejected at every later instant.
pub proof fn expired_session_is_rejected(
    rows: Seq<SessionView>,
    token: Seq<char>,
    now: i64,
    later: i64,
)
    requires
        forall|i: int|
            0 <= i < rows.len() && (#[trigger] rows[i]).session_token == token
                ==> rows[i].expires_at <= now,
        now <= later,
    ensures
        authenticated_as(rows, Some(token), now) == Err::<u128, AuthErrorView>(
            AuthErrorView::SessionNotFound,
        ),
        authenticated_as(rows, Some(token), later) == Err::<u128, AuthErrorView>(
            AuthErrorView::SessionNotFound,
        ),
{
    assert(!has_live(rows, token, now));
    assert(!has_live(rows, token, later));
}

/// A logout removes exactly the one session that matches both the account and
/// the token, where there is one, and nothing otherwise. Every other session
/// stays, those of other accounts in particular.
pub proof fn logout_removes_only_owned(rows: Seq<SessionView>, owner: u128, token: Seq<char>)
    requires
        unique_sessions(rows),
    ensures
        !has_owned(rows, owner, token) ==> without_owned(rows, owner, token) == rows,
        has_owned(rows, owner, token) ==> exists|i: int|
            0 <= i < rows.len() && is_owned(#[trigger] rows[i], owner, token) && without_owned(
                rows,
                owner,
                token,
            ) == rows.remove(i),
        has_owned(rows, owner, token) ==> without_owned(rows, owner, token).len() + 1
            == rows.len(),
        forall|i: int|
            0 <= i < rows.len() && !is_owned(#[trigger] rows[i], owner, token)
                ==> without_owned(rows, owner, token).contains(rows[i]),
        forall|i: int|
            0 <= i < rows.len() && (#[trigger] rows[i]).user_id != Some(owner) ==> without_owned(
                rows,
                owner,
                token,
            ).contains(rows[i]),
        forall|k: int|
            0 <= k < without_owned(rows, owner, token).len() ==> rows.contains(
                #[trigger] without_owned(rows, owner, token)[k],
            ) && !is_owned(without_owned(rows, owner, token)[k], owner, token),
{
    let after = without_owned(rows, owner, token);
    if has_owned(rows, owner, token) {
        let r = owned_has_first(rows, owner, token);
        first_owned_is_removed(rows, owner, token, r);
        assert(after == rows.remove(r));
        assert forall|i: int|
            0 <= i < rows.len() && !is_owned(
                #[trigger] rows[i],
                owner,
                token,
            ) implies after.contains(rows[i]) by {
            if i < r {
                assert(after[i] == rows[i]);
            } else {
                assert(after[i - 1] == rows[i]);
            }
        }
        assert forall|k: int| 0 <= k < after.len() implies rows.contains(#[trigger] after[k])
            && !is_owned(after[k], owner, token) by {
            if k < r {
                assert(after[k] == rows[k]);
            } else {
                assert(after[k] == rows[k + 1]);
            }
        }
    } else {
        assert forall|i: int| 0 <= i < rows.len() implies after.contains(#[trigger] rows[i]) by {
            assert(after[i] == rows[i]);
        }
        assert forall|k: int| 0 <= k < after.len() implies rows.contains(#[trigger] after[k])
            && !is_owned(after[k], owner, token) by {
            assert(rows[k] == after[k]);
        }
    }
}

/// Once a session is logged out, its token no longer authenticates.
pub proof fn logged_out_token_is_rejected(
    rows: Seq<SessionView>,
    owner: u128,
    token: Seq<char>,
    now: i64,
)
    requires
        unique_sessions(rows),
        has_owned(rows, owner, token),
    ensures
        authenticated_as(without_owned(rows, owner, token), Some(token), now) == Err::<
            u128,
            AuthErrorView,
        >(AuthErrorView::SessionNotFound),
{
    let r = owned_has_first(rows, owner, token);
    first_owned_is_removed(rows, owner, token, r);
    let after = rows.remove(r);
    assert forall|k: int| 0 <= k < after.len() implies !is_live(
        #[trigger] after[k],
        token,
        now,
    ) by {
        if k < r {
            assert(after[k] == rows[k]);
        } else {
            assert(after[k] == rows[k + 1]);
        }
    }
    assert(!has_live(after, token, now));
}

/// Logging out one token leaves every other token as it was: what another
/// token resolves to does not change.
pub proof fn logout_keeps_other_tokens(
    rows: Seq<SessionView>,
    owner: u128,
    token: Seq<char>,
    other: Seq<char>,
    now: i64,
)
    requires
        unique_sessions(rows),
        other != token,
    ensures
        authenticated_as(without_owned(rows, owner, token), Some(other), now) == authenticated_as(
            rows,
            Some(other),
            now,
        ),
{
    if has_owned(rows, owner, token) {
        let r = owned_has_first(rows, owner, token);
        first_owned_is_removed(rows, owner, token, r);
        let after = rows.remove(r);
        if has_live(rows, other, now) {
            let i = live_has_first(rows, other, now);
            first_live_is_found(rows, other, now, i);
            let k = if i < r { i } else { i - 1 };
            assert(after[k] == rows[i]);
            assert forall|j: int| 0 <= j < k implies !is_live(#[trigger] after[j], other, now) by {
                if j < r {
                    assert(after[j] == rows[j]);
                } else {
                    assert(after[j] == rows[j + 1]);
                }
            }
            assert(is_first_live(after, other, now, k));
            first_live_is_found(after, other, now, k);
        } else {
            assert forall|j: int| 0 <= j < after.len() implies !is_live(
                #[trigger] after[j],
                other,
                now,
            ) by {
                if j < r {
                    assert(after[j] == rows[j]);
                } else {
                    assert(after[j] == rows[j + 1]);
                }
            }
            assert(!has_live(after, other, now));
        }
    }
}

} // verus!
