//! The records of the credential store and of the session store.
//!
//! Identifiers are held as the 128-bit value of a UUID; a timestamp is a count
//! of microseconds since the Unix epoch.

use vstd::prelude::*;

verus! {

/// An account as the contracts see it.
pub struct UserView {
    pub id: u128,
    pub username: Seq<char>,
    pub hashed_password: Seq<char>,
    pub full_name: Seq<char>,
    pub created_at: Option<i64>,
    pub updated_at: Option<i64>,
}

/// A session as the contracts see it.
pub struct SessionView {
    pub id: u128,
    pub user_id: Option<u128>,
    pub session_token: Seq<char>,
    pub expires_at: i64,
    pub created_at: Option<i64>,
}

impl SessionView {
    /// A session ends after it began.
    pub open spec fn well_formed(self) -> bool {
        match self.created_at {
            Some(created) => self.expires_at > created,
            None => true,
        }
    }

    /// A session is active at `now` while `now` lies before its expiry.
    pub open spec fn active_at(self, now: i64) -> bool {
        self.expires_at > now
    }
}

/// A stored account.
#[derive(Debug)]
pub struct User {
    /// Unique identifier of the account.
    pub id: u128,
    /// Unique, case-sensitive name; the lookup key at login.
    pub username: String,
    /// Digest of the password; never handed outward.
    pub hashed_password: String,
    /// Display name.
    pub full_name: String,
    /// When the record was created.
    pub created_at: Option<i64>,
    /// When the record was last changed.
    pub updated_at: Option<i64>,
}

/// An account about to be stored.
#[derive(Debug)]
pub struct NewUser {
    pub id: u128,
    pub username: String,
    pub hashed_password: String,
    pub full_name: String,
    pub created_at: Option<i64>,
    pub updated_at: Option<i64>,
}

/// A stored session: a time-bounded grant tying a token to an account.
#[derive(Debug)]
pub struct Session {
    /// Unique identifier of the session, distinct from the token.
    pub id: u128,
    /// The owning account.
    pub user_id: Option<u128>,
    /// The bearer credential the client presents.
    pub session_token: String,
    /// The instant after which the session no longer authenticates.
    pub expires_at: i64,
    /// When the session was issued.
    pub created_at: Option<i64>,
}

/// A session about to be stored.
#[derive(Debug)]
pub struct NewSession {
    pub id: u128,
    pub user_id: Option<u128>,
    pub session_token: String,
    pub expires_at: i64,
    pub created_at: Option<i64>,
}

impl View for User {
    type V = UserView;

    open spec fn view(&self) -> UserView {
        UserView {
            id: self.id,
            username: self.username@,
            hashed_password: self.hashed_password@,
            full_name: self.full_name@,
            created_at: self.created_at,
            updated_at: self.updated_at,
        }
    }
}

impl View for NewUser {
    type V = UserView;

    open spec fn view(&self) -> UserView {
        UserView {
            id: self.id,
            username: self.username@,
            hashed_password: self.hashed_password@,
            full_name: self.full_name@,
            created_at: self.created_at,
            updated_at: self.updated_at,
        }
    }
}

impl View for Session {
    type V = SessionView;

    open spec fn view(&self) -> SessionView {
        SessionView {
            id: self.id,
            user_id: self.user_id,
            session_token: self.session_token@,
            expires_at: self.expires_at,
            created_at: self.created_at,
        }
    }
}

impl View for NewSession {
    type V = SessionView;

    open spec fn view(&self) -> SessionView {
        SessionView {
            id: self.id,
            user_id: self.user_id,
            session_token: self.session_token@,
            expires_at: self.expires_at,
            created_at: self.created_at,
        }
    }
}

impl Clone for User {
    fn clone(&self) -> (r: Self)
        ensures
            r@ == self@,
    {
        User {
            id: self.id,
            username: self.username.clone(),
            hashed_password: self.hashed_password.clone(),
            full_name: self.full_name.clone(),
            created_at: self.created_at,
            updated_at: self.updated_at,
        }
    }
}

impl Clone for Session {
    fn clone(&self) -> (r: Self)
        ensures
            r@ == self@,
    {
        Session {
            id: self.id,
            user_id: self.user_id,
            session_token: self.session_token.clone(),
            expires_at: self.expires_at,
            created_at: self.created_at,
        }
    }
}

impl User {
    /// The account that a pending record becomes once stored.
    pub fn from_new(data: &NewUser) -> (r: Self)
        ensures
            r@ == data@,
    {
        User {
            id: data.id,
            username: data.username.clone(),
            hashed_password: data.hashed_password.clone(),
            full_name: data.full_name.clone(),
            created_at: data.created_at,
            updated_at: data.updated_at,
        }
    }
}

impl Session {
    /// The session that a pending record becomes once stored.
    pub fn from_new(data: &NewSession) -> (r: Self)
        ensures
            r@ == data@,
    {
        Session {
            id: data.id,
            user_id: data.user_id,
            session_token: data.session_token.clone(),
            expires_at: data.expires_at,
            created_at: data.created_at,
        }
    }
}

} // verus!
