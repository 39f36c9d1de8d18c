use vimana::handlers::{
    auth_error_reply, cookie_path, create_user_reply, error_reply, health_check, login_reply,
    logout, logout_reply,
};
use vimana::middleware::{resolve_session, AuthError, RequestContext};
use vimana::models::{NewSession, NewUser, Session, User};
use vimana::queries::{
    create_new_session, create_new_user, delete_session, get_user_by_username, Database, DbError,
    QueryFailure,
};
use vimana::services::{
    authorize_account_creation, authorize_as, creation_outcome, hashing_outcome, logout_outcome,
    session_outcome, ServiceError,
};

#[test]
fn service_errors_map_to_their_status() {
    let db = ServiceError::DbError(DbError::StdError("boom".to_string()));
    assert_eq!(db.status_code(), 500);
    assert_eq!(ServiceError::ValidationError("v".to_string()).status_code(), 422);
    assert_eq!(ServiceError::Unauthorized("u".to_string()).status_code(), 401);
    assert_eq!(ServiceError::Forbidden("f".to_string()).status_code(), 403);
    assert_eq!(ServiceError::NotFound("n".to_string()).status_code(), 404);
    assert_eq!(ServiceError::Other("o".to_string()).status_code(), 500);
}

#[test]
fn service_errors_describe_themselves() {
    let db = ServiceError::DbError(DbError::StdError("boom".to_string()));
    assert_eq!(db.message(), "Database error: boom");
    assert_eq!(ServiceError::ValidationError("v".to_string()).message(), "Validation error: v");
    assert_eq!(ServiceError::Unauthorized("u".to_string()).message(), "Unauthorized: u");
    assert_eq!(ServiceError::Forbidden("f".to_string()).message(), "Forbidden: f");
    assert_eq!(ServiceError::NotFound("n".to_string()).message(), "Not found: n");
    assert_eq!(ServiceError::Other("o".to_string()).message(), "Internal server error: o");
}

#[test]
fn service_error_wraps_a_store_failure() {
    let wrapped = ServiceError::from(DbError::ConnectionError("pool timed out".to_string()));
    assert!(matches!(wrapped, ServiceError::DbError(DbError::ConnectionError(_))));
    assert_eq!(wrapped.message(), "Database error: Database connection error: pool timed out");
    assert_eq!(wrapped.status_code(), 500);
}

#[test]
fn store_errors_describe_themselves() {
    assert_eq!(
        DbError::ConnectionError("refused".to_string()).message(),
        "Database connection error: refused"
    );
    assert_eq!(
        DbError::QueryError(QueryFailure::NotFound).message(),
        "Query execution error: Record not found"
    );
    assert_eq!(DbError::StdError("plain".to_string()).message(), "plain");
    assert_eq!(
        DbError::QueryError(QueryFailure::DuplicateUsername).clone().message(),
        "Query execution error: duplicate key value violates unique constraint on username"
    );
    assert_eq!(QueryFailure::Other.message(), "statement failed");
}

#[test]
fn auth_errors_map_to_status_and_text() {
    assert_eq!(AuthError::InvalidToken.status_code(), 401);
    assert_eq!(AuthError::ExpiredSession.status_code(), 401);
    assert_eq!(AuthError::SessionNotFound.status_code(), 401);
    assert_eq!(AuthError::UserMissing.status_code(), 401);
    let storage = AuthError::DatabaseError(DbError::ConnectionError("down".to_string()));
    assert_eq!(storage.status_code(), 500);
    assert_eq!(AuthError::InvalidToken.message(), "Invalid session token");
    assert_eq!(AuthError::ExpiredSession.message(), "Session has expired");
    assert_eq!(AuthError::SessionNotFound.message(), "Session not found");
    assert_eq!(storage.message(), "Database error: Database connection error: down");
}

#[test]
fn internal_failures_are_reported_without_detail() {
    let reply = error_reply(&ServiceError::Other("Password verification error".to_string()));
    assert_eq!(reply.status, 500);
    assert_eq!(reply.body, "Internal server error");
    assert!(reply.cookie.is_none());
    let reply = error_reply(&ServiceError::DbError(DbError::StdError("secret".to_string())));
    assert_eq!(reply.status, 500);
    assert_eq!(reply.body, "Internal server error");
    let reply =
        auth_error_reply(&AuthError::DatabaseError(DbError::StdError("secret".to_string())));
    assert_eq!(reply.status, 500);
    assert_eq!(reply.body, "Internal server error");
    let reply = auth_error_reply(&AuthError::SessionNotFound);
    assert_eq!(reply.status, 401);
    assert_eq!(reply.body, "Session not found");
}

#[test]
fn login_reply_sets_the_cookie_only_on_success() {
    let reply = login_reply("/vimana2", Ok("abc".to_string()));
    assert_eq!(reply.status, 200);
    let cookie = reply.cookie.unwrap();
    assert_eq!(cookie.name, "session_token");
    assert_eq!(cookie.value, "abc");
    assert_eq!(cookie.path, "/vimana2");
    assert!(cookie.http_only);
    assert_eq!(cookie.max_age_seconds, 86_400);
    let reply = login_reply(
        "/vimana2",
        Err(ServiceError::Unauthorized("Invalid username or password".to_string())),
    );
    assert_eq!(reply.status, 401);
    assert_eq!(reply.body, "Unauthorized: Invalid username or password");
    assert!(reply.cookie.is_none());
}

#[test]
fn logout_reply_clears_the_cookie() {
    let reply = logout_reply("", Ok(()));
    assert_eq!(reply.status, 200);
    let cookie = reply.cookie.unwrap();
    assert_eq!(cookie.value, "");
    assert_eq!(cookie.path, "/");
    assert_eq!(cookie.max_age_seconds, 0);
    let reply = logout_reply("", Err(ServiceError::NotFound("Session not found".to_string())));
    assert_eq!(reply.status, 404);
    assert_eq!(reply.body, "Not found: Session not found");
    assert!(reply.cookie.is_none());
}

#[test]
fn cookie_path_defaults_to_the_root() {
    assert_eq!(cookie_path(""), "/");
    assert_eq!(cookie_path("/vimana2"), "/vimana2");
}

#[test]
fn create_user_reply_carries_the_identifier_only() {
    let user = User {
        id: 0x7763abad_f33d_4308_b89d_8897e9037d16,
        username: "root".to_string(),
        hashed_password: "$2b$04$digest".to_string(),
        full_name: "Root".to_string(),
        created_at: None,
        updated_at: None,
    };
    let reply = create_user_reply(Ok(user));
    assert_eq!(reply.status, 201);
    assert_eq!(reply.body, "7763abad-f33d-4308-b89d-8897e9037d16");
    assert!(reply.cookie.is_none());
}

#[test]
fn health_check_reports_the_store() {
    let up = health_check(true);
    assert_eq!(up.status, 200);
    assert_eq!(up.body, "Server and database connection healthy");
    let down = health_check(false);
    assert_eq!(down.status, 503);
    assert_eq!(down.body, "Database connection issue");
}

#[test]
fn logout_endpoint_needs_identity_and_token() {
    let mut db = Database::new();
    let session = NewSession {
        id: 1,
        user_id: Some(5),
        session_token: "tok".to_string(),
        expires_at: 100,
        created_at: Some(1),
    };
    create_new_session(&mut db, &session).unwrap();
    let no_identity = RequestContext::new(Some("tok".to_string()));
    let reply = logout(&mut db, "", &no_identity);
    assert_eq!(reply.status, 401);
    assert_eq!(reply.body, "Unauthorized");
    let no_token = RequestContext { session_token: None, user_id: Some(5) };
    assert_eq!(logout(&mut db, "", &no_token).status, 401);
    assert_eq!(db.session_count(), 1);
    let other = RequestContext { session_token: Some("tok".to_string()), user_id: Some(6) };
    assert_eq!(logout(&mut db, "", &other).status, 404);
    assert_eq!(db.session_count(), 1);
    let owner = RequestContext { session_token: Some("tok".to_string()), user_id: Some(5) };
    assert_eq!(logout(&mut db, "", &owner).status, 200);
    assert_eq!(db.session_count(), 0);
}

#[test]
fn outcomes_follow_the_store_result() {
    assert!(logout_outcome(Ok(1)).is_ok());
    assert!(logout_outcome(Ok(2)).is_ok());
    assert!(matches!(logout_outcome(Ok(0)), Err(ServiceError::NotFound(_))));
    assert!(matches!(
        logout_outcome(Err(DbError::StdError("x".to_string()))),
        Err(ServiceError::DbError(DbError::StdError(_)))
    ));
    assert_eq!(session_outcome(Ok(1), "tok".to_string()).unwrap(), "tok");
    assert!(matches!(
        session_outcome(Err(DbError::ConnectionError("x".to_string())), "tok".to_string()),
        Err(ServiceError::DbError(DbError::ConnectionError(_)))
    ));
    assert_eq!(hashing_outcome(Ok("digest".to_string())).unwrap(), "digest");
    assert!(matches!(
        hashing_outcome(Err(bcrypt::BcryptError::CostNotAllowed(99))),
        Err(ServiceError::Other(ref m)) if m == "Failed to hash password"
    ));
    assert!(matches!(
        creation_outcome(Err(DbError::QueryError(QueryFailure::DuplicateUsername))),
        Err(ServiceError::ValidationError(ref m)) if m == "Username already exists"
    ));
    assert!(matches!(
        creation_outcome(Err(DbError::QueryError(QueryFailure::DuplicateId))),
        Err(ServiceError::DbError(DbError::QueryError(QueryFailure::DuplicateId)))
    ));
}

#[test]
fn resolve_session_covers_each_lookup_result() {
    let owned = Session {
        id: 1,
        user_id: Some(42),
        session_token: "t".to_string(),
        expires_at: 10,
        created_at: None,
    };
    assert_eq!(resolve_session(Ok(Some(owned))).unwrap(), 42);
    let orphan = Session {
        id: 1,
        user_id: None,
        session_token: "t".to_string(),
        expires_at: 10,
        created_at: None,
    };
    assert!(matches!(resolve_session(Ok(Some(orphan))), Err(AuthError::UserMissing)));
    assert!(matches!(resolve_session(Ok(None)), Err(AuthError::SessionNotFound)));
    let failed = resolve_session(Err(DbError::ConnectionError("down".to_string())));
    assert!(matches!(failed, Err(AuthError::DatabaseError(DbError::ConnectionError(_)))));
    assert_eq!(failed.unwrap_err().status_code(), 500);
}

#[test]
fn authorization_compares_with_the_administrator() {
    assert!(authorize_as(Some(7), 7).is_ok());
    assert!(matches!(authorize_as(Some(7), 8), Err(ServiceError::Forbidden(_))));
    assert!(matches!(authorize_as(None, 8), Err(ServiceError::Forbidden(_))));
    assert!(authorize_account_creation(0x7763abad_f33d_4308_b89d_8897e9037d16).is_ok());
    assert!(authorize_account_creation(0).is_err());
    assert!(authorize_account_creation(0x7763abad_f33d_4308_b89d_8897e9037d17).is_err());
}

#[test]
fn store_keeps_identifiers_usernames_and_tokens_unique() {
    let mut db = Database::new();
    let alice = NewUser {
        id: 1,
        username: "alice".to_string(),
        hashed_password: "h".to_string(),
        full_name: "Alice".to_string(),
        created_at: Some(5),
        updated_at: None,
    };
    let stored = create_new_user(&mut db, &alice).unwrap();
    assert_eq!(stored.id, 1);
    assert_eq!(stored.created_at, Some(5));
    let same_id = NewUser { username: "other".to_string(), ..user_like(&alice) };
    assert!(matches!(
        create_new_user(&mut db, &same_id),
        Err(DbError::QueryError(QueryFailure::DuplicateId))
    ));
    let same_name = NewUser { id: 2, ..user_like(&alice) };
    assert_eq!(User::from_new(&alice).username, "alice");
    assert!(matches!(
        create_new_user(&mut db, &same_name),
        Err(DbError::QueryError(QueryFailure::DuplicateUsername))
    ));
    assert_eq!(db.user_count(), 1);
    assert_eq!(get_user_by_username(&db, "alice").unwrap().unwrap().id, 1);
    assert!(get_user_by_username(&db, "alic").unwrap().is_none());
    assert!(get_user_by_username(&db, "ALICE").unwrap().is_none());

    let first = NewSession {
        id: 1,
        user_id: Some(1),
        session_token: "t1".to_string(),
        expires_at: 10,
        created_at: Some(1),
    };
    assert_eq!(create_new_session(&mut db, &first).unwrap(), 1);
    let copy = Session::from_new(&first);
    assert_eq!(copy.session_token, "t1");
    let same_token = NewSession { id: 2, session_token: "t1".to_string(), ..first_like(&first) };
    assert!(matches!(
        create_new_session(&mut db, &same_token),
        Err(DbError::QueryError(QueryFailure::DuplicateToken))
    ));
    let same_key = NewSession { id: 1, session_token: "t2".to_string(), ..first_like(&first) };
    assert!(matches!(
        create_new_session(&mut db, &same_key),
        Err(DbError::QueryError(QueryFailure::DuplicateId))
    ));
    assert_eq!(db.session_count(), 1);
    assert_eq!(delete_session(&mut db, 2, "t1").unwrap(), 0);
    assert_eq!(delete_session(&mut db, 1, "t2").unwrap(), 0);
    assert_eq!(delete_session(&mut db, 1, "t1").unwrap(), 1);
    assert_eq!(delete_session(&mut db, 1, "t1").unwrap(), 0);
    assert_eq!(db.session_count(), 0);
}

fn first_like(s: &NewSession) -> NewSession {
    NewSession {
        id: s.id,
        user_id: s.user_id,
        session_token: s.session_token.clone(),
        expires_at: s.expires_at,
        created_at: s.created_at,
    }
}

fn user_like(u: &NewUser) -> NewUser {
    NewUser {
        id: u.id,
        username: u.username.clone(),
        hashed_password: u.hashed_password.clone(),
        full_name: u.full_name.clone(),
        created_at: u.created_at,
        updated_at: u.updated_at,
    }
}
