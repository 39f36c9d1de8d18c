//! Session-based authentication and authorization for a vehicle record keeper.
//!
//! The crate holds the rules of the authentication core: checking credentials,
//! issuing and resolving session tokens, revoking sessions and gating account
//! creation behind the designated administrator. Every function carries a
//! contract over the views of the records it touches.

pub mod primitives;
pub mod models;
pub mod requests;
pub mod queries;
pub mod services;
pub mod middleware;
pub mod handlers;
pub mod laws;

