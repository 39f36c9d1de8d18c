//! The calls that leave this crate: password hashing, randomness, identifiers
//! and the clock. Each contract here is taken on trust from the crate it calls.

use vstd::prelude::*;
use rand::Rng;

verus! {

/// The error of `bcrypt`, carried through unread.
#[verifier::external_type_specification]
#[verifier::external_body]
pub struct ExBcryptError(bcrypt::BcryptError);

/// What `bcrypt::verify` returns for a password and a stored digest: `None`
/// where it reports an error (a digest it cannot parse), else whether the
/// password produces the digest.
pub uninterp spec fn bcrypt_verify(password: Seq<char>, digest: Seq<char>) -> Option<bool>;

/// What `uuid::Uuid::parse_str` returns for a text, as the 128-bit value of the
/// identifier; `None` where it rejects the text.
pub uninterp spec fn uuid_parse(text: Seq<char>) -> Option<u128>;

/// The text that `uuid::Uuid` displays for a 128-bit value.
pub uninterp spec fn uuid_text(id: u128) -> Seq<char>;

/// The 62 characters a session token is drawn from.
pub open spec fn is_alphanumeric(c: char) -> bool {
    ('0' <= c && c <= '9') || ('A' <= c && c <= 'Z') || ('a' <= c && c <= 'z')
}

/// Calls `bcrypt::verify`. The result depends on the two texts alone, so it is
/// named: `Ok(b)` where the named result is `Some(b)`, an error where it is `None`.
#[verifier::external_body]
pub(crate) fn verify_digest(password: &str, digest: &str) -> (r: Result<bool, bcrypt::BcryptError>)
    ensures
        match r {
            Ok(b) => bcrypt_verify(password@, digest@) == Some(b),
            Err(_) => bcrypt_verify(password@, digest@).is_none(),
        },
{
    bcrypt::verify(password, digest)
}

/// Calls `bcrypt::hash` with `bcrypt::DEFAULT_COST`. The salt is random and the
/// call may fail, so the digest itself is not fixed. A digest that comes back
/// carries the salt and the cost that made it, so `bcrypt::verify` recomputes
/// it from the same password and accepts it.
#[verifier::external_body]
pub(crate) fn hash_digest(password: &str) -> (r: Result<String, bcrypt::BcryptError>)
    ensures
        r.is_ok() ==> bcrypt_verify(password@, r.unwrap()@) == Some(true),
{
    bcrypt::hash(password, bcrypt::DEFAULT_COST)
}

/// Draws one sample of `rand::distributions::Alphanumeric` from the thread's
/// generator. Whatever is drawn is an ASCII letter or digit.
#[verifier::external_body]
pub(crate) fn random_alphanumeric() -> (r: u8)
    ensures
        is_alphanumeric(r as char),
{
    rand::thread_rng().sample(rand::distributions::Alphanumeric)
}

/// Calls `uuid::Uuid::new_v4` and hands out its 128-bit value. The value is
/// random; nothing is claimed of it.
#[verifier::external_body]
pub(crate) fn fresh_uuid() -> (r: u128)
{
    uuid::Uuid::new_v4().as_u128()
}

/// Calls `uuid::Uuid::parse_str` and hands out the 128-bit value of what it
/// parsed, or `None` where it rejects the text.
#[verifier::external_body]
pub(crate) fn parse_uuid(text: &str) -> (r: Option<u128>)
    ensures
        r == uuid_parse(text@),
{
    match uuid::Uuid::parse_str(text) {
        Ok(id) => Some(id.as_u128()),
        Err(_) => None,
    }
}

/// Formats a 128-bit value as `uuid::Uuid` displays it.
#[verifier::external_body]
pub(crate) fn format_uuid(id: u128) -> (r: String)
    ensures
        r@ == uuid_text(id),
{
    uuid::Uuid::from_u128(id).to_string()
}

/// Reads `chrono::Utc::now` as microseconds since the Unix epoch. The value
/// depends on the machine's clock; nothing is claimed of it.
#[verifier::external_body]
pub(crate) fn now_micros() -> (r: i64)
{
    chrono::Utc::now().timestamp_micros()
}

/// `String::push` appends one character.
pub assume_specification[ String::push ](s: &mut String, ch: char)
    ensures
        final(s)@ == old(s)@.push(ch),
;

} // verus!
