//! Password hashing, delegated to bcrypt.
//!
//! Hashing and checking are slow on purpose. A service calls the functions of
//! [`crate::identity`] that reach them from a worker that may block, never
//! from the path on which it serves other requests.

use vstd::prelude::*;

verus! {

/// What `bcrypt::verify` says of a password and a stored hash: whether the
/// password is the one that was hashed, or nothing where the hash cannot be
/// read.
pub uninterp spec fn password_matches(password: Seq<char>, hash: Seq<char>) -> Option<bool>;

/// Checks a password against a stored hash.
///
/// Trusted: calls `bcrypt::verify`, whose answer depends on the two
/// arguments alone. An error of the crate (a hash that is not a bcrypt hash)
/// comes back as `None`.
#[verifier::external_body]
pub(crate) fn check_password(password: &str, hash: &str) -> (checked: Option<bool>)
    ensures
        checked == password_matches(password@, hash@),
{
    bcrypt::verify(password, hash).ok()
}

/// Hashes a password under a fresh random salt.
///
/// Trusted: calls `bcrypt::hash` with the crate's default cost. The salt is
/// drawn from the operating system, so two calls on one password differ; what
/// holds of every hash that comes back is that `bcrypt::verify` accepts the
/// password for it. `None` stands for an error of the crate (no randomness
/// to be had).
#[verifier::external_body]
pub(crate) fn hash_password(password: &str) -> (hashed: Option<String>)
    ensures
        hashed matches Some(hash) ==> password_matches(password@, hash@) == Some(true),
{
    bcrypt::hash(password, bcrypt::DEFAULT_COST).ok()
}

} // verus!
