//! One-way password hashing and checking.
//!
//! The hash string is salted, so hashing the same password twice gives
//! different strings; checking a password against a hash string is a pure
//! function of the two, since the salt and cost travel inside the string.
//! Together the two contracts give the round trip: whenever hashing
//! succeeds, checking the same password against the returned hash is true.
//! A hash string the checker cannot read at all is corrupted storage, a
//! condition of the string alone, and the checker reports it as a failure
//! rather than answering false.

use vstd::prelude::*;

verus! {

/// Whether bcrypt accepts `password` against the salted hash string `hash`:
/// the name of what `bcrypt::verify` returns `Ok(true)` for, a function of
/// the two arguments alone.
pub uninterp spec fn password_matches(password: Seq<char>, hash: Seq<char>) -> bool;

/// Whether bcrypt can read `hash` as a salted hash string at all: the name
/// of the condition under which `bcrypt::verify` answers instead of
/// failing. It is a function of the hash string alone — the password is
/// only hashed against the salt and cost parsed out of the string.
pub uninterp spec fn hash_readable(hash: Seq<char>) -> bool;

/// Relies on bcrypt::hash with the crate's default cost: the result is a
/// salted one-way hash in the format bcrypt::verify reads back, and
/// bcrypt::verify accepts the hashed password against it. The raw password
/// is neither stored nor logged. Failure carries the primitive's message
/// for server-side eyes only.
#[verifier::external_body]
pub(crate) fn hash_password(password: &str) -> (r: Result<String, String>)
    ensures
        r matches Ok(h) ==> password_matches(password@, h@),
        r matches Ok(h) ==> hash_readable(h@),
{
    match bcrypt::hash(password, bcrypt::DEFAULT_COST) {
        Ok(h) => Ok(h),
        Err(e) => Err(e.to_string()),
    }
}

/// Relies on bcrypt::verify: for a fixed password and hash string the
/// outcome is a function of the two alone. It answers exactly on the
/// readable hash strings, `Ok(true)` exactly on the pairs
/// `password_matches` holds of; an unreadable hash string gives `Err`,
/// never an accepting answer.
#[verifier::external_body]
pub(crate) fn verify_password(password: &str, hash: &str) -> (r: Result<bool, String>)
    ensures
        r is Ok <==> hash_readable(hash@),
        r matches Ok(b) ==> b == password_matches(password@, hash@),
        r matches Err(e) ==> !password_matches(password@, hash@),
{
    match bcrypt::verify(password, hash) {
        Ok(b) => Ok(b),
        Err(e) => Err(e.to_string()),
    }
}

} // verus!
