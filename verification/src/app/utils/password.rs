//! Password hashing with bcrypt.
use vstd::prelude::*;

verus! {

/// What `bcrypt::verify(password, hash)` returns: `Some(matches)`, or `None` where it reports
/// an error (a malformed hash). It is a function of its arguments alone.
pub uninterp spec fn bcrypt_verdict(password: Seq<char>, hash: Seq<char>) -> Option<bool>;

/// Hashes a password: `bcrypt::hash(password, DEFAULT_COST)`, with a random salt. Trusted:
/// where it succeeds, `bcrypt::verify` accepts the password against the hash (the crate's
/// `verify` re-hashes with the salt and cost read back from the hash); the hash itself
/// depends on the salt and is otherwise left unsaid, as is when the salt cannot be drawn.
#[verifier::external_body]
pub(crate) fn hash_password(password: &String) -> (r: Result<String, ()>)
    ensures
        r matches Ok(h) ==> bcrypt_verdict(password@, h@) == Some(true),
{
    bcrypt::hash(password, bcrypt::DEFAULT_COST).map_err(|_| ())
}

/// Checks a password against a stored hash: `bcrypt::verify`. Trusted: the result is named
/// by `bcrypt_verdict`.
#[verifier::external_body]
pub(crate) fn check_password(password: &String, hash: &String) -> (r: Result<bool, ()>)
    ensures
        match r {
            Ok(b) => bcrypt_verdict(password@, hash@) == Some(b),
            Err(_) => bcrypt_verdict(password@, hash@) is None,
        },
{
    bcrypt::verify(password, hash.as_str()).map_err(|_| ())
}

} // verus!
