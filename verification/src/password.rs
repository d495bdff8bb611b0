//! Password hashes.
use vstd::prelude::*;

verus! {

/// What `bcrypt::verify` makes of a password and a stored hash: whether the
/// password is the one that was hashed, or `None` where the hash cannot be
/// read.
pub uninterp spec fn bcrypt_verdict(password: Seq<char>, hash: Seq<char>) -> Option<bool>;

/// The error type of `bcrypt`.
#[verifier::external_type_specification]
#[verifier::external_body]
pub struct ExBcryptError(bcrypt::BcryptError);

/// Hashes a password by `bcrypt::hash`, at the cost `bcrypt::DEFAULT_COST`
/// and with a salt that `bcrypt` draws.
///
/// Nothing is claimed of which hash comes back, nor that one does; only that
/// `bcrypt::verify` accepts the same password for it, which recomputes the
/// hash from the salt and the cost that the hash text carries.
#[verifier::external_body]
pub(crate) fn hash(password: &str) -> (hashed: Result<String, bcrypt::BcryptError>)
    ensures
        hashed matches Ok(h) ==> bcrypt_verdict(password@, h@) == Some(true),
{
    bcrypt::hash(password, bcrypt::DEFAULT_COST)
}

/// Checks a password against a hash by `bcrypt::verify`. The contract gives
/// the outcome the name `bcrypt_verdict`.
#[verifier::external_body]
pub(crate) fn verify(password: &str, hash: &str) -> (verdict: Result<bool, bcrypt::BcryptError>)
    ensures
        match verdict {
            Ok(accepted) => bcrypt_verdict(password@, hash@) == Some(accepted),
            Err(_) => bcrypt_verdict(password@, hash@) is None,
        },
{
    bcrypt::verify(password, hash)
}

} // verus!
