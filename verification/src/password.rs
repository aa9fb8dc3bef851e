//! One-way password hashing. The hash function itself is the `bcrypt`
//! crate's; this module fixes the cost and turns its errors into outcomes.
use vstd::prelude::*;

verus! {

/// The failure of the `bcrypt` crate, carried opaquely.
#[verifier::external_type_specification]
#[verifier::external_body]
pub struct ExBcryptError(bcrypt::BcryptError);

/// Work factor used for every new hash.
pub const HASH_COST: u32 = 12;

/// What `bcrypt::verify` makes of a password and a stored hash: whether they
/// match, or `None` where the crate cannot read the hash.
pub uninterp spec fn bcrypt_verification(password: Seq<char>, hash: Seq<char>) -> Option<bool>;

/// Calls `bcrypt::hash` with the given cost. The salt is drawn at random, so
/// the hash is not determined by the password; what the crate does promise
/// is that `bcrypt::verify` confirms the password against it.
#[verifier::external_body]
pub(crate) fn bcrypt_hash(password: &str, cost: u32) -> (r: Result<String, bcrypt::BcryptError>)
    ensures
        r matches Ok(hash) ==> bcrypt_verification(password@, hash@) == Some(true),
{
    bcrypt::hash(password, cost)
}

/// Calls `bcrypt::verify`. Its answer is a function of the password and the
/// hash alone.
#[verifier::external_body]
pub(crate) fn bcrypt_verify(password: &str, hash: &str) -> (r: Result<bool, bcrypt::BcryptError>)
    ensures
        bcrypt_verification(password@, hash@) == match r {
            Ok(matches) => Some(matches),
            Err(_) => None,
        },
{
    bcrypt::verify(password, hash)
}

/// Whether a presented password is accepted against a stored hash: only when
/// the hash function confirms the match. A hash that cannot be read accepts
/// nothing.
pub open spec fn accepts(password: Seq<char>, hash: Seq<char>) -> bool {
    bcrypt_verification(password, hash) == Some(true)
}

/// Hashes a password for storage; `None` when the hash function fails. A
/// hash that comes back accepts the password it was made from.
pub fn hash_password(password: &str) -> (r: Option<String>)
    ensures
        r matches Some(hash) ==> accepts(password@, hash@),
{
    match bcrypt_hash(password, HASH_COST) {
        Ok(h) => Some(h),
        Err(_) => None,
    }
}

/// Checks a presented password against a stored hash.
pub fn password_matches(password: &str, hash: &str) -> (ok: bool)
    ensures
        ok == accepts(password@, hash@),
{
    match bcrypt_verify(password, hash) {
        Ok(b) => b,
        Err(_) => false,
    }
}

} // verus!
