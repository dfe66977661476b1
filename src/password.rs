use vstd::prelude::*;

verus! {

/// The bcrypt cost that new password hashes are made with.
pub const PASSWORD_HASH_COST: u32 = 12;

/// Why a password could not be hashed.
#[derive(Clone, Copy, Debug, PartialEq, Eq, Structural)]
pub enum PasswordHashError {
    HashFailed,
}

#[verifier::external_type_specification]
#[verifier::external_body]
pub struct ExBcryptError(bcrypt::BcryptError);

/// Whether `bcrypt::verify(password, hash)` returns `Ok(true)`: the hash is a
/// bcrypt string made from this password.
pub uninterp spec fn bcrypt_verifies(password: Seq<char>, hash: Seq<char>) -> bool;

/// Relies on `bcrypt::hash`: on success the result is the 60-character string
/// `$2b$<two-digit cost>$<salt><digest>` for a fresh random salt, which
/// `bcrypt::verify` accepts for the same password.
#[verifier::external_body]
pub(crate) fn bcrypt_hash(password: &str, cost: u32) -> (r: Result<String, bcrypt::BcryptError>)
    ensures
        r matches Ok(h) ==> h@.len() == 60 && h@[0] == '$' && bcrypt_verifies(password@, h@),
{
    bcrypt::hash(password, cost)
}

} // verus!
