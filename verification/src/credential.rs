//! The credential codec: a one-way hash for passwords at sign-up and its
//! check at login. Both are bcrypt's; this module says what the service
//! relies on and maps bcrypt's errors to the codec's own.

use vstd::prelude::*;

verus! {

/// `bcrypt::BcryptError`, the error of bcrypt's `hash` and `verify`. The codec
/// carries it no further than the match that replaces it by a
/// [`CredentialError`], and reads nothing in it.
#[verifier::external_type_specification]
#[verifier::external_body]
pub struct ExBcryptError(bcrypt::BcryptError);

/// Why the codec could not answer.
#[derive(Clone, Copy, Debug, PartialEq, Eq, Structural)]
pub enum CredentialError {
    /// The hash could not be computed.
    Hashing,
    /// The stored hash is malformed, so no password can be checked against it.
    Verification,
}

/// The answer of `bcrypt::verify` for a password and a stored hash:
/// `Some(true)` where the password matches, `Some(false)` where it does not,
/// `None` where the stored hash is malformed.
pub uninterp spec fn bcrypt_verify_outcome(password: Seq<char>, hash: Seq<char>) -> Option<bool>;

/// The length of every hash that [`hash_password`] produces.
pub const HASH_LEN: usize = 60;

/// `hash` was produced from `password`: it has the length of a hash and the
/// password checks against it.
pub open spec fn is_hash_of(password: Seq<char>, hash: Seq<char>) -> bool {
    &&& hash.len() == HASH_LEN
    &&& bcrypt_verify_outcome(password, hash) == Some(true)
}

/// What [`verify_password`] returns for a password and a stored hash.
pub open spec fn verification(password: Seq<char>, hash: Seq<char>) -> Result<
    bool,
    CredentialError,
> {
    match bcrypt_verify_outcome(password, hash) {
        Some(same) => Ok(same),
        None => Err(CredentialError::Verification),
    }
}

/// `bcrypt::hash` at `bcrypt::DEFAULT_COST`, with a salt that bcrypt draws
/// from the operating system. Nothing is claimed of which hash comes back,
/// nor that one does. Of a hash that does come back: it is the 60 characters
/// `$2b$12$`, 22 of salt and 31 of digest, and `bcrypt::verify` accepts the
/// same password against it, since it recomputes the digest from the salt
/// inside the hash.
#[verifier::external_body]
fn bcrypt_hash(password: &str) -> (r: Result<String, bcrypt::BcryptError>)
    ensures
        r matches Ok(h) ==> h@.len() == 60 && bcrypt_verify_outcome(password@, h@) == Some(true),
{
    bcrypt::hash(password, bcrypt::DEFAULT_COST)
}

/// `bcrypt::verify`: a function of the password and the hash alone, whose
/// answer [`bcrypt_verify_outcome`] names.
#[verifier::external_body]
fn bcrypt_verify(password: &str, hash: &str) -> (r: Result<bool, bcrypt::BcryptError>)
    ensures
        r matches Ok(b) ==> bcrypt_verify_outcome(password@, hash@) == Some(b),
        r is Err ==> bcrypt_verify_outcome(password@, hash@) is None,
{
    bcrypt::verify(password, hash)
}

/// Hashes a password for storage. The salt is random, so two calls on one
/// password give different hashes; each of them verifies against the password.
pub fn hash_password(plaintext: &str) -> (r: Result<String, CredentialError>)
    ensures
        r matches Ok(h) ==> is_hash_of(plaintext@, h@),
        r matches Err(e) ==> e == CredentialError::Hashing,
{
    match bcrypt_hash(plaintext) {
        Ok(h) => Ok(h),
        Err(_) => Err(CredentialError::Hashing),
    }
}

/// Checks a password against a stored hash. A wrong password is an ordinary
/// answer, `Ok(false)`; only a malformed hash is an error.
pub fn verify_password(plaintext: &str, stored: &str) -> (r: Result<bool, CredentialError>)
    ensures
        r == verification(plaintext@, stored@),
{
    match bcrypt_verify(plaintext, stored) {
        Ok(same) => Ok(same),
        Err(_) => Err(CredentialError::Verification),
    }
}

} // verus!
