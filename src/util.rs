use crate::error::Error;
use vstd::prelude::*;

verus! {

/// What checking `plain` against the bcrypt hash `hashed` gives: whether it matches, or
/// nothing where `hashed` cannot be read as a bcrypt hash.
pub uninterp spec fn bcrypt_verdict(plain: Seq<char>, hashed: Seq<char>) -> Option<bool>;

/// Relies on `bcrypt::hash` at `bcrypt::DEFAULT_COST`: it draws a random salt, and the hash it
/// gives carries that salt and cost, so `bcrypt::verify` accepts the same password against it.
/// The hash is written in version 2b as exactly 60 characters: `$2b$12$`, then the salt and
/// the digest in bcrypt's base64.
#[verifier::external_body]
pub fn hash_password(plain: String) -> (r: Result<String, Error>)
    ensures
        match r {
            Ok(h) => bcrypt_verdict(plain@, h@) == Some(true) && h@.len() == 60 && h@.subrange(
                0,
                7,
            ) == "$2b$12$"@,
            Err(e) => e == Error::BcryptError,
        },
{
    bcrypt::hash(plain, bcrypt::DEFAULT_COST).map_err(|_| Error::BcryptError)
}

/// Relies on `bcrypt::verify`: it rehashes the password with the salt and cost read from the
/// hash, so its outcome depends on its two arguments alone.
#[verifier::external_body]
pub fn verify_password(plain: &str, hash: &str) -> (r: Result<bool, Error>)
    ensures
        match r {
            Ok(b) => bcrypt_verdict(plain@, hash@) == Some(b),
            Err(e) => bcrypt_verdict(plain@, hash@) is None && e == Error::BcryptError,
        },
{
    bcrypt::verify(plain, hash).map_err(|_| Error::BcryptError)
}

} // verus!
