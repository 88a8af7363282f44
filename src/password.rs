use vstd::prelude::*;

verus! {

#[verifier::external_type_specification]
#[verifier::external_body]
pub struct ExGeekError(geekorm::Error);

/// What geekorm's PBKDF2 check reports for a plaintext password and a stored
/// PHC string: `None` where the string is no PHC hash, else whether the
/// password matches it.
pub uninterp spec fn pbkdf2_check(password: Seq<char>, hash: Seq<char>) -> Option<bool>;

/// Why a password could not be hashed or checked.
#[derive(Clone, Copy, Debug, PartialEq, Eq, Structural)]
pub enum PasswordError {
    /// The hasher reported a failure.
    HashingFailed,
    /// The stored value is not a hash that the checker can read.
    MalformedHash,
}

/// Relies on `geekorm::utils::generate_hash` with `HashingAlgorithm::Pbkdf2`:
/// it salts afresh on each call and returns a PHC string, which begins with
/// `$` and which `geekorm::utils::verify_hash` accepts for the same password.
#[verifier::external_body]
fn generate_pbkdf2(password: &str) -> (r: Result<String, geekorm::Error>)
    ensures
        r matches Ok(h) ==> pbkdf2_check(password@, h@) == Some(true),
        r matches Ok(h) ==> starts_as_phc(h@),
{
    geekorm::utils::generate_hash(
        password.to_string(),
        geekorm::utils::crypto::HashingAlgorithm::Pbkdf2,
    )
}

/// Relies on `geekorm::utils::verify_hash` with `HashingAlgorithm::Pbkdf2`:
/// an error where the stored string does not parse as a PHC hash, else
/// whether the password matches it.
#[verifier::external_body]
fn verify_pbkdf2(password: &str, hash: &str) -> (r: Result<bool, geekorm::Error>)
    ensures
        r is Err <==> pbkdf2_check(password@, hash@) is None,
        r matches Ok(b) ==> pbkdf2_check(password@, hash@) == Some(b),
{
    geekorm::utils::verify_hash(
        password.to_string(),
        hash.to_string(),
        geekorm::utils::crypto::HashingAlgorithm::Pbkdf2,
    )
}

/// `s` begins as every PHC string does, with `$`.
pub open spec fn starts_as_phc(s: Seq<char>) -> bool {
    s.len() > 0 && s[0] == '$'
}

/// The result of checking `password` against `hash`, as a value.
pub open spec fn check_result(password: Seq<char>, hash: Seq<char>) -> Result<bool, PasswordError> {
    match pbkdf2_check(password, hash) {
        Some(b) => Ok(b),
        None => Err(PasswordError::MalformedHash),
    }
}

/// Hashes a plaintext password with a fresh salt. A returned hash is one that
/// the checker accepts for this password, and it differs from every plaintext
/// that does not itself begin like a PHC string.
pub fn hash_password(password: &str) -> (r: Result<String, PasswordError>)
    ensures
        r matches Ok(h) ==> pbkdf2_check(password@, h@) == Some(true),
        r matches Ok(h) ==> starts_as_phc(h@),
        r matches Ok(h) ==> (!starts_as_phc(password@) ==> h@ != password@),
        r is Err ==> r == Err::<String, PasswordError>(PasswordError::HashingFailed),
{
    match generate_pbkdf2(password) {
        Ok(h) => Ok(h),
        Err(_) => Err(PasswordError::HashingFailed),
    }
}

/// Checks a plaintext password against a stored hash.
pub fn verify_password(password: &str, hash: &str) -> (r: Result<bool, PasswordError>)
    ensures
        r == check_result(password@, hash@),
{
    match verify_pbkdf2(password, hash) {
        Ok(b) => Ok(b),
        Err(_) => Err(PasswordError::MalformedHash),
    }
}

} // verus!
