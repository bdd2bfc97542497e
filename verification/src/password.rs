//! Password hashing and checking with Argon2 (default parameters, Argon2id v19),
//! stored as PHC strings (`$argon2id$v=19$...`).

use vstd::prelude::*;
use vstd::string::*;

use argon2::password_hash::rand_core::OsRng;
use argon2::password_hash::{PasswordHash, PasswordHasher, PasswordVerifier, SaltString};
use argon2::Argon2;

verus! {

/// Longest password, in bytes, that Argon2 accepts.
pub const MAX_PASSWORD_BYTES: usize = 0xFFFF_FFFF;

/// How every hash made here begins: Argon2id, version 19 (0x13), memory
/// 19456 KiB, 2 passes, 1 lane.
pub const DEFAULT_PHC_PREFIX: &'static str = "$argon2id$v=19$m=19456,t=2,p=1$";

/// `hash` is a PHC string that begins with `DEFAULT_PHC_PREFIX`.
pub open spec fn has_default_prefix(hash: Seq<char>) -> bool {
    DEFAULT_PHC_PREFIX@.len() <= hash.len() && hash.subrange(0, DEFAULT_PHC_PREFIX@.len() as int)
        == DEFAULT_PHC_PREFIX@
}

/// A hash with the default prefix begins with the Argon2id identifier,
/// version 19 and the parameters m=19456, t=2, p=1.
pub proof fn lemma_default_prefix_rule(hash: Seq<char>)
    ensures
        has_default_prefix(hash) <==> (31 <= hash.len() && hash.subrange(0, 31)
            == "$argon2id$v=19$m=19456,t=2,p=1$"@),
{
    reveal_strlit("$argon2id$v=19$m=19456,t=2,p=1$");
    assert(DEFAULT_PHC_PREFIX@ == "$argon2id$v=19$m=19456,t=2,p=1$"@);
}

/// Error type of the `password-hash` crate, carried opaquely.
#[verifier::external_type_specification]
#[verifier::external_body]
pub struct ExPhcError(argon2::password_hash::Error);

/// Whether `PasswordHash::new` parses the string as a PHC string.
pub uninterp spec fn phc_parses(hash: Seq<char>) -> bool;

/// Whether `Argon2::default().verify_password` accepts the password against
/// the parsed PHC string (the parameters and salt are read from the string).
pub uninterp spec fn argon2_accepts(password: Seq<char>, hash: Seq<char>) -> bool;

/// Trusted: calls `SaltString::generate(&mut OsRng)` and then
/// `Argon2::default().hash_password(password.as_bytes(), &salt)`, rendered
/// with `to_string()`.
/// Claimed: hashing succeeds whenever the password fits in Argon2's maximum
/// length (a generated salt always has the 16 bytes Argon2 wants); what comes
/// out begins with the default Argon2id v19 algorithm and parameters
/// (`Argon2::default()`, written by `PasswordHash`'s `Display`), parses as a
/// PHC string and verifies against the same password, as the crate's
/// documented round trip shows. The salt and hash fields rest on the random
/// salt and are left unsaid.
#[verifier::external_body]
fn argon2_hash_with_fresh_salt(password: &str) -> (r: Result<String, argon2::password_hash::Error>)
    ensures
        password.spec_bytes().len() <= MAX_PASSWORD_BYTES ==> r is Ok,
        r matches Ok(h) ==> phc_parses(h@) && argon2_accepts(password@, h@),
        r matches Ok(h) ==> has_default_prefix(h@),
{
    let salt = SaltString::generate(&mut OsRng);
    Argon2::default().hash_password(password.as_bytes(), &salt).map(|h| h.to_string())
}

/// Trusted: `PasswordHash::new(hash).is_ok()`.
/// Claimed: the result is the name `phc_parses` of the string.
#[verifier::external_body]
pub(crate) fn phc_string_parses(hash: &str) -> (b: bool)
    ensures
        b == phc_parses(hash@),
{
    PasswordHash::new(hash).is_ok()
}

/// Trusted: parses `hash` with `PasswordHash::new` and calls
/// `Argon2::default().verify_password(password.as_bytes(), &parsed)`.
/// Claimed: on a string that parses, the call succeeds exactly when the name
/// `argon2_accepts` holds. Which error comes back on a refusal is left unsaid.
#[verifier::external_body]
fn argon2_verify(password: &str, hash: &str) -> (r: Result<(), argon2::password_hash::Error>)
    requires
        phc_parses(hash@),
    ensures
        r is Ok <==> argon2_accepts(password@, hash@),
{
    match PasswordHash::new(hash) {
        Ok(parsed) => Argon2::default().verify_password(password.as_bytes(), &parsed),
        Err(e) => Err(e),
    }
}

/// A password that does not match a stored hash.
#[derive(Debug, Clone, Copy, PartialEq, Eq, Structural)]
pub struct VerifyError;

/// Hashes a password with a fresh random salt into a PHC string of Argon2id
/// v19 with the default parameters. The result always verifies against the
/// same password.
pub fn hash_password(password: &str) -> (h: String)
    requires
        password.spec_bytes().len() <= MAX_PASSWORD_BYTES,
    ensures
        has_default_prefix(h@),
        phc_parses(h@),
        argon2_accepts(password@, h@),
{
    match argon2_hash_with_fresh_salt(password) {
        Ok(h) => h,
        Err(_) => unreached(),
    }
}

/// Checks a password against a stored PHC string.
pub fn verify_password(password: &str, password_hash: &str) -> (r: Result<(), VerifyError>)
    requires
        phc_parses(password_hash@),
    ensures
        r is Ok <==> argon2_accepts(password@, password_hash@),
{
    match argon2_verify(password, password_hash) {
        Ok(()) => Ok(()),
        Err(_) => Err(VerifyError),
    }
}

} // verus!
