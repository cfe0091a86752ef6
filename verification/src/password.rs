//! Argon2id password hashing and verification.

use vstd::prelude::*;
use argon2::password_hash::{rand_core::OsRng, PasswordHash, PasswordHasher, PasswordVerifier, SaltString};
use argon2::Argon2;

verus! {

#[verifier::external_type_specification]
#[verifier::external_body]
pub struct ExPasswordHashError(argon2::password_hash::Error);

/// Whether `Argon2::default().verify_password` accepts `password` against
/// the PHC string `hash` (after `PasswordHash::new` parses it).
pub uninterp spec fn argon2_accepts(hash: Seq<char>, password: Seq<char>) -> bool;

/// The most bytes of password the default Argon2 accepts
/// (`argon2::MAX_PWD_LEN`).
pub open spec fn max_password_bytes() -> nat {
    0xFFFF_FFFF
}

/// Whether `password` can be hashed: its UTF-8 encoding is within the
/// length Argon2 accepts.
pub open spec fn hashable(password: Seq<char>) -> bool {
    vstd::utf8::encode_utf8(password).len() <= max_password_bytes()
}

/// How a PHC string of the default Argon2 parameters begins: Argon2id,
/// version 19, 19456 KiB of memory, 2 passes, 1 lane.
pub open spec fn default_hash_prefix() -> Seq<char> {
    "$argon2id$v=19$m=19456,t=2,p=1$"@
}

/// Whether `hash` is a PHC string made with the default parameters.
pub open spec fn is_default_hash(hash: Seq<char>) -> bool {
    default_hash_prefix().is_prefix_of(hash)
}

/// Hashes `password` with the default Argon2 parameters (Argon2id) and a
/// fresh salt from the operating system's generator; the result is the PHC
/// string of the hash.
/// Claimed: it succeeds exactly when the password's UTF-8 encoding is at
/// most `argon2::MAX_PWD_LEN` bytes (the one input check that the default
/// parameters, a generated 16-byte salt and the default output length leave
/// to fail); a hash that comes back verifies `password` (the crate's
/// documented round trip) and begins with the default parameters' prefix.
/// Not claimed: the salt and the hash bytes (the salt is random), and the
/// text of the error.
#[verifier::external_body]
pub fn hash_password(password: &str) -> (r: Result<String, argon2::password_hash::Error>)
    ensures
        r is Ok <==> hashable(password@),
        r matches Ok(h) ==> argon2_accepts(h@, password@) && is_default_hash(h@),
{
    let salt = SaltString::generate(&mut OsRng);
    let hash = Argon2::default().hash_password(password.as_bytes(), &salt)?;
    Ok(hash.to_string())
}

/// Every UTF-8 encoding takes at most four bytes a character.
pub proof fn lemma_encoded_len_bound(s: Seq<char>)
    ensures
        vstd::utf8::encode_utf8(s).len() <= 4 * s.len(),
    decreases s.len(),
{
    if s.len() > 0 {
        lemma_encoded_len_bound(s.drop_first());
    }
}

/// Whether a text is shaped as a PHC string: it begins with `$`.
pub open spec fn phc_shaped(hash: Seq<char>) -> bool {
    hash.len() > 0 && hash[0] == '$'
}

/// Parses `hash` as a PHC string (`PasswordHash::new`) and checks
/// `password` against it with `Argon2::default().verify_password`.
/// Claimed: it succeeds exactly when `argon2_accepts(hash, password)`;
/// and a text that is not shaped as a PHC string fails (`PasswordHash::parse`
/// refuses an empty text, and one whose first field, before the first `$`,
/// is not empty).
#[verifier::external_body]
pub fn verify_password(hash: &str, password: &str) -> (r: argon2::password_hash::Result<()>)
    ensures
        r is Ok <==> argon2_accepts(hash@, password@),
        !phc_shaped(hash@) ==> r is Err,
{
    let parsed = PasswordHash::new(hash)?;
    Argon2::default().verify_password(password.as_bytes(), &parsed)
}

/// The text of a hashing error (`Display` of `password_hash::Error`).
/// Nothing is claimed of the text.
#[verifier::external_body]
pub(crate) fn password_error_text(e: &argon2::password_hash::Error) -> String {
    e.to_string()
}

} // verus!
