//! Argon2 password hashing, through the `argon2` crate.
//!
//! A hash is a PHC string (`$argon2id$v=19$m=...,t=...,p=...$<salt>$<output>`)
//! made with the crate's default parameters and a random salt.

use argon2::password_hash::{PasswordHash, Salt, SaltString};
use argon2::{Argon2, PasswordHasher, PasswordVerifier};
use rand_core::OsRng;
use crate::text::{lemma_starts_with_front, starts_with};
use vstd::prelude::*;

verus! {

/// What `Argon2::default().hash_password(password, salt)` yields for a
/// password (as bytes) and a B64 salt: the PHC string, or the text of its
/// error.
pub uninterp spec fn argon2_phc(password: Seq<u8>, salt: Seq<char>) -> Result<Seq<char>, Seq<char>>;

/// Whether `PasswordHash::new` accepts the string as a PHC hash.
pub uninterp spec fn phc_parses(hash: Seq<char>) -> bool;

/// What `Argon2::default().verify_password(password, &parsed)` says of a
/// password and a parsed PHC hash: `Some(true)` when it returns `Ok`,
/// `Some(false)` when it returns `Error::Password`, `None` on any other error.
pub uninterp spec fn argon2_verdict(password: Seq<u8>, hash: Seq<char>) -> Option<bool>;

/// `hash` is what hashing `password` with some salt gives.
pub open spec fn is_hash_of(password: Seq<u8>, hash: Seq<char>) -> bool {
    exists|salt: Seq<char>| #[trigger] argon2_phc(password, salt) == Ok::<Seq<char>, Seq<char>>(hash)
}

/// `hash` is what hashing some password with some salt gives.
pub open spec fn is_argon2_hash(hash: Seq<char>) -> bool {
    exists|password: Seq<u8>, salt: Seq<char>| #[trigger] argon2_phc(password, salt) == Ok::<Seq<char>, Seq<char>>(hash)
}

/// Argon2 takes passwords of at most `u32::MAX` bytes.
pub open spec fn fits_argon2(password: Seq<u8>) -> bool {
    password.len() <= 0xFFFF_FFFF
}

/// How every hash made with the default parameters begins: algorithm
/// Argon2id, version 19, 19 MiB of memory, 2 passes, 1 lane.
pub open spec fn phc_prefix() -> Seq<char> {
    "$argon2id$v=19$m=19456,t=2,p=1$"@
}

/// A character of the B64 alphabet (standard Base64 without padding).
pub open spec fn is_b64_char(c: char) -> bool {
    ('A' <= c && c <= 'Z') || ('a' <= c && c <= 'z') || ('0' <= c && c <= '9') || c == '+' || c == '/'
}

/// A hash made with a salt begins with the default prefix.
pub proof fn lemma_salted_prefix(hash: Seq<char>, salt: Seq<char>)
    requires
        starts_with(hash, phc_prefix() + salt + "$"@),
    ensures
        starts_with(hash, phc_prefix()),
{
    assert(phc_prefix() + salt + "$"@ =~= phc_prefix() + (salt + "$"@));
    lemma_starts_with_front(hash, phc_prefix(), salt + "$"@);
}

/// What checking a password against a stored hash found.
#[derive(Debug, Clone, PartialEq, Eq)]
pub enum PasswordCheck {
    /// The password hashes to the stored output.
    Match,
    /// The password does not hash to the stored output.
    Mismatch,
    /// The stored string is not a PHC hash; the parser's message.
    Malformed(String),
    /// The hash could not be recomputed; the hasher's message.
    Failed(String),
}

/// Calls `SaltString::generate(&mut OsRng)`: 16 bytes
/// (`Salt::RECOMMENDED_LENGTH`) from the operating system's random source,
/// encoded as B64. The salt is random; claimed of every salt drawn: 16 bytes
/// in B64 are 22 characters of that alphabet, and hashing with it succeeds
/// for every password Argon2 takes (the only other failures of
/// `hash_password` are a salt that is no B64, shorter than 8 bytes once
/// decoded, or a wrong output length, none of which can happen here). Where
/// the operating system supplies no random bytes, `OsRng::fill_bytes`
/// panics and the call does not return; that rests on the machine, not on
/// any argument.
#[verifier::external_body]
pub(crate) fn generate_salt() -> (salt: String)
    ensures
        salt@.len() == 22,
        forall|i: int| 0 <= i < salt@.len() ==> #[trigger] is_b64_char(salt@[i]),
        forall|pw: Seq<u8>| fits_argon2(pw) ==> (#[trigger] argon2_phc(pw, salt@)) is Ok,
{
    SaltString::generate(&mut OsRng).as_str().to_string()
}

/// Calls `Salt::from_b64(salt)` and then `Argon2::default().hash_password`
/// on the password's bytes and that salt, and renders the hash as a PHC
/// string, or renders its error. Claimed: the outcome is `argon2_phc`; a
/// hash it makes parses as a PHC string, and is the default prefix, the
/// salt and `$` followed by the output (as `PasswordHash`'s `Display`
/// writes it).
#[verifier::external_body]
pub(crate) fn argon2_hash(password: &[u8], salt: &str) -> (res: Result<String, String>)
    ensures
        match argon2_phc(password@, salt@) {
            Ok(h) => (res matches Ok(r) && r@ == h),
            Err(why) => (res matches Err(r) && r@ == why),
        },
        res matches Ok(h) ==> phc_parses(h@) && starts_with(h@, phc_prefix() + salt@ + "$"@),
{
    let salt = match Salt::from_b64(salt) {
        Ok(s) => s,
        Err(e) => return Err(e.to_string()),
    };
    match Argon2::default().hash_password(password, salt) {
        Ok(h) => Ok(h.to_string()),
        Err(e) => Err(e.to_string()),
    }
}

/// Calls `PasswordHash::new(hash)` and, where it parses, then
/// `Argon2::default().verify_password` on the password's bytes. Claimed: a
/// malformed string is reported as such, a parsed one as `argon2_verdict`
/// says, and a string that hashing this very password produced (with any
/// salt) always matches, since verifying recomputes the hash with the salt
/// and parameters stored in the string. A string that hashing any password
/// produced parses, and recomputing it fails only on a password Argon2 does
/// not take, so such a string is either matched or not. The texts of
/// failures are unstated.
#[verifier::external_body]
pub(crate) fn argon2_check(password: &[u8], hash: &str) -> (res: PasswordCheck)
    ensures
        res is Malformed <==> !phc_parses(hash@),
        phc_parses(hash@) ==> (res is Match <==> argon2_verdict(password@, hash@) == Some(true)),
        phc_parses(hash@) ==> (res is Mismatch <==> argon2_verdict(password@, hash@) == Some(
            false,
        )),
        phc_parses(hash@) ==> (res is Failed <==> argon2_verdict(password@, hash@) is None),
        is_hash_of(password@, hash@) ==> res is Match,
        is_argon2_hash(hash@) ==> !(res is Malformed),
        is_argon2_hash(hash@) && fits_argon2(password@) ==> (res is Match || res is Mismatch),
{
    let parsed = match PasswordHash::new(hash) {
        Ok(p) => p,
        Err(e) => return PasswordCheck::Malformed(e.to_string()),
    };
    match Argon2::default().verify_password(password, &parsed) {
        Ok(()) => PasswordCheck::Match,
        Err(argon2::password_hash::Error::Password) => PasswordCheck::Mismatch,
        Err(e) => PasswordCheck::Failed(e.to_string()),
    }
}

} // verus!
