use vstd::prelude::*;
use vstd::utf8::encode_utf8;
use crate::error::ErrorMessage;
use argon2::password_hash::{PasswordHasher, PasswordVerifier};

verus! {

/// The longest accepted password, in bytes of its UTF-8 encoding.
pub const MAX_PASSWORD_LENGTH: usize = 64;

/// Length of `s` in bytes of its UTF-8 encoding.
pub open spec fn byte_len(s: Seq<char>) -> int {
    encode_utf8(s).len() as int
}

/// `stored` begins `$argon2id$v=19$`: the algorithm and version fields of a
/// PHC string.
pub open spec fn argon2id_v19(stored: Seq<char>) -> bool {
    stored.len() >= 15 && stored.subrange(0, 15) == "$argon2id$v=19$"@
}

/// `stored` parses as a PHC-format password hash string.
pub uninterp spec fn phc_valid(stored: Seq<char>) -> bool;

/// Argon2 verification of `password` against the PHC string `stored`, with the
/// algorithm, parameters and salt recorded in `stored`.
pub uninterp spec fn argon2_accepts(password: Seq<char>, stored: Seq<char>) -> bool;

/// Relies on `password_hash::PasswordHash::new`: whether the string parses.
#[verifier::external_body]
fn parse_phc(stored: &str) -> (r: bool)
    ensures
        r == phc_valid(stored@),
{
    argon2::password_hash::PasswordHash::new(stored).is_ok()
}

/// Relies on `PasswordVerifier::verify_password` of `argon2::Argon2`, on the
/// hash that `PasswordHash::new` parsed from `stored`.
#[verifier::external_body]
fn argon2_verify(password: &str, stored: &str) -> (r: bool)
    requires
        phc_valid(stored@),
    ensures
        r == argon2_accepts(password@, stored@),
{
    match argon2::password_hash::PasswordHash::new(stored) {
        Ok(h) => argon2::Argon2::default().verify_password(password.as_bytes(), &h).is_ok(),
        Err(_) => false,
    }
}

/// Relies on `PasswordHasher::hash_password` of the default `argon2::Argon2`
/// (Argon2id, version 0x13), with a salt from `SaltString::generate(OsRng)`:
/// the PHC string it renders names that algorithm and version, parses again
/// and verifies the same password.
#[verifier::external_body]
fn argon2_hash(password: &str) -> (r: Option<String>)
    ensures
        r matches Some(s) ==> phc_valid(s@) && argon2_accepts(password@, s@)
            && argon2id_v19(s@),
{
    let salt = argon2::password_hash::SaltString::generate(&mut argon2::password_hash::rand_core::OsRng);
    let hashed = argon2::Argon2::default().hash_password(password.as_bytes(), &salt).ok()?;
    Some(hashed.to_string())
}

/// The length rule shared by hashing and verification: `None` when the
/// password is acceptable.
pub open spec fn length_error(password: Seq<char>) -> Option<ErrorMessage> {
    if password.len() == 0 {
        Some(ErrorMessage::EmptyPassword)
    } else if byte_len(password) > MAX_PASSWORD_LENGTH {
        Some(ErrorMessage::ExceededMaxPasswordLength(MAX_PASSWORD_LENGTH))
    } else {
        None
    }
}

/// `stored` is a hash of `password`: a PHC string that verifies it.
pub open spec fn hashed_from(password: Seq<char>, stored: Seq<char>) -> bool {
    phc_valid(stored) && argon2_accepts(password, stored)
}

/// What verifying `password` against `stored` yields.
pub open spec fn compare_outcome(password: Seq<char>, stored: Seq<char>) -> Result<bool, ErrorMessage> {
    match length_error(password) {
        Some(e) => Err(e),
        None => if !phc_valid(stored) {
            Err(ErrorMessage::InvalidHashFormat)
        } else {
            Ok(argon2_accepts(password, stored))
        },
    }
}

fn check_length(password: &str) -> (r: Option<ErrorMessage>)
    ensures
        r == length_error(password@),
{
    if password.is_empty() {
        Some(ErrorMessage::EmptyPassword)
    } else if password.as_bytes().len() > MAX_PASSWORD_LENGTH {
        Some(ErrorMessage::ExceededMaxPasswordLength(MAX_PASSWORD_LENGTH))
    } else {
        None
    }
}

/// Hashes `password` with Argon2 and a fresh random salt.
pub fn hash(password: &str) -> (r: Result<String, ErrorMessage>)
    ensures
        length_error(password@) matches Some(e) ==> r == Err::<String, ErrorMessage>(e),
        length_error(password@) is None ==> match r {
            Ok(s) => hashed_from(password@, s@) && argon2id_v19(s@),
            Err(e) => e == ErrorMessage::HashingError,
        },
{
    if let Some(e) = check_length(password) {
        return Err(e);
    }
    match argon2_hash(password) {
        Some(s) => Ok(s),
        None => Err(ErrorMessage::HashingError),
    }
}

/// Verifies `password` against the stored hash `hashed_password`. A wrong
/// password is `Ok(false)`, never an error.
pub fn compare(password: &str, hashed_password: &str) -> (r: Result<bool, ErrorMessage>)
    ensures
        r == compare_outcome(password@, hashed_password@),
{
    if let Some(e) = check_length(password) {
        return Err(e);
    }
    if !parse_phc(hashed_password) {
        return Err(ErrorMessage::InvalidHashFormat);
    }
    Ok(argon2_verify(password, hashed_password))
}

/// Every password of acceptable length verifies against any hash made of it.
pub proof fn lemma_hash_then_compare(password: Seq<char>, stored: Seq<char>)
    requires
        password.len() > 0,
        byte_len(password) <= MAX_PASSWORD_LENGTH,
        hashed_from(password, stored),
    ensures
        compare_outcome(password, stored) == Ok::<bool, ErrorMessage>(true),
{
}

/// Registration's password rule: present and at least six bytes long. `None`
/// when the password passes.
pub open spec fn password_rule(password: Seq<char>) -> Option<Seq<char>> {
    if password.len() == 0 {
        Some("Password is required"@)
    } else if byte_len(password) < 6 {
        Some("Password must be at least 6 characters"@)
    } else {
        None
    }
}

/// Registration's password rule, with its message on failure.
pub fn validate_password(password: &str) -> (r: Result<(), String>)
    ensures
        password_rule(password@) matches Some(m) ==> (r matches Err(e) && e@ == m),
        password_rule(password@) is None ==> r is Ok,
{
    if password.is_empty() {
        return Err("Password is required".to_owned());
    }
    if password.as_bytes().len() < 6 {
        return Err("Password must be at least 6 characters".to_owned());
    }
    Ok(())
}

} // verus!
