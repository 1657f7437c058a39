//! Password hashing with Argon2id and the PHC string format.
//!
//! Hashing and checking are done by the `argon2` crate. What it computes is
//! a function of the password and the salt (or the stored hash) alone, so
//! each result has a name here, and the functions of this module say which
//! named result they return.

use crate::text::outcome_text;
use argon2::password_hash::rand_core::OsRng;
use argon2::password_hash::{PasswordHash, PasswordHasher, PasswordVerifier, Salt, SaltString};
use argon2::Argon2;
use vstd::prelude::*;
use vstd::string::*;

verus! {

/// The hashing context: the salt that new password hashes are made with, in
/// its unpadded Base64 form.
#[derive(Debug, Clone, PartialEq, Eq)]
pub struct Argon {
    pub salt: String,
}

/// The shared utilities of the service.
#[allow(non_snake_case)]
#[derive(Debug, Clone, PartialEq, Eq)]
pub struct Util {
    pub Argon: Argon,
}

/// The number of characters of a freshly generated salt: sixteen bytes in
/// unpadded Base64.
pub const GENERATED_SALT_LENGTH: usize = 22;

/// What hashing a password with a salt gives under the default Argon2id
/// parameters: the PHC string, or the report of why there is none.
pub uninterp spec fn argon2_phc(password: Seq<char>, salt: Seq<char>) -> Result<
    Seq<char>,
    Seq<char>,
>;

/// Why a text is not a PHC string; `None` for one that is.
pub uninterp spec fn phc_parse_error(hash: Seq<char>) -> Option<Seq<char>>;

/// Whether verification under Argon2 accepts a password for a PHC string.
pub uninterp spec fn argon2_accepts(password: Seq<char>, hash: Seq<char>) -> bool;

/// Generates a salt with `SaltString::generate` on the operating system's
/// random number generator.
///
/// Trusted: sixteen random bytes are encoded, which always gives twenty-two
/// characters. Nothing else is said of them.
#[verifier::external_body]
fn generate_salt() -> (salt: String)
    ensures
        salt@.len() == GENERATED_SALT_LENGTH,
{
    SaltString::generate(&mut OsRng).as_str().to_string()
}

/// Hashes a password with `Argon2::default().hash_password`, after reading
/// the salt with `Salt::from_b64`, and renders the hash as a PHC string.
///
/// Trusted: the outcome is named `argon2_phc`. A salt that cannot be read
/// and a hashing failure both come back as the crate's report.
#[verifier::external_body]
fn argon2_hash(password: &str, salt: &str) -> (hash: Result<String, String>)
    ensures
        outcome_text(hash) == argon2_phc(password@, salt@),
{
    let salt = match Salt::from_b64(salt) {
        Ok(salt) => salt,
        Err(e) => return Err(e.to_string()),
    };
    match Argon2::default().hash_password(password.as_bytes(), salt) {
        Ok(hash) => Ok(hash.to_string()),
        Err(e) => Err(e.to_string()),
    }
}

/// Parses a stored hash with `PasswordHash::new` and keeps the report of a
/// failure.
///
/// Trusted: the outcome is named `phc_parse_error`.
#[verifier::external_body]
fn phc_check(hash: &str) -> (report: Option<String>)
    ensures
        match report {
            Some(m) => phc_parse_error(hash@) == Some(m@),
            None => phc_parse_error(hash@) is None,
        },
{
    match PasswordHash::new(hash) {
        Ok(_) => None,
        Err(e) => Some(e.to_string()),
    }
}

/// Checks a password against a stored hash with
/// `Argon2::default().verify_password`, after parsing the hash with
/// `PasswordHash::new`.
///
/// Trusted: for a stored text that parses, whether verification succeeded is
/// named `argon2_accepts`. A text that does not parse is left out.
#[verifier::external_body]
fn argon2_check(password: &str, hash: &str) -> (accepted: bool)
    requires
        phc_parse_error(hash@) is None,
    ensures
        accepted == argon2_accepts(password@, hash@),
{
    match PasswordHash::new(hash) {
        Ok(parsed) => Argon2::default().verify_password(password.as_bytes(), &parsed).is_ok(),
        Err(_) => false,
    }
}

/// A hashing context with a fresh random salt.
pub fn initialise_argon() -> (argon: Argon)
    ensures
        argon.salt@.len() == GENERATED_SALT_LENGTH,
{
    Argon { salt: generate_salt() }
}

/// The utilities of a starting service.
pub fn initialise() -> (util: Util)
    ensures
        util.Argon.salt@.len() == GENERATED_SALT_LENGTH,
{
    Util { Argon: initialise_argon() }
}

/// Hashes a password with the salt of the context: the PHC string
/// (`$argon2id$v=19$...`), or the report of why hashing failed.
pub fn hasher(password: String, argon: Argon) -> (hash: Result<String, String>)
    ensures
        outcome_text(hash) == argon2_phc(password@, argon.salt@),
{
    argon2_hash(password.as_str(), argon.salt.as_str())
}

/// What checking a submitted password against a stored hash gives: the
/// report of the parser for a stored text that is no PHC string, and whether
/// the password matches otherwise.
pub open spec fn verified(inp_password: Seq<char>, user_password: Seq<char>) -> Result<
    bool,
    Seq<char>,
> {
    match phc_parse_error(user_password) {
        Some(report) => Err(report),
        None => Ok(argon2_accepts(inp_password, user_password)),
    }
}

/// Checks a submitted password against the stored hash of a user. The salt
/// and the parameters are those of the stored hash; the context is not
/// consulted.
pub fn verify(inp_password: String, user_password: String, argon: Argon) -> (outcome: Result<
    bool,
    String,
>)
    ensures
        match outcome {
            Ok(b) => verified(inp_password@, user_password@) == Ok::<bool, Seq<char>>(b),
            Err(m) => verified(inp_password@, user_password@) == Err::<bool, Seq<char>>(m@),
        },
{
    match phc_check(user_password.as_str()) {
        Some(report) => Err(report),
        None => Ok(argon2_check(inp_password.as_str(), user_password.as_str())),
    }
}

} // verus!
