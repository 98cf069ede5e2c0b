//! Password checking for the API: argon2 hashes in the PHC string format.

use vstd::prelude::*;
use crate::hex_codec::encode_utf8_of;

verus! {

/// Whether `argon2::PasswordHash::new` accepts `phc` as a PHC string.
pub uninterp spec fn phc_string_parses(phc: Seq<char>) -> bool;

/// Whether argon2, with its default parameters, accepts `password` for the
/// PHC string `phc`.
pub uninterp spec fn argon2_accepts(password: Seq<u8>, phc: Seq<char>) -> bool;

/// The PHC string of the argon2 hash (default parameters) of `password`
/// with the salt `salt` encoded in B64, or `None` when hashing fails.
pub uninterp spec fn argon2_phc_hash(password: Seq<u8>, salt: Seq<u8>) -> Option<Seq<char>>;

/// Parses `phc` with `argon2::PasswordHash::new` and, when it parses,
/// checks `password` against it with `Argon2::default().verify_password`.
/// Both outcomes are named, as functions of the string and the password; the
/// PHC grammar and the argon2 computation are not restated.
#[verifier::external_body]
fn argon2_check(password: &[u8], phc: &str) -> (res: Option<bool>)
    ensures
        res is Some <==> phc_string_parses(phc@),
        res matches Some(ok) ==> ok == argon2_accepts(password@, phc@),
{
    match argon2::PasswordHash::new(phc) {
        Ok(hash) => Some(
            argon2::PasswordVerifier::verify_password(
                &argon2::Argon2::default(),
                password,
                &hash,
            ).is_ok(),
        ),
        Err(_) => None,
    }
}

/// `Argon2::default().hash_password(password, &SaltString::encode_b64(salt)?)`,
/// rendered as a PHC string with its `Display`. The result is named. Beside
/// it the contract claims what the crates' source shows: the rendered PHC
/// string parses again, and `verify_password` re-hashes with the parameters
/// and salt stored in it, so the same password is accepted. A salt shorter
/// than 3 bytes encodes to fewer than 4 B64 characters, which `hash_password`
/// refuses with a panic when it reads the salt back; `requires` leaves it out.
#[verifier::external_body]
fn argon2_hash(password: &[u8], salt: &[u8]) -> (res: Option<String>)
    requires
        salt@.len() >= 3,
    ensures
        res.deep_view() == argon2_phc_hash(password@, salt@),
        res matches Some(h) ==> phc_string_parses(h@) && argon2_accepts(password@, h@),
{
    let salt = argon2::password_hash::SaltString::encode_b64(salt).ok()?;
    argon2::PasswordHasher::hash_password(&argon2::Argon2::default(), password, &salt).ok().map(
        |h| h.to_string(),
    )
}

/// How a login attempt ends.
#[derive(Debug, Clone, Copy, PartialEq, Eq, Structural)]
pub enum LoginOutcome {
    /// The configured password hash is not a PHC string.
    HashInvalid,
    /// The password matches the hash.
    Accepted,
    /// The password does not match the hash.
    Rejected,
}

/// How a login with `password` against the stored hash `phc` ends. With no
/// hash stored the API is open, and every login is accepted.
pub open spec fn login_outcome(phc: Seq<char>, password: Seq<u8>) -> LoginOutcome {
    if phc.len() == 0 {
        LoginOutcome::Accepted
    } else if !phc_string_parses(phc) {
        LoginOutcome::HashInvalid
    } else if argon2_accepts(password, phc) {
        LoginOutcome::Accepted
    } else {
        LoginOutcome::Rejected
    }
}

/// Checks `password` against the stored argon2 hash `password_hash`; an
/// empty hash leaves the API open.
pub fn check_login(password_hash: &str, password: &str) -> (res: LoginOutcome)
    ensures
        res == login_outcome(password_hash@, encode_utf8_of(password@)),
        password_hash@.len() == 0 ==> res == LoginOutcome::Accepted,
{
    if password_hash.is_empty() {
        return LoginOutcome::Accepted;
    }
    match argon2_check(password.as_bytes(), password_hash) {
        None => LoginOutcome::HashInvalid,
        Some(true) => LoginOutcome::Accepted,
        Some(false) => LoginOutcome::Rejected,
    }
}

/// The fixed salt with which API passwords are hashed.
pub open spec fn api_password_salt() -> Seq<u8> {
    encode_utf8_of("rustlightning123"@)
}

/// The PHC string to store for the API password `password`, or `None` when
/// hashing fails. A stored hash accepts the password it was made from.
pub fn hash_api_password(password: &str) -> (res: Option<String>)
    ensures
        res.deep_view() == argon2_phc_hash(encode_utf8_of(password@), api_password_salt()),
        res matches Some(h) ==> login_outcome(h@, encode_utf8_of(password@)) == LoginOutcome::Accepted,
{
    let salt: &str = "rustlightning123";
    let salt_bytes = salt.as_bytes();
    proof {
        reveal_strlit("rustlightning123");
        vstd::utf8::is_ascii_chars_encode_utf8(salt@);
    }
    argon2_hash(password.as_bytes(), salt_bytes)
}

} // verus!
