//! Password hashing with argon2.
use crate::domain::user::UserError;
use vstd::prelude::*;
use vstd::string::StringSliceAdditionalSpecFns;

verus! {

/// How checking a password against a stored argon2 hash came out.
#[derive(Debug, Clone, Copy, PartialEq, Eq, Structural)]
pub enum PasswordCheck {
    /// The password is the one the hash was made from.
    Matches,
    /// The hash was read, and the password is not the one it was made from.
    Mismatch,
    /// The stored text is no PHC password hash.
    Unreadable,
    /// Verifying failed for another reason.
    Failed,
}

/// How `argon2`'s `PasswordHash::new(hash)` and then
/// `Argon2::default().verify_password(password, ..)` come out.
pub uninterp spec fn argon2_check(password: Seq<char>, hash: Seq<char>) -> PasswordCheck;

/// Calls `argon2::password_hash::PasswordHash::new` on `hash`, then
/// `argon2::Argon2::default().verify_password` with the password's bytes;
/// tells the outcomes apart, handing on the error where there is one.
/// `PasswordHash::new` refuses an empty text, and one whose first field
/// (what stands before the first `$`) is not empty, so a text that does not
/// start with `$` is unreadable; what else the PHC grammar refuses, and which
/// passwords match a given hash, is left to the name `argon2_check`.
#[verifier::external_body]
fn argon2_verify(password: &str, hash: &str) -> (r: (PasswordCheck, Option<anyhow::Error>))
    ensures
        r.0 == argon2_check(password@, hash@),
        (r.0 == PasswordCheck::Unreadable || r.0 == PasswordCheck::Failed) <==> r.1 is Some,
        (hash@.len() == 0 || hash@[0] != '$') ==> r.0 == PasswordCheck::Unreadable,
{
    let parsed = match argon2::password_hash::PasswordHash::new(hash) {
        Ok(p) => p,
        Err(e) => return (PasswordCheck::Unreadable, Some(anyhow::Error::msg(e).context("Failed to parse stored hash"))),
    };
    match argon2::PasswordVerifier::verify_password(&argon2::Argon2::default(), password.as_bytes(), &parsed) {
        Ok(()) => (PasswordCheck::Matches, None),
        Err(argon2::password_hash::Error::Password) => (PasswordCheck::Mismatch, None),
        Err(e) => (PasswordCheck::Failed, Some(anyhow::Error::msg(e).context("Failed to verify password"))),
    }
}

/// The start of every PHC string `Argon2::default()` writes: the algorithm
/// Argon2id, version 19, and the default costs (m = 19456, t = 2, p = 1).
pub open spec fn default_argon2_prefix() -> Seq<char> {
    "$argon2id$v=19$m=19456,t=2,p=1$"@
}

/// Calls `argon2::Argon2::default().hash_password` with the password's bytes
/// and a salt drawn from `OsRng`, and writes the PHC string. The salt is
/// random, so the salt and digest that follow the prefix are not stated; what
/// is stated is the prefix `PasswordHash`'s `Display` writes for the default
/// algorithm, version and costs, and that checking the same password against
/// the string written matches, as `verify_password` recomputes the digest
/// from the salt and costs the string holds. `hash_password` refuses only a
/// password longer than `u32::MAX` bytes (`verify_inputs`); the salt it is
/// given has 16 bytes and the default output length is within bounds, so any
/// shorter password is hashed.
#[verifier::external_body]
fn argon2_hash(password: &str) -> (r: Result<String, anyhow::Error>)
    ensures
        password.spec_bytes().len() <= 0xFFFF_FFFF ==> r is Ok,
        r matches Ok(h) ==> default_argon2_prefix().is_prefix_of(h@),
        r matches Ok(h) ==> argon2_check(password@, h@) == PasswordCheck::Matches,
{
    let salt = argon2::password_hash::SaltString::generate(&mut argon2::password_hash::rand_core::OsRng);
    match argon2::PasswordHasher::hash_password(&argon2::Argon2::default(), password.as_bytes(), &salt) {
        Ok(h) => Ok(h.to_string()),
        Err(e) => Err(anyhow::Error::msg(e).context("Failed to hash password")),
    }
}

/// `hash` is a PHC string that `Argon2::default()` wrote for `password`:
/// it starts with the default prefix, and `password` checks against it as
/// matching.
pub open spec fn is_default_hash_of(password: Seq<char>, hash: Seq<char>) -> bool {
    &&& default_argon2_prefix().is_prefix_of(hash)
    &&& argon2_check(password, hash) == PasswordCheck::Matches
}

/// What checking `password` against the stored `hash` answers: whether it
/// matches, or `None` where the hash cannot be read or the check fails.
pub open spec fn verify_outcome(password: Seq<char>, hash: Seq<char>) -> Option<bool> {
    match argon2_check(password, hash) {
        PasswordCheck::Matches => Some(true),
        PasswordCheck::Mismatch => Some(false),
        _ => None,
    }
}

/// A password checks as matching against every hash that hashing it gave.
pub proof fn lemma_password_matches_own_hash(password: Seq<char>, hash: Seq<char>)
    requires
        is_default_hash_of(password, hash),
    ensures
        verify_outcome(password, hash) == Some(true),
{
}

/// Password hashing with the argon2 algorithm.
#[derive(Debug, Clone, Copy)]
pub struct ArgonPasswordHasher;

impl ArgonPasswordHasher {
    /// The argon2 hash of `password` under a fresh random salt: a PHC string
    /// of Argon2id with the default costs, against which `password` checks
    /// as matching. Only a password longer than `u32::MAX` bytes fails, with
    /// an unknown error.
    pub fn hash(&self, password: &str) -> (r: Result<String, UserError>)
        ensures
            password.spec_bytes().len() <= 0xFFFF_FFFF ==> r is Ok,
            r is Err ==> r matches Err(UserError::Unknown(_)),
            r matches Ok(h) ==> is_default_hash_of(password@, h@),
    {
        match argon2_hash(password) {
            Ok(h) => Ok(h),
            Err(e) => Err(UserError::Unknown(e)),
        }
    }

    /// Whether `password` is the one `hash` was made from; a stored text
    /// that cannot be read (among them any that does not start with `$`), or
    /// a failed check, is an unknown error.
    pub fn verify(&self, password: &str, hash: &str) -> (r: Result<bool, UserError>)
        ensures
            (hash@.len() == 0 || hash@[0] != '$') ==> r matches Err(UserError::Unknown(_)),
            match verify_outcome(password@, hash@) {
                Some(b) => r == Ok::<bool, UserError>(b),
                None => r matches Err(UserError::Unknown(_)),
            },
    {
        let (check, error) = argon2_verify(password, hash);
        match (check, error) {
            (PasswordCheck::Matches, _) => Ok(true),
            (PasswordCheck::Mismatch, _) => Ok(false),
            (_, Some(e)) => Err(UserError::Unknown(e)),
            (_, None) => Ok(false),
        }
    }
}

} // verus!
