use vstd::prelude::*;
use crate::model::{SessionError, User};
use crate::records::{Record, first_field_text, first_text_field};
use argon2::password_hash::{PasswordHash, PasswordHasher, PasswordVerifier, SaltString};
use argon2::password_hash::rand_core::OsRng;
use argon2::Argon2;

verus! {

/// Whether `secret` matches the stored argon2 digest `digest`: `None` when the
/// digest cannot be parsed.
pub uninterp spec fn secret_check(digest: Seq<char>, secret: Seq<char>) -> Option<bool>;

/// Relies on argon2's `hash_password` with default parameters and a fresh
/// salt from the OS: the digest differs from call to call, and on success it
/// is one that the verifier accepts for the same secret.
#[verifier::external_body]
fn hash_secret(secret: &str) -> (r: Result<String, String>)
    ensures
        r is Ok ==> secret_check(r->Ok_0@, secret@) == Some(true),
{
    let salt = SaltString::generate(&mut OsRng);
    match Argon2::default().hash_password(secret.as_bytes(), &salt) {
        Ok(h) => Ok(h.to_string()),
        Err(e) => Err(e.to_string()),
    }
}

/// Relies on argon2's `PasswordHash::new` and `verify_password` with default
/// parameters: the answer depends on the digest and the secret alone; a
/// digest that does not parse is an error.
#[verifier::external_body]
fn verify_secret(digest: &str, secret: &str) -> (r: Option<bool>)
    ensures
        r == secret_check(digest@, secret@),
{
    match PasswordHash::new(digest) {
        Ok(parsed) => Some(Argon2::default().verify_password(secret.as_bytes(), &parsed).is_ok()),
        Err(_) => None,
    }
}

/// The digest stored in a user record: the first stored object with a text
/// `password` field.
pub open spec fn stored_digest(r: Record) -> Option<Seq<char>> {
    match r {
        Record::Object(e) => first_field_text(e@, "password"@),
        _ => None,
    }
}

/// The outcome of a login given the stored digest (if any) and what the
/// verifier said of it. Every failure is the same `InvalidCredential`, so a
/// caller cannot tell an unknown user from a wrong secret.
pub open spec fn login_outcome(check: Option<Option<bool>>) -> Result<bool, SessionError> {
    match check {
        Some(Some(true)) => Ok(true),
        _ => Err(SessionError::InvalidCredential),
    }
}

/// The outcome of logging in with `secret` against the fetched user record.
pub open spec fn login_result(record: Record, secret: Seq<char>) -> Result<bool, SessionError> {
    login_outcome(match stored_digest(record) {
        Some(d) => Some(secret_check(d, secret)),
        None => None,
    })
}

/// Decides a login from the verifier's answer: `None` when no digest was
/// stored, `Some(None)` when it did not parse, `Some(Some(ok))` otherwise.
pub fn decide_login(check: Option<Option<bool>>) -> (r: Result<bool, SessionError>)
    ensures
        r == login_outcome(check),
{
    match check {
        Some(Some(true)) => Ok(true),
        _ => Err(SessionError::InvalidCredential),
    }
}

/// Checks `secret` against the user record fetched for a login. Succeeds
/// exactly when the record stores a digest that the verifier accepts for
/// `secret`; every other case is `InvalidCredential`.
pub fn login_user(record: &Record, secret: &str) -> (r: Result<bool, SessionError>)
    ensures
        r == login_result(*record, secret@),
{
    let key = String::from_str("password");
    let check = match first_text_field(record, &key) {
        Some(digest) => Some(verify_secret(digest.as_str(), secret)),
        None => None,
    };
    decide_login(check)
}

/// Logging in as an identity that does not exist (no stored digest) and
/// logging in to an existing one with a wrong secret fail with the same error.
pub proof fn lemma_login_failures_alike(missing: Record, existing: Record, secret: Seq<char>)
    requires
        stored_digest(missing).is_none(),
        stored_digest(existing).is_some(),
        secret_check(stored_digest(existing)->Some_0, secret) == Some(false),
    ensures
        login_result(missing, secret) == login_result(existing, secret),
        login_result(missing, secret) == Err::<bool, SessionError>(SessionError::InvalidCredential),
{
}

/// Whether registration may go on, given the lookup of `users/{username}`:
/// `Ok(true)` when something is stored there, `Err` when the lookup failed.
/// A stored record is a `Conflict`; a failed lookup counts as no record.
pub fn check_registration(username: &String, lookup: &Result<bool, String>) -> (r: Result<(), SessionError>)
    ensures
        (*lookup == Ok::<bool, String>(true)) ==> r is Err && r->Err_0 is Conflict
            && r->Err_0->Conflict_0@ == "User '"@ + username@ + "' already exists."@,
        !(*lookup == Ok::<bool, String>(true)) ==> r is Ok,
{
    match lookup {
        Ok(true) => {
            let mut msg = String::from_str("User '");
            msg.append(username.as_str());
            msg.append("' already exists.");
            Err(SessionError::Conflict(msg))
        },
        _ => Ok(()),
    }
}

/// The record that registers `username` with `secret`: the digest stored is
/// one that verifies `secret`, and the user starts without friends.
pub fn new_user(username: &String, secret: &str) -> (r: Result<User, SessionError>)
    ensures
        r is Ok ==> r->Ok_0.username@ == username@ && r->Ok_0.friends.is_none()
            && secret_check(r->Ok_0.password@, secret@) == Some(true),
        r is Err ==> r->Err_0 is Io,
{
    match hash_secret(secret) {
        Ok(digest) => Ok(User { username: username.clone(), password: digest, friends: None }),
        Err(e) => Err(SessionError::Io(e)),
    }
}

} // verus!
