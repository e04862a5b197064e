//! Passwords: hashing at sign-up and reset, checking at sign-in.
//!
//! The hash itself is Argon2's, salted at random for every password, and is
//! kept as an opaque text. What is decided here is what each outcome of a
//! check leads to.

use crate::failure::Failure;
use crate::session::{carries, claims_in, seal, SessionCookie, UserClaims};
use crate::token::{PasswordResetQuery, TokenEngine};
use crate::text::utf8;
use crate::user::User;
use argon2::password_hash::rand_core::OsRng;
use argon2::password_hash::{PasswordHash, PasswordHasher, PasswordVerifier, SaltString};
use argon2::Argon2;
use vstd::prelude::*;

verus! {

/// The error of the `password_hash` crate.
#[verifier::external_type_specification]
#[verifier::external_body]
pub struct ExPasswordHashError(argon2::password_hash::Error);

/// Whether `PasswordHash::new` accepts `stored` as a hash in PHC format.
pub uninterp spec fn hash_parses(stored: Seq<char>) -> bool;

/// Whether `Argon2::default().verify_password` finds that `password`
/// hashes to the parsed form of `stored`.
pub uninterp spec fn password_matches(password: Seq<u8>, stored: Seq<char>) -> bool;

/// The credentials given at sign-in.
#[derive(Clone, Debug)]
pub struct SignInForm {
    pub email: String,
    pub password: String,
}

/// How a password stands to a stored hash.
#[derive(Clone, Copy, Debug, PartialEq, Eq, Structural)]
pub enum PasswordCheck {
    /// The password is the one that was hashed.
    Match,
    /// It is another one.
    Mismatch,
    /// The stored text is no hash at all.
    Malformed,
}

/// The check of `password` against `stored`.
pub open spec fn checked(password: Seq<u8>, stored: Seq<char>) -> PasswordCheck {
    if !hash_parses(stored) {
        PasswordCheck::Malformed
    } else if password_matches(password, stored) {
        PasswordCheck::Match
    } else {
        PasswordCheck::Mismatch
    }
}

/// Calls `PasswordHash::new` on `stored`, and on what it parsed
/// `Argon2::default().verify_password`. The contract claims that both
/// depend on their arguments alone: the salt and the cost parameters are
/// part of the stored text.
#[verifier::external_body]
fn check_password(password: &[u8], stored: &str) -> (check: PasswordCheck)
    ensures
        check == (if !hash_parses(stored@) {
            PasswordCheck::Malformed
        } else if password_matches(password@, stored@) {
            PasswordCheck::Match
        } else {
            PasswordCheck::Mismatch
        }),
{
    match PasswordHash::new(stored) {
        Ok(parsed) => match Argon2::default().verify_password(password, &parsed) {
            Ok(()) => PasswordCheck::Match,
            Err(_) => PasswordCheck::Mismatch,
        },
        Err(_) => PasswordCheck::Malformed,
    }
}

/// Calls `SaltString::generate` on the system's random source and
/// `Argon2::default().hash_password` with that salt, and writes the hash
/// out as PHC text. The salt is random, so the text is not determined by
/// the password. The contract claims what holds of every text that comes
/// back: it parses, and the password it was made from verifies against it.
#[verifier::external_body]
fn hash_password(password: &[u8]) -> (hashed: Result<String, argon2::password_hash::Error>)
    ensures
        hashed matches Ok(text) ==> hash_parses(text@) && password_matches(password@, text@),
{
    let salt = SaltString::generate(&mut OsRng);
    Argon2::default().hash_password(password, &salt).map(|hash| hash.to_string())
}

/// The password check that sign-in rests on.
pub fn check(password: &str, stored: &str) -> (r: PasswordCheck)
    ensures
        r == checked(utf8(password@), stored@),
{
    check_password(password.as_bytes(), stored)
}

/// Hashes a new password. A failure of the hash function is reported as
/// `UpstreamUnavailable`.
pub fn hash(password: &str) -> (r: Result<String, Failure>)
    ensures
        r matches Ok(text) ==> checked(utf8(password@), text@) == PasswordCheck::Match,
        r matches Err(failure) ==> failure == Failure::UpstreamUnavailable,
{
    match hash_password(password.as_bytes()) {
        Ok(text) => Ok(text),
        Err(_) => Err(Failure::UpstreamUnavailable),
    }
}

/// What sign-in comes to, given the record found for the address, the
/// outcome of the password check against it, and the time.
pub open spec fn sign_in_verdict(found: Option<User>, check: PasswordCheck, now: u64) -> Result<
    UserClaims,
    Failure,
> {
    match found {
        None => Err(Failure::Unauthorized),
        Some(user) => match check {
            PasswordCheck::Malformed => Err(Failure::UpstreamUnavailable),
            PasswordCheck::Mismatch => Err(Failure::Unauthorized),
            PasswordCheck::Match => UserClaims::issued(user, now),
        },
    }
}

/// Decides a sign-in from the outcome of the password check: an unknown
/// address and a wrong password are both `Unauthorized`, a stored hash that
/// cannot be read is a fault of the service, and a match opens a session.
pub fn sign_in_outcome(found: &Option<User>, check: PasswordCheck, now: u64) -> (r: Result<
    UserClaims,
    Failure,
>)
    ensures
        r == sign_in_verdict(*found, check, now),
{
    match found {
        None => Err(Failure::Unauthorized),
        Some(user) => match check {
            PasswordCheck::Malformed => Err(Failure::UpstreamUnavailable),
            PasswordCheck::Mismatch => Err(Failure::Unauthorized),
            PasswordCheck::Match => UserClaims::try_from(user, now),
        },
    }
}

/// What sign-in comes to for a password and the record found for the
/// address: the verdict on the check of the password against the stored
/// hash.
pub open spec fn sign_in_result(password: Seq<u8>, found: Option<User>, now: u64) -> Result<
    UserClaims,
    Failure,
> {
    match found {
        None => Err(Failure::Unauthorized),
        Some(user) => sign_in_verdict(found, checked(password, user.password_hash@), now),
    }
}

/// Signs a user in: checks the password of the form against the record
/// found for its address, and issues the claims of the session.
pub fn sign_in(form: &SignInForm, found: &Option<User>, now: u64) -> (r: Result<
    UserClaims,
    Failure,
>)
    ensures
        r == sign_in_result(utf8(form.password@), *found, now),
{
    match found {
        None => Err(Failure::Unauthorized),
        Some(user) => {
            let outcome = check(form.password.as_str(), user.password_hash.as_str());
            sign_in_outcome(found, outcome, now)
        },
    }
}

/// Signs a user in and gives the cookie of the session. Whenever sign-in
/// issues claims, the cookie comes back: it carries the token of exactly
/// those claims, signed with `secret`, and the token opens to them.
pub fn sign_in_cookie(form: &SignInForm, found: &Option<User>, now: u64, secret: &[u8]) -> (r:
    Result<SessionCookie, Failure>)
    ensures
        match sign_in_result(utf8(form.password@), *found, now) {
            Err(failure) => r == Err::<SessionCookie, Failure>(failure),
            Ok(claims) => r matches Ok(cookie) && carries(cookie, claims, secret@) && claims_in(
                cookie.value@,
                secret@,
            ) == Some(claims.fields()),
        },
{
    match sign_in(form, found, now) {
        Err(failure) => Err(failure),
        Ok(claims) => seal(&claims, secret),
    }
}

/// Handles a request to set a new password: the reset token must be the
/// one that the record found for the request stands for now, and then the
/// new password is hashed. Gives the id of the user and the hash to store.
pub fn reset_password(engine: &TokenEngine, query: &PasswordResetQuery, found: &Option<User>) -> (r:
    Result<(i32, String), Failure>)
    ensures
        engine.reset_verdict(query.token, *found) matches Err(failure) ==> r == Err::<
            (i32, String),
            Failure,
        >(failure),
        r matches Ok(update) ==> engine.reset_verdict(query.token, *found).is_ok()
            && update.0 == found.unwrap().id && checked(utf8(query.password@), update.1@)
            == PasswordCheck::Match,
        r matches Err(failure) ==> engine.reset_verdict(query.token, *found) == Err::<
            (),
            Failure,
        >(failure) || failure == Failure::UpstreamUnavailable,
{
    match engine.redeem_reset(query.token, found) {
        Err(failure) => Err(failure),
        Ok(()) => match found {
            None => Err(Failure::Unauthorized),
            Some(user) => match hash(query.password.as_str()) {
                Ok(text) => Ok((user.id, text)),
                Err(failure) => Err(failure),
            },
        },
    }
}

/// With the right password, at a second whose session still ends within
/// the range of the clock, sign-in issues claims with the id of the user,
/// the stored hash, and an expiry 24 hours ahead.
pub proof fn right_password_signs_in(password: Seq<u8>, user: User, now: u64)
    requires
        checked(password, user.password_hash@) == PasswordCheck::Match,
        now + crate::session::SESSION_LIFETIME <= u64::MAX,
    ensures
        sign_in_result(password, Some(user), now) == Ok::<UserClaims, Failure>(
            UserClaims {
                id: user.id,
                hash: user.password_hash,
                exp: (now + crate::session::SESSION_LIFETIME) as u64,
            },
        ),
{
}

/// A wrong password never signs in, and neither does an unknown address.
pub proof fn only_a_match_signs_in(found: Option<User>, check: PasswordCheck, now: u64)
    ensures
        sign_in_verdict(found, check, now).is_ok() ==> found.is_some() && check
            == PasswordCheck::Match,
        sign_in_verdict(found, check, now) matches Ok(claims) ==> claims.matches(found.unwrap())
            && claims.exp == now + crate::session::SESSION_LIFETIME,
{
}

} // verus!
