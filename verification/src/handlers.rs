//! The decisions that the request handlers take.
//!
//! A handler reads from the store, decides, and answers. What it decides
//! stands here: whether a login is granted, what a new user's record holds, and
//! what a count of affected rows means.

use vstd::prelude::*;

use base64::Engine;
use password_hash::{PasswordHash, Salt};
use pbkdf2::Pbkdf2;
use rand::RngCore;

verus! {

/// A user as the store holds it.
#[derive(Debug, Clone, PartialEq, Eq)]
pub struct User {
    pub id: i32,
    pub username: String,
    /// The password hash, a PHC string.
    pub password: String,
    pub fixed_currency_id: Option<i32>,
    pub enabled: bool,
}

/// How an attempt to log in ends.
#[derive(Clone, Copy, Debug, PartialEq, Eq, Structural)]
pub enum LoginOutcome {
    /// The user is who they claim to be.
    Granted { user_id: i32 },
    /// No such user, too many of them, or a wrong password.
    Unauthorized,
    /// The stored hash cannot be read.
    HashUnreadable,
}

/// The error type of `password_hash`.
#[verifier::external_type_specification]
#[verifier::external_body]
pub struct ExPasswordHashError(password_hash::Error);

/// What checking `password` against the PHC string `stored` gives: `None`
/// where `stored` cannot be read as a PHC string, else whether PBKDF2 over the
/// password, with the salt and parameters that `stored` names, gives the hash
/// that `stored` holds.
pub uninterp spec fn pbkdf2_verdict(stored: Seq<char>, password: Seq<char>) -> Option<bool>;

/// Checks a password against a stored hash.
///
/// Calls `PasswordHash::new` on `stored` and, where that succeeds,
/// `PasswordHash::verify_password` with `Pbkdf2` as the one verifier. Both are
/// functions of their arguments alone, and neither panics: the first fails
/// with an error on text that is no PHC string, the second on parameters
/// that PBKDF2 does not take and on a hash that does not match.
#[verifier::external_body]
fn check_password(stored: &str, password: &str) -> (result: Result<bool, password_hash::Error>)
    ensures
        match result {
            Ok(matches) => pbkdf2_verdict(stored@, password@) == Some(matches),
            Err(_) => pbkdf2_verdict(stored@, password@) is None,
        },
{
    let hash = PasswordHash::new(stored)?;
    Ok(hash.verify_password(&[&Pbkdf2], password).is_ok())
}

/// The hash that stands in where no user is found, so that a password is
/// checked, and time is spent, whether the user exists or not.
pub open spec fn placeholder_hash() -> Seq<char> {
    "$pbkdf2-sha256$i=600000,l=32$XpabVnRzlUG8YOvL$/rdEfUzDwQOBJBCfmc6P3DrbJDo13IrrY+6/O087CSI"@
}

/// The placeholder hash.
pub fn placeholder() -> (hash: &'static str)
    ensures
        hash@ == placeholder_hash(),
{
    "$pbkdf2-sha256$i=600000,l=32$XpabVnRzlUG8YOvL$/rdEfUzDwQOBJBCfmc6P3DrbJDo13IrrY+6/O087CSI"
}

/// The hash against which the password is checked: that of the last user
/// found, or the placeholder where none is.
pub open spec fn hash_to_check(found: Seq<User>) -> Seq<char> {
    if found.len() == 0 {
        placeholder_hash()
    } else {
        found.last().password@
    }
}

/// The user who logs in if anyone does: the last one found.
pub open spec fn candidate_id(found: Seq<User>) -> i32 {
    if found.len() == 0 {
        0
    } else {
        found.last().id
    }
}

/// How a login ends, given how many users bear the name, the one who would
/// log in, and the verdict on the password.
///
/// An unreadable hash ends it at once. Else it is granted when one or two
/// users were found and the password matches.
pub open spec fn login_decision(found: nat, user_id: i32, verdict: Option<bool>) -> LoginOutcome {
    match verdict {
        None => LoginOutcome::HashUnreadable,
        Some(matches) => if found == 0 || found > 2 || !matches {
            LoginOutcome::Unauthorized
        } else {
            LoginOutcome::Granted { user_id }
        },
    }
}

/// Decides a login from the number of users found, the candidate and the
/// verdict on the password.
pub fn decide_login(found: usize, user_id: i32, verdict: Option<bool>) -> (outcome: LoginOutcome)
    ensures
        outcome == login_decision(found as nat, user_id, verdict),
{
    match verdict {
        None => LoginOutcome::HashUnreadable,
        Some(matches) => {
            if found == 0 || found > 2 || !matches {
                LoginOutcome::Unauthorized
            } else {
                LoginOutcome::Granted { user_id }
            }
        },
    }
}

/// Decides whether the users found under a name may log in with `password`.
///
/// The password is checked against the hash of the last user found, or
/// against the placeholder where none was found.
pub fn login(found: &Vec<User>, password: &str) -> (outcome: LoginOutcome)
    ensures
        outcome == login_decision(
            found@.len(),
            candidate_id(found@),
            pbkdf2_verdict(hash_to_check(found@), password@),
        ),
{
    let count = found.len();
    let checked = if count == 0 {
        check_password(placeholder(), password)
    } else {
        check_password(found[count - 1].password.as_str(), password)
    };
    let user_id = if count == 0 {
        0
    } else {
        found[count - 1].id
    };
    let verdict = match checked {
        Ok(matches) => Some(matches),
        Err(_) => None,
    };
    decide_login(count, user_id, verdict)
}

/// A user as it is written to the store.
#[derive(Debug, Clone, PartialEq, Eq)]
pub struct NewUser {
    pub username: String,
    /// The password hash, a PHC string.
    pub password: String,
}

/// The length of a salt, in bytes. Twelve bytes make sixteen characters of
/// base64 with no padding, which a PHC string would not take.
pub const SALT_BYTES: usize = 12;

/// The standard base64 text of `bytes`, padded.
pub uninterp spec fn base64_text(bytes: Seq<u8>) -> Seq<char>;

/// The PHC string of the PBKDF2 hash of `password` under the salt written as
/// `salt`, with the hash function's default parameters; `None` where `salt`
/// cannot serve as a salt.
pub uninterp spec fn pbkdf2_hash(password: Seq<char>, salt: Seq<char>) -> Option<Seq<char>>;

/// Writes a salt as text.
///
/// Calls `Engine::encode` of base64's `STANDARD` engine, the standard
/// alphabet with padding, which is a function of the bytes alone and does
/// not fail on so few of them.
#[verifier::external_body]
fn salt_text(salt: &[u8; SALT_BYTES]) -> (text: String)
    ensures
        text@ == base64_text(salt@),
{
    base64::engine::general_purpose::STANDARD.encode(salt)
}

/// Hashes a password under a salt given as text.
///
/// Calls `Salt::from_b64` on the text, `PasswordHash::generate` with `Pbkdf2`
/// on the password and that salt, and writes the hash as a PHC string. All
/// are functions of their arguments alone, and none panics: a text that is no
/// salt fails with an error.
#[verifier::external_body]
fn hash_password(password: &str, salt: &str) -> (result: Result<String, password_hash::Error>)
    ensures
        match result {
            Ok(hash) => pbkdf2_hash(password@, salt@) == Some(hash@),
            Err(_) => pbkdf2_hash(password@, salt@) is None,
        },
{
    let salt = Salt::from_b64(salt)?;
    Ok(PasswordHash::generate(Pbkdf2, password.as_bytes(), salt)?.to_string())
}

/// Draws a salt at random.
///
/// Calls `RngCore::fill_bytes` on `rand::thread_rng()`. Nothing is known of
/// the bytes that come back. The generator gives up only where the system has
/// no randomness to seed it with.
#[verifier::external_body]
fn random_salt() -> (salt: [u8; SALT_BYTES]) {
    let mut bytes = [0u8; SALT_BYTES];
    rand::thread_rng().fill_bytes(&mut bytes);
    bytes
}

/// The record of a new user whose password is hashed under `salt`.
pub fn new_user(username: &str, password: &str, salt: &[u8; SALT_BYTES]) -> (result: Result<
    NewUser,
    password_hash::Error,
>)
    ensures
        match result {
            Ok(user) => user.username@ == username@ && pbkdf2_hash(
                password@,
                base64_text(salt@),
            ) == Some(user.password@),
            Err(_) => pbkdf2_hash(password@, base64_text(salt@)) is None,
        },
{
    let text = salt_text(salt);
    match hash_password(password, text.as_str()) {
        Ok(hash) => Ok(NewUser { username: username.to_owned(), password: hash }),
        Err(error) => Err(error),
    }
}

/// The record of a new user, whose password is hashed under a fresh salt.
///
/// Whatever salt is drawn, the record is the one that [`new_user`] makes
/// with it.
pub fn create_user(username: &str, password: &str) -> (result: Result<NewUser, password_hash::Error>)
    ensures
        exists|salt: Seq<u8>|
            salt.len() == SALT_BYTES && match result {
                Ok(user) => user.username@ == username@ && #[trigger] pbkdf2_hash(
                    password@,
                    base64_text(salt),
                ) == Some(user.password@),
                Err(_) => pbkdf2_hash(password@, base64_text(salt)) is None,
            },
{
    let salt = random_salt();
    new_user(username, password, &salt)
}

/// What a count of rows, changed where one was meant, says.
#[derive(Clone, Copy, Debug, PartialEq, Eq, Structural)]
pub enum RowsOutcome {
    /// The one row was changed.
    Done,
    /// There was no such row.
    Missing,
    /// More than one row was changed.
    TooMany,
}

/// Reads the count of rows that a statement changed where it was meant to
/// change one.
pub fn rows_outcome(count: usize) -> (outcome: RowsOutcome)
    ensures
        outcome == if count == 1 {
            RowsOutcome::Done
        } else if count == 0 {
            RowsOutcome::Missing
        } else {
            RowsOutcome::TooMany
        },
{
    if count == 1 {
        RowsOutcome::Done
    } else if count == 0 {
        RowsOutcome::Missing
    } else {
        RowsOutcome::TooMany
    }
}

} // verus!
