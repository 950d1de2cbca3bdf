//! Password checking for the login path.
//!
//! Hashing and verification are bcrypt's; this module pins down the
//! decisions taken around them: which hash is stored for a new account, and
//! exactly when a login is accepted, rejected, or failed.

use vstd::prelude::*;

use crate::models::User;

verus! {

/// The work factor new password hashes are created with (bcrypt's default).
pub const DEFAULT_COST: u32 = 12;

/// Seconds an issued token stays valid.
pub const TOKEN_LIFETIME_SECS: u64 = 6000;

/// What bcrypt's verification returns for a password and a stored hash
/// text: `Some` of the match result, `None` where the text is not a bcrypt
/// hash. It depends on those two values alone.
pub uninterp spec fn bcrypt_verify_of(password: Seq<char>, hash: Seq<char>) -> Option<bool>;

/// Relies on bcrypt::verify: deterministic in password and hash text, and
/// it errs only on hash texts that do not parse as bcrypt hashes.
#[verifier::external_body]
fn bcrypt_verify(password: &str, hash: &str) -> (r: Result<bool, ()>)
    ensures
        match r {
            Ok(b) => bcrypt_verify_of(password@, hash@) == Some(b),
            Err(_) => bcrypt_verify_of(password@, hash@) is None,
        },
{
    match bcrypt::verify(password, hash) {
        Ok(b) => Ok(b),
        Err(_) => Err(()),
    }
}

/// Relies on bcrypt::hash: on success it returns a sixty-character hash
/// text that bcrypt::verify parses and matches against the same password
/// (the salt and cost ride inside the text).
#[verifier::external_body]
fn bcrypt_hash(password: &str, cost: u32) -> (r: Result<String, ()>)
    ensures
        match r {
            Ok(h) => h@.len() == 60 && bcrypt_verify_of(password@, h@) == Some(true),
            Err(_) => true,
        },
{
    match bcrypt::hash(password, cost) {
        Ok(h) => Ok(h),
        Err(_) => Err(()),
    }
}

/// Hashes a new account's password for storage. On success the stored text
/// is one that [`login_check`] will accept with the same password.
pub fn hash_password(password: &str) -> (r: Result<String, ()>)
    ensures
        match r {
            Ok(h) => h@.len() == 60 && bcrypt_verify_of(password@, h@) == Some(true),
            Err(_) => true,
        },
{
    bcrypt_hash(password, DEFAULT_COST)
}

/// How a presented password stands against the stored hash.
pub enum LoginCheck {
    /// The password matches: issue a token.
    Accepted,
    /// The password does not match: reject the login.
    WrongPassword,
    /// The stored text is not a readable hash: a server-side fault.
    HashUnreadable,
}

/// Checks a presented password against an account's stored hash.
pub fn login_check(password: &str, stored_hash: &str) -> (r: LoginCheck)
    ensures
        match r {
            LoginCheck::Accepted => bcrypt_verify_of(password@, stored_hash@) == Some(true),
            LoginCheck::WrongPassword => bcrypt_verify_of(password@, stored_hash@) == Some(false),
            LoginCheck::HashUnreadable => bcrypt_verify_of(password@, stored_hash@) is None,
        },
{
    match bcrypt_verify(password, stored_hash) {
        Ok(true) => LoginCheck::Accepted,
        Ok(false) => LoginCheck::WrongPassword,
        Err(_) => LoginCheck::HashUnreadable,
    }
}

/// The login path's decision: accepted logins pass, a wrong password is
/// turned away as unauthorized, and an unreadable stored hash is a server
/// error.
pub fn login_decision(password: &str, stored_hash: &str) -> (r: Result<(), (u16, String)>)
    ensures
        match r {
            Ok(()) => bcrypt_verify_of(password@, stored_hash@) == Some(true),
            Err(e) => (e.0 == 401 && bcrypt_verify_of(password@, stored_hash@) == Some(false) && e.1@
                == "invalid password"@) || (e.0 == 500 && bcrypt_verify_of(password@, stored_hash@)
                is None && e.1@ == "hash error"@),
        },
{
    match login_check(password, stored_hash) {
        LoginCheck::Accepted => Ok(()),
        LoginCheck::WrongPassword => Err((401, String::from_str("invalid password"))),
        LoginCheck::HashUnreadable => Err((500, String::from_str("hash error"))),
    }
}

/// The claims an issued token carries.
pub struct TokenClaims {
    pub sub: i64,
    pub username: String,
    pub exp: u64,
}

/// Builds the claims of a token issued now: the account's id and name, and
/// an expiry one token lifetime ahead.
pub fn token_claims(user: &User, now_secs: u64) -> (c: TokenClaims)
    requires
        now_secs + TOKEN_LIFETIME_SECS <= u64::MAX,
    ensures
        c.sub == user.id,
        c.username@ == user.username@,
        c.exp == now_secs + TOKEN_LIFETIME_SECS,
{
    TokenClaims { sub: user.id, username: user.username.clone(), exp: now_secs + TOKEN_LIFETIME_SECS }
}

} // verus!
