//! User accounts: how a username is validated and case-folded, and which
//! display name a new account gets.

use crate::error::AppError;
use crate::text::{lowercase, to_lowercase, trim, trimmed};
use vstd::prelude::*;
use vstd::utf8::encode_utf8;

verus! {

/// A user record.
#[derive(Debug, Clone)]
pub struct User {
    pub id: u128,
    pub username: String,
    pub display_name: String,
    /// Creation time, in microseconds since the Unix epoch.
    pub created_at: i64,
}

/// The longest username accepted, in bytes of UTF-8.
pub const MAX_USERNAME_LEN: usize = 64;

/// What `normalize_username` makes of `username`: an error for a name that
/// is empty or longer than `MAX_USERNAME_LEN` bytes once trimmed, else the
/// trimmed name in lowercase.
pub open spec fn normalized_username(username: Seq<char>) -> Result<Seq<char>, Seq<char>> {
    let t = trimmed(username);
    if t.len() == 0 {
        Err("Username cannot be empty."@)
    } else if encode_utf8(t).len() > MAX_USERNAME_LEN {
        Err("Username must be at most 64 characters."@)
    } else {
        Ok(lowercase(t))
    }
}

/// Validate and case-fold a username.
pub fn normalize_username(username: &str) -> (r: Result<String, AppError>)
    ensures
        match normalized_username(username@) {
            Ok(n) => r matches Ok(s) && s@ == n,
            Err(msg) => r matches Err(AppError::BadRequest(m)) && m@ == msg,
        },
{
    let trimmed = trim(username);
    if trimmed.is_empty() {
        return Err(AppError::BadRequest(String::from_str("Username cannot be empty.")));
    }
    if trimmed.as_bytes().len() > MAX_USERNAME_LEN {
        return Err(AppError::BadRequest(String::from_str("Username must be at most 64 characters.")));
    }
    Ok(to_lowercase(trimmed))
}

/// The display name a new user gets: the one asked for, unless it is blank,
/// in which case the normalized username.
pub fn display_name_for_new_user(normalized: &str, display_name: &str) -> (r: String)
    ensures
        r@ == if trimmed(display_name@).len() == 0 { normalized@ } else { display_name@ },
{
    if trim(display_name).is_empty() {
        String::from_str(normalized)
    } else {
        String::from_str(display_name)
    }
}

/// The username that a login is looked up under: trimmed and lowercased.
pub fn login_username(raw: &str) -> (r: String)
    ensures
        r@ == lowercase(trimmed(raw@)),
{
    to_lowercase(trim(raw))
}

} // verus!
