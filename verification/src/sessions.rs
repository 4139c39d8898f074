//! Server-side sessions: the opaque token that names a session, and how a
//! request's session cookie is turned into an authenticated user.

use crate::encoding::{hex_encode, hex_lower, is_lower_hex_char, lemma_hex_lower_chars, lemma_hex_lower_len};
use crate::error::AppError;
use vstd::prelude::*;

verus! {

/// Name of the cookie that carries the session token.
pub const SESSION_COOKIE_NAME: &'static str = "session_id";

/// How often expired sessions are deleted, in seconds.
pub const SESSION_CLEANUP_INTERVAL_SECS: u64 = 300;

/// Sixteen bytes from the thread-local cryptographically secure generator
/// (`rand::thread_rng`, then `RngCore::fill_bytes`). No claim is made of
/// them: they are random.
#[verifier::external_body]
fn random_token_bytes() -> [u8; 16] {
    let mut bytes = [0u8; 16];
    rand::RngCore::fill_bytes(&mut rand::thread_rng(), &mut bytes);
    bytes
}

/// Generate a cryptographically random session token (128 bits, hex-encoded).
pub fn generate_session_token() -> (t: String)
    ensures
        exists|b: Seq<u8>| b.len() == 16 && t@ == #[trigger] hex_lower(b),
        t@.len() == 32,
        forall|i: int| 0 <= i < t@.len() ==> is_lower_hex_char(#[trigger] t@[i]),
{
    let bytes = random_token_bytes();
    proof {
        lemma_hex_lower_len(bytes@);
        lemma_hex_lower_chars(bytes@);
    }
    hex_encode(&bytes)
}

/// The `SameSite` policy of a cookie (no attribute at all is `Option::None`).
#[derive(Debug, Clone, Copy, PartialEq, Eq)]
pub enum SameSite {
    Strict,
    Lax,
}

/// The attributes of a cookie the server sets.
pub struct CookieSpec {
    pub name: String,
    pub value: String,
    pub http_only: bool,
    pub same_site: Option<SameSite>,
    pub path: String,
    /// `Some(0)` asks the browser to drop the cookie at once.
    pub max_age_secs: Option<i64>,
}

/// The cookie that hands a new session to the browser: the session token,
/// HttpOnly, SameSite=Lax, for the whole site, living as long as the
/// browser session. (`Secure` is left off so the demo works over plain
/// HTTP on localhost; it must be set behind TLS.)
pub fn session_cookie(token: String) -> (c: CookieSpec)
    ensures
        c.name@ == SESSION_COOKIE_NAME@,
        c.value@ == token@,
        c.http_only,
        c.same_site == Some(SameSite::Lax),
        c.path@ == "/"@,
        c.max_age_secs is None,
{
    CookieSpec {
        name: String::from_str(SESSION_COOKIE_NAME),
        value: token,
        http_only: true,
        same_site: Some(SameSite::Lax),
        path: String::from_str("/"),
        max_age_secs: None,
    }
}

/// The cookie that logs the browser out: the session cookie emptied and
/// expired at once.
pub fn removal_cookie() -> (c: CookieSpec)
    ensures
        c.name@ == SESSION_COOKIE_NAME@,
        c.value@.len() == 0,
        c.http_only,
        c.same_site is None,
        c.path@ == "/"@,
        c.max_age_secs == Some(0i64),
{
    let value = String::new();
    CookieSpec {
        name: String::from_str(SESSION_COOKIE_NAME),
        value,
        http_only: true,
        same_site: None,
        path: String::from_str("/"),
        max_age_secs: Some(0),
    }
}

/// Extractor result that names the authenticated user of a request.
pub struct AuthUser {
    pub user_id: u128,
}

impl AuthUser {
    /// The session token a request presents: the session cookie's value,
    /// refused as `Unauthorized` when the cookie is missing or empty.
    pub fn session_token(cookie: Option<String>) -> (r: Result<String, AppError>)
        ensures
            match cookie {
                Some(v) if v@.len() > 0 => r matches Ok(t) && t@ == v@,
                _ => r matches Err(AppError::Unauthorized),
            },
    {
        match cookie {
            Some(v) => {
                if v.as_str().is_empty() {
                    Err(AppError::Unauthorized)
                } else {
                    Ok(v)
                }
            },
            None => Err(AppError::Unauthorized),
        }
    }

    /// The authenticated user, given the user that the session store found
    /// for the token: `Unauthorized` when it found none (unknown or expired).
    pub fn from_session(found: Option<u128>) -> (r: Result<AuthUser, AppError>)
        ensures
            match found {
                Some(id) => r matches Ok(u) && u.user_id == id,
                None => r matches Err(AppError::Unauthorized),
            },
    {
        match found {
            Some(user_id) => Ok(AuthUser { user_id }),
            None => Err(AppError::Unauthorized),
        }
    }
}

} // verus!
