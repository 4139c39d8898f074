use passkey_auth::error::AppError;
use passkey_auth::sessions::{
    generate_session_token, removal_cookie, session_cookie, AuthUser, SameSite, SESSION_COOKIE_NAME,
};

#[test]
fn session_tokens_are_32_lowercase_hex_digits() {
    let t = generate_session_token();
    assert_eq!(t.len(), 32);
    assert!(t.chars().all(|c| c.is_ascii_digit() || ('a'..='f').contains(&c)));
    assert_ne!(generate_session_token(), t);
}

#[test]
fn missing_or_empty_cookie_is_unauthorized() {
    assert!(matches!(AuthUser::session_token(None), Err(AppError::Unauthorized)));
    assert!(matches!(AuthUser::session_token(Some(String::new())), Err(AppError::Unauthorized)));
    assert!(matches!(AuthUser::session_token(Some("abc".into())), Ok(t) if t == "abc"));
}

#[test]
fn unknown_session_is_unauthorized() {
    assert!(matches!(AuthUser::from_session(None), Err(AppError::Unauthorized)));
    assert!(matches!(AuthUser::from_session(Some(5)), Ok(u) if u.user_id == 5));
}

#[test]
fn cookie_name() {
    assert_eq!(SESSION_COOKIE_NAME, "session_id");
}

#[test]
fn session_cookie_is_http_only_lax_site_wide() {
    let c = session_cookie("tok".to_string());
    assert_eq!(c.name, "session_id");
    assert_eq!(c.value, "tok");
    assert!(c.http_only);
    assert_eq!(c.same_site, Some(SameSite::Lax));
    assert_eq!(c.path, "/");
    assert_eq!(c.max_age_secs, None);
}

#[test]
fn removal_cookie_expires_at_once() {
    let c = removal_cookie();
    assert_eq!(c.name, "session_id");
    assert_eq!(c.value, "");
    assert!(c.http_only);
    assert_eq!(c.same_site, None);
    assert_eq!(c.path, "/");
    assert_eq!(c.max_age_secs, Some(0));
}
