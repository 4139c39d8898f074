use passkey_auth::error::AppError;
use passkey_auth::users::{display_name_for_new_user, login_username, normalize_username};

#[test]
fn username_is_trimmed_and_lowercased() {
    assert!(matches!(normalize_username("  Alice \t"), Ok(s) if s == "alice"));
    assert!(matches!(normalize_username("ÉLODIE"), Ok(s) if s == "élodie"));
}

#[test]
fn blank_username_is_refused() {
    assert!(matches!(normalize_username(""), Err(AppError::BadRequest(m)) if m == "Username cannot be empty."));
    assert!(matches!(normalize_username(" \n\u{3000}"), Err(AppError::BadRequest(m)) if m == "Username cannot be empty."));
}

#[test]
fn username_length_is_counted_in_bytes_after_trimming() {
    let ok = "a".repeat(64);
    assert!(matches!(normalize_username(&format!("  {}  ", ok)), Ok(s) if s == ok));
    let long = "a".repeat(65);
    assert!(matches!(normalize_username(&long),
        Err(AppError::BadRequest(m)) if m == "Username must be at most 64 characters."));
    // 33 two-byte characters are 66 bytes.
    let wide = "é".repeat(33);
    assert!(matches!(normalize_username(&wide), Err(AppError::BadRequest(_))));
    let fits = "é".repeat(32);
    assert!(normalize_username(&fits).is_ok());
}

#[test]
fn new_user_display_name_falls_back_to_username() {
    assert_eq!(display_name_for_new_user("alice", "Alice A."), "Alice A.");
    assert_eq!(display_name_for_new_user("alice", "   "), "alice");
    assert_eq!(display_name_for_new_user("alice", ""), "alice");
    assert_eq!(display_name_for_new_user("alice", " Al "), " Al ");
}

#[test]
fn login_username_is_trimmed_and_lowercased() {
    assert_eq!(login_username("  BoB "), "bob");
}
