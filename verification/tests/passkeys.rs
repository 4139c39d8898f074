use passkey_auth::error::AppError;
use passkey_auth::passkeys::{
    bytes_equal, counter_column, credential_key, passkeys_from_json, save_error, select_credential,
};

#[test]
fn credential_key_is_base64url() {
    assert_eq!(credential_key(&[0xfb, 0xff, 0x01]), "-_8B");
}

#[test]
fn counter_column_reinterprets_the_bits() {
    assert_eq!(counter_column(5), 5);
    assert_eq!(counter_column(u32::MAX), -1);
    assert_eq!(counter_column(0x8000_0000), i32::MIN);
}

#[test]
fn select_credential_finds_the_first_match() {
    let ids = vec![vec![1, 2], vec![3], vec![3], vec![]];
    assert_eq!(select_credential(&ids, &[3]), Some(1));
    assert_eq!(select_credential(&ids, &[]), Some(3));
    assert_eq!(select_credential(&ids, &[1]), None);
    assert!(bytes_equal(&[1, 2], &[1, 2]));
    assert!(!bytes_equal(&[1, 2], &[1]));
}

#[test]
fn duplicate_credential_is_a_conflict() {
    assert!(matches!(save_error(Some("passkeys_credential_id_key"), "dup"),
        AppError::Conflict(m) if m == "This passkey is already registered."));
    assert!(matches!(save_error(Some("idx_passkeys_credential_id"), "dup"), AppError::Conflict(_)));
    assert!(matches!(save_error(Some("passkeys_pkey"), "boom"),
        AppError::Internal(m) if m == "Database error: boom"));
    assert!(matches!(save_error(None, "down"), AppError::Internal(m) if m == "Database error: down"));
}

#[test]
fn stored_json_that_is_not_a_passkey_is_an_internal_error() {
    assert!(matches!(passkeys_from_json(&vec![]), Ok(v) if v.is_empty()));
    let rows = vec![serde_json::Value::String("nope".into())];
    assert!(matches!(passkeys_from_json(&rows),
        Err(AppError::Internal(m)) if m.starts_with("Failed to deserialize passkey: ")));
}
