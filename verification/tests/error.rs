use passkey_auth::error::AppError;

#[test]
fn replies_carry_status_code_and_message() {
    let r = AppError::BadRequest("bad".to_string()).into_reply();
    assert_eq!((r.status, r.code.as_str(), r.message.as_str()), (400, "BAD_REQUEST", "bad"));
    let r = AppError::Unauthorized.into_reply();
    assert_eq!(
        (r.status, r.code.as_str(), r.message.as_str()),
        (401, "UNAUTHORIZED", "Authentication failed.")
    );
    let r = AppError::NotFound("nope".to_string()).into_reply();
    assert_eq!((r.status, r.code.as_str(), r.message.as_str()), (404, "NOT_FOUND", "nope"));
    let r = AppError::Conflict("dup".to_string()).into_reply();
    assert_eq!((r.status, r.code.as_str(), r.message.as_str()), (409, "CONFLICT", "dup"));
    let r = AppError::CeremonyGone.into_reply();
    assert_eq!(
        (r.status, r.code.as_str(), r.message.as_str()),
        (410, "CEREMONY_EXPIRED", "Ceremony expired or already used.")
    );
}

#[test]
fn internal_detail_is_not_sent_to_the_client() {
    let a = AppError::Internal("db password wrong".to_string()).into_reply();
    let b = AppError::Internal("other".to_string()).into_reply();
    assert_eq!(a.status, 500);
    assert_eq!(a.code, "INTERNAL_ERROR");
    assert_eq!(a.message, "An unexpected error occurred.");
    assert_eq!((a.status, a.code, a.message), (b.status, b.code, b.message));
}

#[test]
fn describe_matches_display_texts() {
    assert_eq!(AppError::BadRequest("x".into()).describe(), "Bad request: x");
    assert_eq!(AppError::Unauthorized.describe(), "Authentication failed");
    assert_eq!(AppError::NotFound("y".into()).describe(), "Not found: y");
    assert_eq!(AppError::Conflict("z".into()).describe(), "Conflict: z");
    assert_eq!(AppError::CeremonyGone.describe(), "Ceremony expired or already used");
    assert_eq!(AppError::Internal("w".into()).describe(), "Internal error: w");
}

#[test]
fn constructors_build_the_expected_messages() {
    assert!(matches!(AppError::database("boom"), AppError::Internal(m) if m == "Database error: boom"));
    assert!(matches!(AppError::json("eof"), AppError::BadRequest(m) if m == "JSON error: eof"));
    assert!(matches!(AppError::internal("Ctx", "why"), AppError::Internal(m) if m == "Ctx: why"));
}
