use passkey_auth::ceremony::CeremonyService;
use passkey_auth::challenge_store::ChallengeStore;
use passkey_auth::error::AppError;
use passkey_auth::handlers::{
    begin_login, begin_registration, login_user, me_response, registration_display_name,
    registration_exclusions, revocation_outcome, take_ceremony, NEW_PASSKEY_NICKNAME,
};
use passkey_auth::users::User;
use url::Url;

fn user() -> User {
    User {
        id: 0x67e5_5044_10b1_426f_9247_bb68_0e5f_e0c8,
        username: "alice".into(),
        display_name: "Alice".into(),
        created_at: 0,
    }
}

fn service() -> CeremonyService {
    let origin = Url::parse("http://localhost:3000").unwrap();
    CeremonyService::new("localhost", &origin).unwrap()
}

#[test]
fn display_name_defaults_to_username() {
    assert_eq!(registration_display_name("bob", None), "bob");
    assert_eq!(registration_display_name("bob", Some("Bobby")), "Bobby");
}

#[test]
fn no_existing_passkeys_means_no_exclusion_list() {
    assert!(registration_exclusions(vec![]).is_none());
}

#[test]
fn login_lookup_failure_is_unauthorized() {
    assert!(matches!(login_user(Err(AppError::BadRequest("Username cannot be empty.".into()))),
        Err(AppError::Unauthorized)));
    assert!(matches!(login_user(Err(AppError::Internal("db".into()))), Err(AppError::Unauthorized)));
    assert!(matches!(login_user(Ok(Some(user()))), Ok(u) if u.username == "alice"));
    assert!(matches!(login_user(Ok(None)), Err(AppError::Unauthorized)));
}

#[test]
fn login_without_passkeys_is_unauthorized() {
    let s = service();
    assert!(matches!(begin_login(&s, &user(), vec![]), Err(AppError::Unauthorized)));
}

#[test]
fn registration_start_keeps_the_user_id() {
    let s = service();
    let u = user();
    let (options, data) = begin_registration(&s, &u, vec![]).unwrap();
    assert_eq!(data.user_id, u.id);
    let v = serde_json::to_value(&options).unwrap();
    assert_eq!(v["publicKey"]["user"]["id"], "Z-VQRBCxQm-SR7toDl_gyA");
    assert_eq!(v["publicKey"]["user"]["name"], "alice");
    assert_eq!(v["publicKey"]["user"]["displayName"], "Alice");
}

#[test]
fn replayed_finish_is_ceremony_gone() {
    let mut store = ChallengeStore::with_ttl_nanos(60_000_000_000);
    store.insert_at(9, vec![1, 2], 0);
    let first = take_ceremony(&mut store, 9);
    assert!(matches!(first, Ok(v) if v == vec![1, 2]));
    assert!(matches!(take_ceremony(&mut store, 9), Err(AppError::CeremonyGone)));
    assert!(matches!(take_ceremony(&mut store, 10), Err(AppError::CeremonyGone)));
}

#[test]
fn me_reply_uses_hyphenated_id() {
    let r = me_response(Some(user())).unwrap();
    assert_eq!(r.user_id, "67e55044-10b1-426f-9247-bb680e5fe0c8");
    assert_eq!(r.username, "alice");
    assert_eq!(r.display_name, "Alice");
    assert!(matches!(me_response(None), Err(AppError::Unauthorized)));
}

#[test]
fn revoking_a_missing_passkey_is_not_found() {
    assert!(revocation_outcome(true).is_ok());
    assert!(matches!(revocation_outcome(false), Err(AppError::NotFound(m)) if m == "Credential not found."));
}

#[test]
fn new_passkey_nickname() {
    assert_eq!(NEW_PASSKEY_NICKNAME, "My Passkey");
}
