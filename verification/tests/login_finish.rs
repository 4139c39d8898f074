use passkey_auth::ceremony::CeremonyService;
use passkey_auth::error::AppError;
use passkey_auth::handlers::AuthCeremonyData;
use passkey_auth::login_finish::{
    begin_login_finish, login_finish_step, LoginAction, LoginEvent, LoginFinish,
};
use passkey_auth::sessions::SameSite;
use url::Url;

fn bogus_assertion() -> webauthn_rs::prelude::PublicKeyCredential {
    serde_json::from_str(
        r#"{"id":"AAAA","rawId":"AAAA","type":"public-key",
            "response":{"authenticatorData":"AAAA","clientDataJSON":"e30","signature":"AAAA","userHandle":null}}"#,
    )
    .unwrap()
}

#[test]
fn unverified_assertion_is_answered_unauthorized() {
    let origin = Url::parse("http://localhost:3000").unwrap();
    let s = CeremonyService::new("localhost", &origin).unwrap();
    let (_, auth_state) = s.start_authentication(&[]).unwrap();
    let data = AuthCeremonyData { user_id: 3, auth_state };
    let (flow, action) = begin_login_finish(&s, data, &bogus_assertion());
    assert!(matches!(flow, LoginFinish::Done));
    assert!(matches!(action, LoginAction::Reply(Err(AppError::Unauthorized))));
}

#[test]
fn stored_update_leads_to_a_session() {
    let (flow, action) = login_finish_step(LoginFinish::Storing { user_id: 5 }, LoginEvent::UpdateStored(Ok(())));
    assert!(matches!(flow, LoginFinish::Opening));
    assert!(matches!(action, LoginAction::OpenSession(5)));
}

#[test]
fn session_token_is_answered_with_its_cookie() {
    let (flow, action) = login_finish_step(LoginFinish::Opening, LoginEvent::SessionOpened(Ok("tok".into())));
    assert!(matches!(flow, LoginFinish::Done));
    match action {
        LoginAction::Reply(Ok(c)) => {
            assert_eq!(c.name, "session_id");
            assert_eq!(c.value, "tok");
            assert!(c.http_only);
            assert!(matches!(c.same_site, Some(SameSite::Lax)));
            assert_eq!(c.path, "/");
            assert!(c.max_age_secs.is_none());
        }
        _ => panic!("expected the session cookie"),
    }
}

#[test]
fn a_failed_step_is_the_answer() {
    let (_, action) = login_finish_step(
        LoginFinish::Storing { user_id: 5 },
        LoginEvent::UpdateStored(Err(AppError::Internal("Database error: down".into()))),
    );
    assert!(matches!(action, LoginAction::Reply(Err(AppError::Internal(m))) if m == "Database error: down"));
    let (_, action) = login_finish_step(
        LoginFinish::Opening,
        LoginEvent::SessionOpened(Err(AppError::Unauthorized)),
    );
    assert!(matches!(action, LoginAction::Reply(Err(AppError::Unauthorized))));
}

#[test]
fn a_report_out_of_order_is_an_internal_error() {
    let (flow, action) = login_finish_step(LoginFinish::Opening, LoginEvent::PasskeysLoaded(Ok(vec![])));
    assert!(matches!(flow, LoginFinish::Done));
    assert!(matches!(action, LoginAction::Reply(Err(AppError::Internal(m))) if m.starts_with("Login finish out of order: ")));
    let (_, action) = login_finish_step(LoginFinish::Done, LoginEvent::UpdateStored(Ok(())));
    assert!(matches!(action, LoginAction::Reply(Err(AppError::Internal(_)))));
}
