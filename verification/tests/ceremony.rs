use passkey_auth::ceremony::{exclude_credentials, CeremonyService};
use passkey_auth::error::AppError;
use url::Url;

#[test]
fn service_builds_for_matching_rp_id() {
    let origin = Url::parse("https://idm.example.com").unwrap();
    assert!(CeremonyService::new("example.com", &origin).is_ok());
    assert!(CeremonyService::new("idm.example.com", &origin).is_ok());
}

#[test]
fn service_refuses_rp_id_outside_the_origin() {
    let origin = Url::parse("https://idm.different.com").unwrap();
    let r = CeremonyService::new("example.com", &origin);
    assert!(matches!(r, Err(AppError::Internal(m)) if m.starts_with("WebauthnBuilder error: ")));
    let origin = Url::parse("https://myexample.com").unwrap();
    assert!(CeremonyService::new("example.com", &origin).is_err());
}

#[test]
fn registration_can_start() {
    let origin = Url::parse("http://localhost:3000").unwrap();
    let s = CeremonyService::new("localhost", &origin).unwrap();
    assert!(s.start_registration(1, "alice", "Alice", None).is_ok());
}

#[test]
fn exclusion_list_follows_existing_passkeys() {
    assert!(exclude_credentials(None).is_none());
    assert!(matches!(exclude_credentials(Some(vec![])), Some(v) if v.is_empty()));
}

#[test]
fn authentication_start_always_succeeds() {
    let origin = Url::parse("http://localhost:3000").unwrap();
    let s = CeremonyService::new("localhost", &origin).unwrap();
    assert!(s.start_authentication(&[]).is_ok());
}

#[test]
fn registration_start_needs_a_name_and_display_name() {
    let origin = Url::parse("http://localhost:3000").unwrap();
    let s = CeremonyService::new("localhost", &origin).unwrap();
    assert!(matches!(s.start_registration(1, "", "Alice", None),
        Err(AppError::Internal(m)) if m.starts_with("Registration start failed: ")));
    assert!(s.start_registration(1, "alice", "", None).is_err());
}

fn bogus_registration() -> webauthn_rs::prelude::RegisterPublicKeyCredential {
    serde_json::from_str(
        r#"{"id":"AAAA","rawId":"AAAA","type":"public-key",
            "response":{"attestationObject":"AAAA","clientDataJSON":"e30"}}"#,
    )
    .unwrap()
}

fn bogus_assertion() -> webauthn_rs::prelude::PublicKeyCredential {
    serde_json::from_str(
        r#"{"id":"AAAA","rawId":"AAAA","type":"public-key",
            "response":{"authenticatorData":"AAAA","clientDataJSON":"e30","signature":"AAAA","userHandle":null}}"#,
    )
    .unwrap()
}

#[test]
fn tampered_registration_is_unauthorized() {
    let origin = Url::parse("http://localhost:3000").unwrap();
    let s = CeremonyService::new("localhost", &origin).unwrap();
    let (_, state) = s.start_registration(1, "alice", "Alice", None).unwrap();
    assert!(matches!(s.finish_registration(&state, &bogus_registration()), Err(AppError::Unauthorized)));
}

#[test]
fn tampered_assertion_is_unauthorized() {
    let origin = Url::parse("http://localhost:3000").unwrap();
    let s = CeremonyService::new("localhost", &origin).unwrap();
    let (_, state) = s.start_authentication(&[]).unwrap();
    assert!(matches!(s.finish_authentication(&state, &bogus_assertion()), Err(AppError::Unauthorized)));
}

#[test]
fn origin_without_domain_is_refused() {
    let origin = Url::parse("http://127.0.0.1:3000").unwrap();
    assert!(CeremonyService::new("127.0.0.1", &origin).is_err());
    let origin = Url::parse("http://localhost:3000").unwrap();
    assert!(CeremonyService::new("localhost", &origin).is_ok());
    assert!(CeremonyService::new("host", &origin).is_err());
}

#[test]
fn registration_options_name_the_user_and_relying_party() {
    let origin = Url::parse("http://localhost:3000").unwrap();
    let s = CeremonyService::with_rp_name("localhost", &origin, "Example RP").unwrap();
    let (options, _) = s.start_registration(1, "alice", "Alice Liddell", None).unwrap();
    let v = serde_json::to_value(&options).unwrap();
    assert_eq!(v["publicKey"]["user"]["id"], "AAAAAAAAAAAAAAAAAAAAAQ");
    assert_eq!(v["publicKey"]["user"]["name"], "alice");
    assert_eq!(v["publicKey"]["user"]["displayName"], "Alice Liddell");
    assert_eq!(v["publicKey"]["rp"]["name"], "Example RP");
    assert_eq!(v["publicKey"]["rp"]["id"], "localhost");
    assert_eq!(v["publicKey"]["timeout"], 300000);
}

#[test]
fn default_relying_party_name() {
    let origin = Url::parse("http://localhost:3000").unwrap();
    let s = CeremonyService::new("localhost", &origin).unwrap();
    let (options, _) = s.start_registration(7, "bob", "Bob", None).unwrap();
    let v = serde_json::to_value(&options).unwrap();
    assert_eq!(v["publicKey"]["rp"]["name"], "Passkey Auth Demo");
    assert!(CeremonyService::with_rp_name("example.com", &origin, "X").is_err());
}

#[test]
fn authentication_options_allow_only_the_given_credentials() {
    let origin = Url::parse("http://localhost:3000").unwrap();
    let s = CeremonyService::new("localhost", &origin).unwrap();
    let (options, _) = s.start_authentication(&[]).unwrap();
    let v = serde_json::to_value(&options).unwrap();
    assert!(v["publicKey"]["allowCredentials"].as_array().is_some_and(|a| a.is_empty()));
}

#[test]
fn registration_options_carry_the_kept_challenge() {
    let origin = Url::parse("http://localhost:3000").unwrap();
    let s = CeremonyService::new("localhost", &origin).unwrap();
    let (options, state) = s.start_registration(1, "alice", "Alice", Some(vec![])).unwrap();
    let o = serde_json::to_value(&options).unwrap();
    let st = serde_json::to_value(&state).unwrap();
    assert!(o["publicKey"]["challenge"].is_string());
    assert_eq!(o["publicKey"]["challenge"], st["rs"]["challenge"]);
    assert!(o["publicKey"]["excludeCredentials"].as_array().is_some_and(|a| a.is_empty()));
    assert!(st["rs"]["exclude_credentials"].as_array().is_some_and(|a| a.is_empty()));
    let (again, _) = s.start_registration(1, "alice", "Alice", None).unwrap();
    let a = serde_json::to_value(&again).unwrap();
    assert_ne!(a["publicKey"]["challenge"], st["rs"]["challenge"]);
}

#[test]
fn authentication_options_carry_the_kept_challenge() {
    let origin = Url::parse("http://localhost:3000").unwrap();
    let s = CeremonyService::new("localhost", &origin).unwrap();
    let (options, state) = s.start_authentication(&[]).unwrap();
    let o = serde_json::to_value(&options).unwrap();
    let st = serde_json::to_value(&state).unwrap();
    assert!(o["publicKey"]["challenge"].is_string());
    assert_eq!(o["publicKey"]["challenge"], st["ast"]["challenge"]);
}
