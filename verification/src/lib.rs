//! Passkey (WebAuthn) authentication server: the verified core.

pub mod ceremony;
pub mod challenge_store;
pub mod config;
pub mod encoding;
pub mod error;
pub mod handlers;
pub mod login_finish;
pub mod sessions;
pub mod migrations;
pub mod passkeys;
pub mod text;
pub mod users;
