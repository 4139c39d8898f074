[package]
name = "passkey_auth"
version = "0.1.0"
edition = "2021"
publish = false

[dependencies]
webauthn-rs = { version = "0.5", features = ["danger-allow-state-serialisation"] }
url = "2"
uuid = { version = "1", features = ["v4", "serde"] }
rand = "0.8"
hex = "0.4"
serde = { version = "1", features = ["derive"] }
serde_json = "1"
chrono = { version = "0.4", features = ["serde"] }
sqlx = { version = "0.8", default-features = false, features = ["runtime-tokio", "postgres", "uuid", "chrono", "json", "derive"] }
axum = "0.8"
tokio = { version = "1", features = ["macros", "rt-multi-thread", "net", "time"] }
tower-cookies = "0.11"
tower-http = { version = "0.6", features = ["fs", "trace"] }
tracing = "0.1"
tracing-subscriber = { version = "0.3", features = ["env-filter"] }
dotenvy = "0.15"
