# passkey_auth

A FIDO2 / WebAuthn passkey authentication server. `src/` is the verified
core, checked by Verus; `app/` is the Axum/PostgreSQL server around it.

## src/ (verified)

- `challenge_store` — single-use, TTL-bounded store of ceremony state, with
  the laws that make replays fail (`lemma_consume_is_single_use`, …).
- `ceremony` — the registration and authentication ceremonies over
  `webauthn-rs`, and how each failure is reported.
- `handlers` — the decisions of the HTTP handlers (uniform `Unauthorized`
  on login, `CeremonyGone` on replay, …).
- `login_finish` — the finish of a login, step by step between database
  actions: verify, update the passkey used, open a session, set its cookie.
- `passkeys` — storage form of passkeys: base64url credential keys, JSON
  documents, duplicate detection, applying an authentication result.
- `sessions` — session tokens, the session cookie, session checks.
- `users` — username validation and case folding.
- `config` — configuration values, defaults, decimal parsing.
- `migrations` — splitting migration scripts into statements.
- `encoding`, `text`, `error` — encodings, text operations, the error type
  and its HTTP replies.

## app/

Routing, database queries, cookies, background tasks, environment
variables. The relying party is shown to users under `RP_NAME`, and a login
looks its user up without creating one. The SQL schema (`users`, `passkeys`, `sessions`) is in
`app/schema.rs`, applied at start-up statement by statement.
