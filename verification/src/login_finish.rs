//! The finish of a login as a sequence of decisions between database steps:
//! verify the assertion, load the user's passkeys, store the change to the
//! passkey used, open a session, answer with its cookie. The runner performs
//! each action and reports what came of it; the first failure is the answer.

use crate::ceremony::{assertion_outcome, CeremonyService};
use crate::encoding::base64url;
use crate::error::{is_internal_with, AppError};
use crate::handlers::AuthCeremonyData;
use crate::passkeys::{
    applied_result, authentication_update, none_before, passkey_cred_id, passkey_value,
    result_cred_id, result_counter_of, PasskeyUpdate,
};
use crate::sessions::{session_cookie, CookieSpec, SameSite, SESSION_COOKIE_NAME};
use vstd::prelude::*;
use webauthn_rs::prelude::{AuthenticationResult, Passkey, PublicKeyCredential};

verus! {

/// What the runner of a login finish does next.
pub enum LoginAction {
    /// Load the registered passkeys of this user, and report them.
    LoadPasskeys(u128),
    /// Store this change to a passkey, and report how it went.
    StoreUpdate(PasskeyUpdate),
    /// Open a session for this user, and report its token.
    OpenSession(u128),
    /// Answer the request: set this session cookie, or fail with this error.
    Reply(Result<CookieSpec, AppError>),
}

/// What the runner reports of the action it performed.
pub enum LoginEvent {
    /// The passkeys of the user, or why they could not be loaded.
    PasskeysLoaded(Result<Vec<Passkey>, AppError>),
    /// Whether the change to the passkey was stored.
    UpdateStored(Result<(), AppError>),
    /// The token of the new session, or why none was opened.
    SessionOpened(Result<String, AppError>),
}

/// Where a login finish stands between two actions.
pub enum LoginFinish {
    /// The assertion verified for this user, with this result: waiting for
    /// the user's passkeys.
    Verified { user_id: u128, result: AuthenticationResult },
    /// Waiting for the change to the passkey used to be stored.
    Storing { user_id: u128 },
    /// Waiting for the new session.
    Opening,
    /// The request has been answered.
    Done,
}

/// Whether `u` is the change that applying `result` to the passkeys `pks`
/// makes: to the first passkey with the credential used, stored under that
/// credential's key, with its new counter and JSON document.
pub open spec fn is_change_for(pks: Seq<Passkey>, result: AuthenticationResult, u: PasskeyUpdate) -> bool {
    &&& u.position < pks.len()
    &&& passkey_cred_id(pks[u.position as int]) == result_cred_id(result)
    &&& none_before(pks, result_cred_id(result), u.position as int)
    &&& u.credential_key@ == base64url(result_cred_id(result))
    &&& u.sign_count == result_counter_of(result) as i32
    &&& passkey_value(applied_result(pks[u.position as int], result)) == Some(u.passkey)
}

/// Whether `c` is the session cookie for the token `token`.
pub open spec fn is_session_cookie(c: CookieSpec, token: Seq<char>) -> bool {
    &&& c.name@ == SESSION_COOKIE_NAME@
    &&& c.value@ == token
    &&& c.http_only
    &&& c.same_site == Some(SameSite::Lax)
    &&& c.path@ == "/"@
    &&& c.max_age_secs is None
}

/// The first decision of a login finish, on the ceremony state taken from
/// the store: an assertion that does not verify is answered `Unauthorized`;
/// one that does leads to loading the passkeys of the ceremony's user.
pub fn begin_login_finish(
    ceremony: &CeremonyService,
    data: AuthCeremonyData,
    credential: &PublicKeyCredential,
) -> (r: (LoginFinish, LoginAction))
    ensures
        match assertion_outcome(ceremony.relying_party(), *credential, data.auth_state) {
            Some(res) => r.0 == (LoginFinish::Verified { user_id: data.user_id, result: res })
                && r.1 == LoginAction::LoadPasskeys(data.user_id),
            None => r.0 is Done && r.1 matches LoginAction::Reply(Err(AppError::Unauthorized)),
        },
{
    match ceremony.finish_authentication(&data.auth_state, credential) {
        Ok(result) => (LoginFinish::Verified { user_id: data.user_id, result }, LoginAction::LoadPasskeys(data.user_id)),
        Err(e) => (LoginFinish::Done, LoginAction::Reply(Err(e))),
    }
}

/// The next decision of a login finish, from where it stands and what the
/// runner reported. A failure reported is the answer; passkeys loaded lead
/// to storing the change to the one used (straight to the session when none
/// has the credential used); a stored change leads to the session; a
/// session's token is answered with its cookie. A report that does not fit
/// where the finish stands is answered with an internal error.
pub fn login_finish_step(state: LoginFinish, event: LoginEvent) -> (r: (LoginFinish, LoginAction))
    ensures
        match (state, event) {
            (LoginFinish::Verified { user_id, result }, LoginEvent::PasskeysLoaded(Ok(pks))) => {
                ||| r.1 matches LoginAction::StoreUpdate(u) && r.0 == (LoginFinish::Storing { user_id })
                    && is_change_for(pks@, result, u)
                ||| r.1 == LoginAction::OpenSession(user_id) && r.0 is Opening
                    && none_before(pks@, result_cred_id(result), pks.len() as int)
                ||| r.1 matches LoginAction::Reply(Err(e)) && r.0 is Done
                    && is_internal_with(e, "Failed to serialize passkey"@)
                    && exists|i: int| 0 <= i < pks.len() && passkey_cred_id(pks@[i]) == result_cred_id(result)
                        && none_before(pks@, result_cred_id(result), i)
                        && passkey_value(#[trigger] applied_result(pks@[i], result)) is None
            },
            (LoginFinish::Storing { user_id }, LoginEvent::UpdateStored(Ok(()))) =>
                r.0 is Opening && r.1 == LoginAction::OpenSession(user_id),
            (LoginFinish::Opening, LoginEvent::SessionOpened(Ok(token))) =>
                r.1 matches LoginAction::Reply(Ok(c)) && r.0 is Done && is_session_cookie(c, token@),
            (LoginFinish::Verified { .. }, LoginEvent::PasskeysLoaded(Err(e))) =>
                r.0 is Done && r.1 == LoginAction::Reply(Err(e)),
            (LoginFinish::Storing { .. }, LoginEvent::UpdateStored(Err(e))) =>
                r.0 is Done && r.1 == LoginAction::Reply(Err(e)),
            (LoginFinish::Opening, LoginEvent::SessionOpened(Err(e))) =>
                r.0 is Done && r.1 == LoginAction::Reply(Err(e)),
            _ => r.1 matches LoginAction::Reply(Err(e)) && r.0 is Done
                && is_internal_with(e, "Login finish out of order"@),
        },
{
    match (state, event) {
        (LoginFinish::Verified { user_id, result }, LoginEvent::PasskeysLoaded(Ok(pks))) => {
            let mut pks = pks;
            match authentication_update(&mut pks, &result) {
                Ok(Some(u)) => (LoginFinish::Storing { user_id }, LoginAction::StoreUpdate(u)),
                Ok(None) => (LoginFinish::Opening, LoginAction::OpenSession(user_id)),
                Err(e) => (LoginFinish::Done, LoginAction::Reply(Err(e))),
            }
        },
        (LoginFinish::Storing { user_id }, LoginEvent::UpdateStored(Ok(()))) => (
            LoginFinish::Opening,
            LoginAction::OpenSession(user_id),
        ),
        (LoginFinish::Opening, LoginEvent::SessionOpened(Ok(token))) => (
            LoginFinish::Done,
            LoginAction::Reply(Ok(session_cookie(token))),
        ),
        (LoginFinish::Verified { .. }, LoginEvent::PasskeysLoaded(Err(e))) => (
            LoginFinish::Done,
            LoginAction::Reply(Err(e)),
        ),
        (LoginFinish::Storing { .. }, LoginEvent::UpdateStored(Err(e))) => (
            LoginFinish::Done,
            LoginAction::Reply(Err(e)),
        ),
        (LoginFinish::Opening, LoginEvent::SessionOpened(Err(e))) => (
            LoginFinish::Done,
            LoginAction::Reply(Err(e)),
        ),
        _ => (
            LoginFinish::Done,
            LoginAction::Reply(Err(AppError::internal("Login finish out of order", "unexpected report"))),
        ),
    }
}

} // verus!
