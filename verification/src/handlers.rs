//! The decisions of the HTTP handlers, apart from their I/O: which error a
//! request is answered with at each step, and what ceremony state is kept.

use crate::ceremony::{
    allowed_ids, authentication_paired, creation_user, credential_id_of, excluded_for, excluded_ids,
    registration_paired, CeremonyService,
};
use crate::challenge_store::{advanced, consume_result, duration_nanos, latest_reading, ChallengeStore};
use crate::encoding::{be_bytes, uuid_text, uuid_to_string};
use crate::error::{is_internal_with, AppError};
use crate::users::User;
use vstd::prelude::*;
use webauthn_rs::prelude::{
    CreationChallengeResponse, Passkey, PasskeyAuthentication, PasskeyRegistration,
    RequestChallengeResponse,
};

verus! {

/// Stored alongside the registration state so finish knows which user this
/// belongs to.
pub struct RegistrationCeremonyData {
    pub user_id: u128,
    pub reg_state: PasskeyRegistration,
}

/// Stored alongside the authentication state.
pub struct AuthCeremonyData {
    pub user_id: u128,
    pub auth_state: PasskeyAuthentication,
}

/// The currently authenticated user, as `GET /me` answers it.
pub struct MeResponse {
    pub user_id: String,
    pub username: String,
    pub display_name: String,
}

/// The nickname a newly registered passkey is stored with.
pub const NEW_PASSKEY_NICKNAME: &'static str = "My Passkey";

/// The display name a registration asks for: the one given, else the
/// username.
pub fn registration_display_name<'a>(username: &'a str, display_name: Option<&'a str>) -> (r: &'a str)
    ensures
        r@ == match display_name {
            Some(d) => d@,
            None => username@,
        },
{
    match display_name {
        Some(d) => d,
        None => username,
    }
}

/// The passkeys whose credentials a registration excludes: the user's
/// existing passkeys, or no list at all when there are none.
pub fn registration_exclusions(existing: Vec<Passkey>) -> (r: Option<Vec<Passkey>>)
    ensures
        existing.len() == 0 ==> r is None,
        existing.len() > 0 ==> r == Some(existing),
{
    if existing.len() == 0 {
        None
    } else {
        Some(existing)
    }
}

/// Begins registering a passkey for `user`, whose registered passkeys are
/// `existing`: the browser's options, which name this user by id, username
/// and display name, and the state to keep for the finish, which accepts the
/// options' challenge and excludes what they exclude.
pub fn begin_registration(
    ceremony: &CeremonyService,
    user: &User,
    existing: Vec<Passkey>,
) -> (r: Result<(CreationChallengeResponse, RegistrationCeremonyData), AppError>)
    ensures
        r is Ok <==> user.username@.len() > 0 && user.display_name@.len() > 0,
        r matches Ok((c, _)) ==> creation_user(c) == (be_bytes(user.id), user.username@, user.display_name@),
        r matches Ok((c, data)) ==> registration_paired(c, data.reg_state),
        r matches Ok((_, data)) ==> data.user_id == user.id
            && excluded_ids(data.reg_state) == existing@.map_values(|p: Passkey| credential_id_of(p)),
        r matches Err(e) ==> is_internal_with(e, "Registration start failed"@),
{
    let ghost all = existing@;
    let exclude = registration_exclusions(existing);
    assert(excluded_for(exclude) =~= all.map_values(|p: Passkey| credential_id_of(p)));
    let (options, reg_state) = ceremony.start_registration(
        user.id,
        user.username.as_str(),
        user.display_name.as_str(),
        exclude,
    )?;
    Ok((options, RegistrationCeremonyData { user_id: user.id, reg_state }))
}

/// The user a login is for, given the read-only lookup of its username:
/// an unknown username, like a failed lookup, is answered `Unauthorized`,
/// so that a login reveals nothing about which usernames exist.
pub fn login_user(found: Result<Option<User>, AppError>) -> (r: Result<User, AppError>)
    ensures
        match found {
            Ok(Some(u)) => r == Ok::<User, AppError>(u),
            _ => r matches Err(AppError::Unauthorized),
        },
{
    match found {
        Ok(Some(u)) => Ok(u),
        _ => Err(AppError::Unauthorized),
    }
}

/// Begins a login for `user`, whose registered passkeys are `passkeys`: a
/// user without passkeys is answered `Unauthorized`, like an unknown one;
/// otherwise the state kept accepts exactly the user's passkeys, and the
/// options sent carry its challenge and allow what it accepts.
pub fn begin_login(
    ceremony: &CeremonyService,
    user: &User,
    passkeys: Vec<Passkey>,
) -> (r: Result<(RequestChallengeResponse, AuthCeremonyData), AppError>)
    ensures
        passkeys.len() == 0 ==> r matches Err(AppError::Unauthorized),
        passkeys.len() > 0 ==> (r matches Ok((_, data)) && data.user_id == user.id
            && allowed_ids(data.auth_state) == passkeys@.map_values(|p: Passkey| credential_id_of(p))),
        r matches Ok((o, data)) ==> authentication_paired(o, data.auth_state),
{
    if passkeys.len() == 0 {
        return Err(AppError::Unauthorized);
    }
    let (options, auth_state) = ceremony.start_authentication(passkeys.as_slice())?;
    Ok((options, AuthCeremonyData { user_id: user.id, auth_state }))
}

/// Takes the ceremony state stored under `id` out of the store, for a
/// ceremony's finish, as of the clock reading taken now: single use, so a
/// replayed finish, like one for an unknown or expired ceremony, is answered
/// `CeremonyGone`.
pub fn take_ceremony(store: &mut ChallengeStore, id: u128) -> (r: Result<Vec<u8>, AppError>)
    ensures
        final(store).challenges() == old(store).challenges().remove(id),
        final(store).ttl() == old(store).ttl(),
        r matches Ok(v) ==> old(store).challenges().contains_key(id) && v@ == old(store).challenges()[id].0,
        r matches Err(e) ==> e is CeremonyGone,
        !old(store).challenges().contains_key(id) ==> r matches Err(AppError::CeremonyGone),
        final(store).readings().len() == old(store).readings().len() + 1,
        final(store).readings().drop_last() == old(store).readings(),
        final(store).clock() == advanced(old(store).clock(), final(store).readings().last()),
        final(store).clock() == latest_reading(final(store).readings()),
        match r {
            Ok(v) => consume_result(old(store).challenges(), id, final(store).clock(), old(store).ttl()) == Some(v@),
            Err(e) => e is CeremonyGone
                && consume_result(old(store).challenges(), id, final(store).clock(), old(store).ttl()) is None,
        },
{
    match store.consume(id) {
        Some(v) => Ok(v),
        None => Err(AppError::CeremonyGone),
    }
}

/// The reply to `GET /me`, given the user the session belongs to: a session
/// whose user no longer exists is answered `Unauthorized`.
pub fn me_response(found: Option<User>) -> (r: Result<MeResponse, AppError>)
    ensures
        match found {
            Some(u) => r matches Ok(m) && m.user_id@ == uuid_text(u.id) && m.username@ == u.username@
                && m.display_name@ == u.display_name@,
            None => r matches Err(AppError::Unauthorized),
        },
{
    match found {
        Some(user) => Ok(
            MeResponse {
                user_id: uuid_to_string(user.id),
                username: user.username,
                display_name: user.display_name,
            },
        ),
        None => Err(AppError::Unauthorized),
    }
}

/// The answer to revoking a passkey, given whether a passkey of the user's
/// was deleted: `NotFound` when none was (unknown, or another user's).
pub fn revocation_outcome(deleted: bool) -> (r: Result<(), AppError>)
    ensures
        deleted ==> r is Ok,
        !deleted ==> (r matches Err(AppError::NotFound(m)) && m@ == "Credential not found."@),
{
    if deleted {
        Ok(())
    } else {
        Err(AppError::NotFound(String::from_str("Credential not found.")))
    }
}

/// A replayed ceremony finish fails: once a finish has taken the state of
/// ceremony `id`, any later finish for `id`, at whatever time, finds nothing.
pub proof fn lemma_replayed_finish_is_gone(
    store: ChallengeStore,
    after: ChallengeStore,
    id: u128,
    now: u128,
)
    requires
        after.challenges() == store.challenges().remove(id),
        after.ttl() == store.ttl(),
    ensures
        !after.challenges().contains_key(id),
        consume_result(after.challenges(), id, now, after.ttl()) is None,
{
}

} // verus!

verus! {

/// A ceremony finish that comes after the ceremony's time to live has run
/// out is answered `CeremonyGone`, and the state is gone from the store: if
/// the time `take_ceremony` read from the clock is more than the time to
/// live after the entry's stamp, it does not hand the state out.
pub proof fn lemma_expired_finish_is_gone(
    store: ChallengeStore,
    after: ChallengeStore,
    id: u128,
    r: Result<Vec<u8>, AppError>,
)
    requires
        store.challenges().contains_key(id),
        duration_nanos(after.readings().last()) > store.challenges()[id].1 + store.ttl(),
        after.clock() == advanced(store.clock(), after.readings().last()),
        after.challenges() == store.challenges().remove(id),
        match r {
            Ok(v) => consume_result(store.challenges(), id, after.clock(), store.ttl()) == Some(v@),
            Err(e) => e is CeremonyGone
                && consume_result(store.challenges(), id, after.clock(), store.ttl()) is None,
        },
    ensures
        r matches Err(AppError::CeremonyGone),
        !after.challenges().contains_key(id),
{
}

} // verus!
