//! The WebAuthn ceremonies, start and finish, over `webauthn-rs`. The
//! cryptographic checks (challenge, origin, RP ID, flags, signature) are the
//! outside crate's; this module fixes what is handed to it and how each of
//! its failures is reported.

use crate::encoding::be_bytes;
use crate::error::{is_internal_with, AppError};
use url::Url;
use vstd::prelude::*;
use webauthn_rs::prelude::{
    AuthenticationResult, CreationChallengeResponse, CredentialID, Passkey,
    PasskeyAuthentication, PasskeyRegistration, PublicKeyCredential,
    RegisterPublicKeyCredential, RequestChallengeResponse, WebauthnError,
};
use webauthn_rs::{Webauthn, WebauthnBuilder};

verus! {

/// A configured WebAuthn relying party.
#[verifier::external_type_specification]
#[verifier::external_body]
pub struct ExWebauthn(Webauthn);

/// A relying party being configured.
#[verifier::external_type_specification]
#[verifier::external_body]
pub struct ExWebauthnBuilder<'a>(WebauthnBuilder<'a>);

/// Why a ceremony step failed, as `webauthn-rs` reports it.
#[verifier::external_type_specification]
#[verifier::external_body]
pub struct ExWebauthnError(WebauthnError);

/// A registered credential: its id, public key and counter.
#[verifier::external_type_specification]
#[verifier::external_body]
pub struct ExPasskey(Passkey);

/// The id of a credential.
#[verifier::external_type_specification]
#[verifier::external_body]
pub struct ExCredentialID(CredentialID);

/// Server-side state of a registration in progress.
#[verifier::external_type_specification]
#[verifier::external_body]
pub struct ExPasskeyRegistration(PasskeyRegistration);

/// Server-side state of an authentication in progress.
#[verifier::external_type_specification]
#[verifier::external_body]
pub struct ExPasskeyAuthentication(PasskeyAuthentication);

/// Options sent to the browser to create a credential.
#[verifier::external_type_specification]
#[verifier::external_body]
pub struct ExCreationChallengeResponse(CreationChallengeResponse);

/// Options sent to the browser to assert a credential.
#[verifier::external_type_specification]
#[verifier::external_body]
pub struct ExRequestChallengeResponse(RequestChallengeResponse);

/// The browser's answer to a registration.
#[verifier::external_type_specification]
#[verifier::external_body]
pub struct ExRegisterPublicKeyCredential(RegisterPublicKeyCredential);

/// The browser's answer to an authentication.
#[verifier::external_type_specification]
#[verifier::external_body]
pub struct ExPublicKeyCredential(PublicKeyCredential);

/// What a successful authentication established.
#[verifier::external_type_specification]
#[verifier::external_body]
pub struct ExAuthenticationResult(AuthenticationResult);

/// The domain of a URL's host (`Url::domain`): `None` for an IP address or
/// no host.
pub uninterp spec fn url_domain(u: Url) -> Option<Seq<char>>;

/// Whether `rp_id` is an effective domain of `domain`: the domain itself, or
/// a suffix of it that starts right after a `.`.
pub open spec fn is_effective_domain(rp_id: Seq<char>, domain: Seq<char>) -> bool {
    ||| domain == rp_id
    ||| domain.len() > rp_id.len() && domain.subrange(domain.len() - rp_id.len() - 1, domain.len() as int)
        == seq!['.'] + rp_id
}

/// Whether a relying party id fits an origin: the origin has a domain, and
/// `rp_id` is an effective domain of it.
pub open spec fn rp_id_fits(rp_id: Seq<char>, origin: Url) -> bool {
    url_domain(origin) matches Some(d) && is_effective_domain(rp_id, d)
}

/// What a relying party being configured holds (`WebauthnBuilder`): its
/// display name if one was set, its id, its allowed origins, and its
/// authenticator timeout in whole milliseconds (`Duration::as_millis`).
pub uninterp spec fn builder_settings(b: WebauthnBuilder<'_>) -> (Option<Seq<char>>, Seq<char>, Seq<Url>, nat);

/// What a configured relying party holds (`Webauthn`): its display name, its
/// id, its allowed origins, and its authenticator timeout in whole
/// milliseconds.
pub uninterp spec fn rp_settings(w: Webauthn) -> (Seq<char>, Seq<char>, Seq<Url>, nat);

/// The authenticator timeout that `webauthn-rs` gives a relying party unless
/// told otherwise (`DEFAULT_AUTHENTICATOR_TIMEOUT`, 300 s), in milliseconds.
pub open spec fn default_timeout_millis() -> nat {
    300_000
}

/// Whether a relying party's authenticator timeout fits the `u32` of
/// milliseconds that the ceremony options carry; the ceremony starts of
/// `webauthn-rs` panic on one that does not.
pub open spec fn timeout_fits(w: Webauthn) -> bool {
    rp_settings(w).3 <= u32::MAX
}

/// `WebauthnBuilder::new`: starts configuring a relying party. Its source
/// accepts exactly when the origin's domain ends with `.` followed by
/// `rp_id`, or equals it, and refuses otherwise (also when the origin has no
/// domain). The builder it returns has no display name, the id `rp_id`, the
/// one allowed origin `rp_origin` (a clone of it), and the default timeout.
#[verifier::external_body]
fn builder_new<'a>(rp_id: &'a str, rp_origin: &'a Url) -> (r: Result<WebauthnBuilder<'a>, WebauthnError>)
    ensures
        r is Ok <==> (url_domain(*rp_origin) matches Some(d) && is_effective_domain(rp_id@, d)),
        r matches Ok(b) ==> builder_settings(b) == (None::<Seq<char>>, rp_id@, seq![*rp_origin], default_timeout_millis()),
{
    WebauthnBuilder::new(rp_id, rp_origin)
}

/// `WebauthnBuilder::rp_name`: sets the relying party's display name and
/// leaves the rest of the builder as it was.
#[verifier::external_body]
fn builder_rp_name<'a>(b: WebauthnBuilder<'a>, rp_name: &'a str) -> (r: WebauthnBuilder<'a>)
    ensures
        builder_settings(r) == (Some(rp_name@), builder_settings(b).1, builder_settings(b).2, builder_settings(b).3),
{
    b.rp_name(rp_name)
}

/// The settings a relying party is built with from a builder's: the display
/// name defaults to the id.
pub open spec fn built_settings(b: (Option<Seq<char>>, Seq<char>, Seq<Url>, nat)) -> (Seq<char>, Seq<char>, Seq<Url>, nat) {
    (
        match b.0 {
            Some(n) => n,
            None => b.1,
        },
        b.1,
        b.2,
        b.3,
    )
}

/// `WebauthnBuilder::build`: its source returns `Ok` unconditionally, with
/// the builder's settings; the display name defaults to the id.
#[verifier::external_body]
fn builder_build(b: WebauthnBuilder<'_>) -> (r: Result<Webauthn, WebauthnError>)
    ensures
        r is Ok,
        r matches Ok(w) ==> rp_settings(w) == built_settings(builder_settings(b)),
{
    b.build()
}

/// The text of a `webauthn-rs` error (its `Display` form). No claim is made
/// of the text.
#[verifier::external_body]
fn webauthn_error_text(e: &WebauthnError) -> String {
    e.to_string()
}

/// The credential id of a passkey (what `Passkey::cred_id` refers to).
pub uninterp spec fn credential_id_of(pk: Passkey) -> CredentialID;

/// The credential ids a registration state excludes (the
/// `exclude_credentials` it keeps).
pub uninterp spec fn excluded_ids(state: PasskeyRegistration) -> Seq<CredentialID>;

/// The passkey `Webauthn::finish_passkey_registration` registers for this
/// attestation and state, or `None` when it refuses them.
pub uninterp spec fn registration_outcome(
    w: Webauthn,
    reg: RegisterPublicKeyCredential,
    state: PasskeyRegistration,
) -> Option<Passkey>;

/// The result `Webauthn::finish_passkey_authentication` gives for this
/// assertion and state, or `None` when it refuses them.
pub uninterp spec fn assertion_outcome(
    w: Webauthn,
    reg: PublicKeyCredential,
    state: PasskeyAuthentication,
) -> Option<AuthenticationResult>;

/// A copy of a passkey's credential id (`Passkey::cred_id`, cloned).
#[verifier::external_body]
fn passkey_credential_id(pk: &Passkey) -> (r: CredentialID)
    ensures
        r == credential_id_of(*pk),
{
    pk.cred_id().clone()
}

/// The user that registration options name: the user handle's bytes, the
/// user name and the display name (`public_key.user` of the options).
pub uninterp spec fn creation_user(c: CreationChallengeResponse) -> (Seq<u8>, Seq<char>, Seq<char>);

/// The credential ids an authentication state accepts (the `credentials`
/// it keeps, by id, in order).
pub uninterp spec fn allowed_ids(s: PasskeyAuthentication) -> Seq<CredentialID>;

/// The challenge that registration options ask the browser to sign.
pub uninterp spec fn creation_challenge(c: CreationChallengeResponse) -> Seq<u8>;

/// The challenge a registration state accepts at the finish.
pub uninterp spec fn registration_challenge(st: PasskeyRegistration) -> Seq<u8>;

/// The credential ids that registration options ask the browser to exclude
/// (by their bytes, in order; none when the options carry no list).
pub uninterp spec fn creation_excluded(c: CreationChallengeResponse) -> Seq<CredentialID>;

/// The challenge that authentication options ask the browser to sign.
pub uninterp spec fn request_challenge(r: RequestChallengeResponse) -> Seq<u8>;

/// The challenge an authentication state accepts at the finish.
pub uninterp spec fn authentication_challenge(st: PasskeyAuthentication) -> Seq<u8>;

/// The credential ids that authentication options allow (by their bytes,
/// in order).
pub uninterp spec fn request_allowed(r: RequestChallengeResponse) -> Seq<CredentialID>;

/// Whether registration options and state belong together: one challenge,
/// and the options exclude what the state excludes.
pub open spec fn registration_paired(c: CreationChallengeResponse, st: PasskeyRegistration) -> bool {
    creation_challenge(c) == registration_challenge(st) && creation_excluded(c) == excluded_ids(st)
}

/// Whether authentication options and state belong together: one
/// challenge, and the options allow what the state accepts.
pub open spec fn authentication_paired(r: RequestChallengeResponse, st: PasskeyAuthentication) -> bool {
    request_challenge(r) == authentication_challenge(st) && request_allowed(r) == allowed_ids(st)
}

/// `Webauthn::start_passkey_registration` for the user whose UUID has the
/// bits `user_id`. Its source refuses an empty user name or display name
/// (`InvalidUsername`) and otherwise succeeds; it panics when the relying
/// party's timeout does not fit a `u32` of milliseconds, which `requires`
/// rules out. The options name the user by the UUID's sixteen bytes (most
/// significant first, `Uuid::from_u128`) and the names given, and the state
/// excludes the ids it was handed (none for `None`). Options and state are
/// built from one fresh random challenge and one exclusion list, so they
/// carry the same challenge and the options exclude what the state does;
/// the challenge itself is random.
#[verifier::external_body]
fn start_passkey_registration(w: &Webauthn, user_id: u128, user_name: &str, user_display_name: &str, exclude: Option<Vec<CredentialID>>) -> (r: Result<(CreationChallengeResponse, PasskeyRegistration), WebauthnError>)
    requires
        timeout_fits(*w),
    ensures
        r is Ok <==> (user_name@.len() > 0 && user_display_name@.len() > 0),
        r matches Ok((c, _)) ==> creation_user(c) == (be_bytes(user_id), user_name@, user_display_name@),
        r matches Ok((c, st)) ==> creation_challenge(c) == registration_challenge(st)
            && creation_excluded(c) == excluded_ids(st),
        r matches Ok((_, st)) ==> excluded_ids(st) == match exclude {
            Some(v) => v@,
            None => Seq::<CredentialID>::empty(),
        },
{
    w.start_passkey_registration(uuid::Uuid::from_u128(user_id), user_name, user_display_name, exclude)
}

/// `Webauthn::finish_passkey_registration`: verifies the browser's
/// attestation response against the stored registration state: its result
/// is the named outcome, an error exactly when the outcome is `None`.
#[verifier::external_body]
fn finish_passkey_registration(
    w: &Webauthn,
    reg: &RegisterPublicKeyCredential,
    state: &PasskeyRegistration,
) -> (r: Result<Passkey, WebauthnError>)
    ensures
        r is Ok <==> registration_outcome(*w, *reg, *state) is Some,
        r matches Ok(pk) ==> registration_outcome(*w, *reg, *state) == Some(pk),
{
    w.finish_passkey_registration(reg, state)
}

/// `Webauthn::start_passkey_authentication` over the given credentials. Its
/// source always succeeds (the verification policy is fixed, so no check of
/// the credentials can fail); it panics when the relying party's timeout
/// does not fit a `u32` of milliseconds, which `requires` rules out. The
/// state accepts exactly the given credentials, in order. Options and state
/// are built from one fresh random challenge and one credential list, so
/// they carry the same challenge and the options allow what the state
/// accepts; the challenge itself is random.
#[verifier::external_body]
fn start_passkey_authentication(w: &Webauthn, creds: &[Passkey]) -> (r: Result<
    (RequestChallengeResponse, PasskeyAuthentication),
    WebauthnError,
>)
    requires
        timeout_fits(*w),
    ensures
        r is Ok,
        r matches Ok((_, st)) ==> allowed_ids(st) == creds@.map_values(|p: Passkey| credential_id_of(p)),
        r matches Ok((o, st)) ==> request_challenge(o) == authentication_challenge(st)
            && request_allowed(o) == allowed_ids(st),
{
    w.start_passkey_authentication(creds)
}

/// `Webauthn::finish_passkey_authentication`: verifies the assertion
/// signature, challenge, origin, RP ID and flags against the stored state.
/// Its result is the named outcome, an error exactly when the outcome is
/// `None`.
#[verifier::external_body]
fn finish_passkey_authentication(
    w: &Webauthn,
    reg: &PublicKeyCredential,
    state: &PasskeyAuthentication,
) -> (r: Result<AuthenticationResult, WebauthnError>)
    ensures
        r is Ok <==> assertion_outcome(*w, *reg, *state) is Some,
        r matches Ok(a) ==> assertion_outcome(*w, *reg, *state) == Some(a),
{
    w.finish_passkey_authentication(reg, state)
}

/// The credential ids to exclude from a registration: one per existing
/// passkey, none at all when there is no list.
pub fn exclude_credentials(existing: Option<Vec<Passkey>>) -> (r: Option<Vec<CredentialID>>)
    ensures
        r is Some <==> existing is Some,
        r matches Some(ids) ==> ids@ == existing->0@.map_values(|p: Passkey| credential_id_of(p)),
{
    match existing {
        None => None,
        Some(pks) => {
            let mut ids: Vec<CredentialID> = Vec::new();
            let n = pks.len();
            for i in 0..n
                invariant
                    n == pks.len(),
                    ids@ == pks@.take(i as int).map_values(|p: Passkey| credential_id_of(p)),
            {
                ids.push(passkey_credential_id(&pks[i]));
                assert(ids@ =~= pks@.take(i + 1).map_values(|p: Passkey| credential_id_of(p)));
            }
            assert(pks@.take(n as int) =~= pks@);
            Some(ids)
        },
    }
}

/// An internal error reporting a `webauthn-rs` failure in `context`.
fn ceremony_internal(context: &str, e: &WebauthnError) -> (r: AppError)
    ensures
        is_internal_with(r, context@),
{
    let detail = webauthn_error_text(e);
    AppError::internal(context, detail.as_str())
}

/// The credential ids that a registration with these existing passkeys
/// excludes: theirs, in order; none without a list.
pub open spec fn excluded_for(existing: Option<Vec<Passkey>>) -> Seq<CredentialID> {
    match existing {
        Some(v) => v@.map_values(|p: Passkey| credential_id_of(p)),
        None => Seq::empty(),
    }
}

/// Wraps `webauthn-rs` to provide ceremony start/finish methods.
/// Free of HTTP types — testable without an HTTP server.
pub struct CeremonyService {
    webauthn: Webauthn,
}

impl CeremonyService {
    /// The relying party's timeout fits the options' `u32` of milliseconds.
    #[verifier::type_invariant]
    spec fn timeout_in_range(self) -> bool {
        timeout_fits(self.webauthn)
    }

    /// The configured relying party.
    pub closed spec fn relying_party(&self) -> Webauthn {
        self.webauthn
    }

    /// Build a new ceremony service for the given relying party, shown to
    /// users as "Passkey Auth Demo".
    pub fn new(rp_id: &str, rp_origin: &Url) -> (r: Result<Self, AppError>)
        ensures
            r is Ok <==> rp_id_fits(rp_id@, *rp_origin),
            r matches Ok(s) ==> rp_settings(s.relying_party())
                == ("Passkey Auth Demo"@, rp_id@, seq![*rp_origin], default_timeout_millis()),
            r matches Err(e) ==> is_internal_with(e, "WebauthnBuilder error"@),
    {
        Self::with_rp_name(rp_id, rp_origin, "Passkey Auth Demo")
    }

    /// Build a new ceremony service for the given relying party, shown to
    /// users under `rp_name`: it succeeds exactly when `rp_id` is an
    /// effective domain of the origin's domain, and the relying party then
    /// has that name and id, the one allowed origin, and the default
    /// authenticator timeout.
    pub fn with_rp_name(rp_id: &str, rp_origin: &Url, rp_name: &str) -> (r: Result<Self, AppError>)
        ensures
            r is Ok <==> rp_id_fits(rp_id@, *rp_origin),
            r matches Ok(s) ==> rp_settings(s.relying_party())
                == (rp_name@, rp_id@, seq![*rp_origin], default_timeout_millis()),
            r matches Err(e) ==> is_internal_with(e, "WebauthnBuilder error"@),
    {
        let builder = match builder_new(rp_id, rp_origin) {
            Ok(b) => b,
            Err(e) => return Err(ceremony_internal("WebauthnBuilder error", &e)),
        };
        let webauthn = match builder_build(builder_rp_name(builder, rp_name)) {
            Ok(w) => w,
            Err(e) => return Err(ceremony_internal("Webauthn build error", &e)),
        };
        assert(default_timeout_millis() <= u32::MAX);
        Ok(CeremonyService { webauthn })
    }

    // ── Registration ──────────────────────────────────────────────

    /// Begin a passkey registration ceremony.
    ///
    /// `existing_passkeys` are the user's already-registered passkeys; their
    /// credential IDs are excluded, preventing the same authenticator from
    /// silently double-registering. The options returned are those of
    /// `webauthn-rs` for this user id and these names, and they carry the
    /// challenge and the exclusions of the state kept for the finish.
    pub fn start_registration(
        &self,
        user_id: u128,
        username: &str,
        display_name: &str,
        existing_passkeys: Option<Vec<Passkey>>,
    ) -> (r: Result<(CreationChallengeResponse, PasskeyRegistration), AppError>)
        ensures
            r is Ok <==> username@.len() > 0 && display_name@.len() > 0,
            r matches Ok((c, _)) ==> creation_user(c) == (be_bytes(user_id), username@, display_name@),
            r matches Ok((c, st)) ==> registration_paired(c, st),
            r matches Ok((_, st)) ==> excluded_ids(st) == excluded_for(existing_passkeys),
            r matches Err(e) ==> is_internal_with(e, "Registration start failed"@),
    {
        proof {
            use_type_invariant(self);
        }
        let exclude = exclude_credentials(existing_passkeys);
        match start_passkey_registration(&self.webauthn, user_id, username, display_name, exclude) {
            Ok(res) => Ok(res),
            Err(e) => Err(ceremony_internal("Registration start failed", &e)),
        }
    }

    /// Complete a passkey registration ceremony. Any verification failure is
    /// reported uniformly as `Unauthorized`.
    pub fn finish_registration(
        &self,
        state: &PasskeyRegistration,
        credential: &RegisterPublicKeyCredential,
    ) -> (r: Result<Passkey, AppError>)
        ensures
            r is Ok <==> registration_outcome(self.relying_party(), *credential, *state) is Some,
            r matches Ok(pk) ==> registration_outcome(self.relying_party(), *credential, *state) == Some(pk),
            r matches Err(e) ==> e is Unauthorized,
    {
        match finish_passkey_registration(&self.webauthn, credential, state) {
            Ok(pk) => Ok(pk),
            Err(_) => Err(AppError::Unauthorized),
        }
    }

    // ── Authentication ────────────────────────────────────────────

    /// Begin a passkey authentication ceremony, accepting exactly the given
    /// credentials: the options sent to the browser carry the challenge and
    /// the credentials that the state kept for the finish accepts.
    pub fn start_authentication(&self, credentials: &[Passkey]) -> (r: Result<
        (RequestChallengeResponse, PasskeyAuthentication),
        AppError,
    >)
        ensures
            r is Ok,
            r matches Ok((_, st)) ==> allowed_ids(st) == credentials@.map_values(|p: Passkey| credential_id_of(p)),
            r matches Ok((o, st)) ==> authentication_paired(o, st),
    {
        proof {
            use_type_invariant(self);
        }
        match start_passkey_authentication(&self.webauthn, credentials) {
            Ok(res) => Ok(res),
            Err(e) => Err(ceremony_internal("Authentication start failed", &e)),
        }
    }

    /// Complete a passkey authentication ceremony. Any verification failure
    /// is reported uniformly as `Unauthorized`.
    pub fn finish_authentication(
        &self,
        state: &PasskeyAuthentication,
        credential: &PublicKeyCredential,
    ) -> (r: Result<AuthenticationResult, AppError>)
        ensures
            r is Ok <==> assertion_outcome(self.relying_party(), *credential, *state) is Some,
            r matches Ok(a) ==> assertion_outcome(self.relying_party(), *credential, *state) == Some(a),
            r matches Err(e) ==> e is Unauthorized,
    {
        match finish_passkey_authentication(&self.webauthn, credential, state) {
            Ok(res) => Ok(res),
            Err(_) => Err(AppError::Unauthorized),
        }
    }
}

} // verus!
