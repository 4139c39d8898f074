//! Stored passkeys: the key a credential is stored under, the JSON form of
//! a passkey, how a failed insert is reported, and which stored passkey an
//! authentication result belongs to.

use crate::encoding::{base64url, base64url_encode_bytes};
use crate::error::{is_internal_with, AppError};
use vstd::prelude::*;
use webauthn_rs::prelude::{AuthenticationResult, Passkey};

verus! {

/// A JSON document, carried through opaquely.
#[verifier::external_type_specification]
#[verifier::external_body]
pub struct ExJsonValue(serde_json::Value);

/// Why `serde_json` refused to convert a value.
#[verifier::external_type_specification]
#[verifier::external_body]
pub struct ExJsonError(serde_json::Error);

/// The text of a `serde_json` error (its `Display` form). No claim is made
/// of the text.
#[verifier::external_body]
fn json_error_text(e: &serde_json::Error) -> String {
    e.to_string()
}

/// The bytes of a passkey's credential id (what `Passkey::cred_id` holds).
pub uninterp spec fn passkey_cred_id(pk: Passkey) -> Seq<u8>;

/// The bytes of the credential id an authentication used (what
/// `AuthenticationResult::cred_id` holds).
pub uninterp spec fn result_cred_id(r: AuthenticationResult) -> Seq<u8>;

/// The signature counter an authentication reported
/// (`AuthenticationResult::counter`).
pub uninterp spec fn result_counter_of(r: AuthenticationResult) -> u32;

/// The JSON document `serde_json::to_value` makes of a passkey, or `None`
/// when it refuses.
pub uninterp spec fn passkey_value(pk: Passkey) -> Option<serde_json::Value>;

/// The passkey `serde_json::from_value` reads from a JSON document, or
/// `None` when it refuses.
pub uninterp spec fn passkey_from_document(v: serde_json::Value) -> Option<Passkey>;

/// The passkey `Passkey::update_credential` leaves when it applies an
/// authentication result to a passkey with the same credential id.
pub uninterp spec fn applied_result(pk: Passkey, r: AuthenticationResult) -> Passkey;

/// `serde_json::to_value` of a passkey: its result is the named document,
/// an error exactly when the name has none.
#[verifier::external_body]
fn passkey_to_value(pk: &Passkey) -> (r: Result<serde_json::Value, serde_json::Error>)
    ensures
        r is Ok <==> passkey_value(*pk) is Some,
        r matches Ok(v) ==> passkey_value(*pk) == Some(v),
{
    serde_json::to_value(pk)
}

/// `serde_json::from_value` into a passkey, of a copy of `v`: its result is
/// the named passkey, an error exactly when the name has none.
#[verifier::external_body]
fn passkey_from_value(v: &serde_json::Value) -> (r: Result<Passkey, serde_json::Error>)
    ensures
        r is Ok <==> passkey_from_document(*v) is Some,
        r matches Ok(p) ==> passkey_from_document(*v) == Some(p),
{
    serde_json::from_value(v.clone())
}

/// The bytes of a passkey's credential id (`Passkey::cred_id`).
#[verifier::external_body]
fn passkey_credential_bytes(pk: &Passkey) -> (r: Vec<u8>)
    ensures
        r@ == passkey_cred_id(*pk),
{
    pk.cred_id().as_ref().to_vec()
}

/// The bytes of the credential id an authentication used
/// (`AuthenticationResult::cred_id`).
#[verifier::external_body]
fn result_credential_bytes(r: &AuthenticationResult) -> (b: Vec<u8>)
    ensures
        b@ == result_cred_id(*r),
{
    r.cred_id().as_ref().to_vec()
}

/// The signature counter an authentication reported
/// (`AuthenticationResult::counter`).
#[verifier::external_body]
fn result_counter(r: &AuthenticationResult) -> (c: u32)
    ensures
        c == result_counter_of(*r),
{
    r.counter()
}

/// `Passkey::update_credential`. Its source compares the two credential
/// ids: when they differ it returns `None` and leaves the passkey alone;
/// when they match it returns `Some` and leaves the updated passkey (only
/// counter and backup flags change, so the credential id stays).
#[verifier::external_body]
fn update_credential(pk: &mut Passkey, r: &AuthenticationResult) -> (u: Option<bool>)
    ensures
        passkey_cred_id(*old(pk)) != result_cred_id(*r) ==> u is None && *final(pk) == *old(pk),
        passkey_cred_id(*old(pk)) == result_cred_id(*r) ==> u is Some && *final(pk) == applied_result(*old(pk), *r),
{
    pk.update_credential(r)
}

/// The key a credential is stored under: its id, base64url-encoded.
pub fn credential_key(credential_id: &[u8]) -> (r: String)
    ensures
        r@ == base64url(credential_id@),
{
    base64url_encode_bytes(credential_id)
}

/// The JSON form a passkey is stored in.
pub fn passkey_json(pk: &Passkey) -> (r: Result<serde_json::Value, AppError>)
    ensures
        r is Ok <==> passkey_value(*pk) is Some,
        r matches Ok(v) ==> passkey_value(*pk) == Some(v),
        r matches Err(e) ==> is_internal_with(e, "Failed to serialize passkey"@),
{
    match passkey_to_value(pk) {
        Ok(v) => Ok(v),
        Err(e) => {
            let detail = json_error_text(&e);
            Err(AppError::internal("Failed to serialize passkey", detail.as_str()))
        },
    }
}

/// The passkeys stored as the JSON documents `rows`, in order; an internal
/// error if any of them is not a passkey.
pub fn passkeys_from_json(rows: &Vec<serde_json::Value>) -> (r: Result<Vec<Passkey>, AppError>)
    ensures
        r is Ok <==> forall|i: int| 0 <= i < rows.len() ==> (#[trigger] passkey_from_document(rows@[i])) is Some,
        r matches Ok(pks) ==> pks.len() == rows.len() && forall|i: int| 0 <= i < rows.len()
            ==> passkey_from_document(rows@[i]) == Some(#[trigger] pks@[i]),
        r matches Err(e) ==> is_internal_with(e, "Failed to deserialize passkey"@),
{
    let mut passkeys: Vec<Passkey> = Vec::new();
    let n = rows.len();
    for i in 0..n
        invariant
            n == rows.len(),
            passkeys.len() == i,
            forall|j: int| 0 <= j < i ==> passkey_from_document(rows@[j]) == Some(#[trigger] passkeys@[j]),
    {
        match passkey_from_value(&rows[i]) {
            Ok(pk) => passkeys.push(pk),
            Err(e) => {
                let detail = json_error_text(&e);
                return Err(AppError::internal("Failed to deserialize passkey", detail.as_str()));
            },
        }
    }
    assert forall|i: int| 0 <= i < rows.len() implies (#[trigger] passkey_from_document(rows@[i])) is Some by {
        assert(passkey_from_document(rows@[i]) == Some(passkeys@[i]));
    }
    Ok(passkeys)
}

/// Whether two byte strings are equal (compared byte by byte).
pub fn bytes_equal(a: &[u8], b: &[u8]) -> (r: bool)
    ensures
        r == (a@ == b@),
{
    if a.len() != b.len() {
        return false;
    }
    let n = a.len();
    for i in 0..n
        invariant
            n == a@.len(),
            n == b@.len(),
            forall|j: int| 0 <= j < i ==> a@[j] == b@[j],
    {
        if a[i] != b[i] {
            return false;
        }
    }
    assert(a@ =~= b@);
    true
}

/// The position of the first credential id in `ids` equal to `target`.
pub fn select_credential(ids: &Vec<Vec<u8>>, target: &[u8]) -> (r: Option<usize>)
    ensures
        match r {
            Some(i) => i < ids.len() && ids@[i as int]@ == target@
                && forall|j: int| 0 <= j < i ==> ids@[j]@ != target@,
            None => forall|j: int| 0 <= j < ids.len() ==> ids@[j]@ != target@,
        },
{
    let n = ids.len();
    for i in 0..n
        invariant
            n == ids.len(),
            forall|j: int| 0 <= j < i ==> ids@[j]@ != target@,
    {
        if bytes_equal(ids[i].as_slice(), target) {
            return Some(i);
        }
    }
    None
}

/// Whether the first `k` passkeys of `pks` all have credential ids other
/// than `id`.
pub open spec fn none_before(pks: Seq<Passkey>, id: Seq<u8>, k: int) -> bool {
    forall|j: int| 0 <= j < k ==> passkey_cred_id(#[trigger] pks[j]) != id
}

/// Applies an authentication result to the stored passkey it belongs to:
/// the first whose credential id is the one the authentication used. Returns
/// that passkey's position; no other passkey changes, and none does when no
/// passkey has that id.
pub fn apply_authentication(passkeys: &mut Vec<Passkey>, result: &AuthenticationResult) -> (r: Option<usize>)
    ensures
        final(passkeys).len() == old(passkeys).len(),
        r matches Some(i) ==> {
            &&& i < old(passkeys).len()
            &&& passkey_cred_id(old(passkeys)@[i as int]) == result_cred_id(*result)
            &&& none_before(old(passkeys)@, result_cred_id(*result), i as int)
            &&& final(passkeys)@[i as int] == applied_result(old(passkeys)@[i as int], *result)
            &&& forall|j: int| 0 <= j < old(passkeys).len() && j != i ==> final(passkeys)@[j] == old(passkeys)@[j]
        },
        r is None ==> none_before(old(passkeys)@, result_cred_id(*result), old(passkeys).len() as int)
            && final(passkeys)@ == old(passkeys)@,
{
    let n = passkeys.len();
    let mut ids: Vec<Vec<u8>> = Vec::new();
    for i in 0..n
        invariant
            n == passkeys.len(),
            ids.len() == i,
            passkeys@ == old(passkeys)@,
            forall|j: int| 0 <= j < i ==> (#[trigger] ids@[j])@ == passkey_cred_id(passkeys@[j]),
    {
        ids.push(passkey_credential_bytes(&passkeys[i]));
    }
    let target = result_credential_bytes(result);
    match select_credential(&ids, target.as_slice()) {
        Some(i) => {
            let mut pk = passkeys.remove(i);
            let _updated = update_credential(&mut pk, result);
            passkeys.insert(i, pk);
            assert forall|j: int| 0 <= j < n && j != i implies passkeys@[j] == old(passkeys)@[j] by {
                if j < i {
                } else {
                }
            }
            assert forall|j: int| 0 <= j < i implies passkey_cred_id(#[trigger] old(passkeys)@[j]) != result_cred_id(*result) by {
                assert(ids@[j]@ != target@);
            }
            Some(i)
        },
        None => {
            assert forall|j: int| 0 <= j < n implies passkey_cred_id(#[trigger] old(passkeys)@[j]) != result_cred_id(*result) by {
                assert(ids@[j]@ != target@);
            }
            None
        },
    }
}

/// The value stored in the signature-count column: the counter's bits read
/// as a signed 32-bit integer.
pub fn counter_column(counter: u32) -> (r: i32)
    ensures
        r == counter as i32,
{
    #[verifier::truncate]
    (counter as i32)
}

/// The name of a uniqueness constraint on stored credential ids.
pub open spec fn is_credential_constraint(c: Seq<char>) -> bool {
    c == "passkeys_credential_id_key"@ || c == "idx_passkeys_credential_id"@
}

/// The error for a failed passkey insert, given the violated constraint (if
/// the database named one) and the database's description: `Conflict` when
/// the credential is already stored, a database error otherwise.
pub fn save_error(constraint: Option<&str>, detail: &str) -> (r: AppError)
    ensures
        match constraint {
            Some(c) if is_credential_constraint(c@) => r matches AppError::Conflict(m)
                && m@ == "This passkey is already registered."@,
            _ => r matches AppError::Internal(m) && m@ == "Database error: "@ + detail@,
        },
{
    if let Some(c) = constraint {
        let c = String::from_str(c);
        if c == String::from_str("passkeys_credential_id_key") || c == String::from_str(
            "idx_passkeys_credential_id",
        ) {
            return AppError::Conflict(String::from_str("This passkey is already registered."));
        }
    }
    AppError::database(detail)
}

/// A passkey in the form it is stored in: the key of its credential and
/// its JSON document.
pub struct PasskeyRecord {
    pub credential_key: String,
    pub passkey: serde_json::Value,
}

/// The stored form of a newly registered passkey.
pub fn passkey_record(pk: &Passkey) -> (r: Result<PasskeyRecord, AppError>)
    ensures
        r is Ok <==> passkey_value(*pk) is Some,
        r matches Ok(rec) ==> rec.credential_key@ == base64url(passkey_cred_id(*pk))
            && passkey_value(*pk) == Some(rec.passkey),
        r matches Err(e) ==> is_internal_with(e, "Failed to serialize passkey"@),
{
    let id = passkey_credential_bytes(pk);
    let credential_key = credential_key(id.as_slice());
    let passkey = passkey_json(pk)?;
    Ok(PasskeyRecord { credential_key, passkey })
}

/// What an authentication changes in storage: the passkey (at `position`
/// among the user's passkeys) stored under `credential_key` gets a new JSON
/// document and signature count.
pub struct PasskeyUpdate {
    pub position: usize,
    pub credential_key: String,
    pub passkey: serde_json::Value,
    pub sign_count: i32,
}

/// Applies an authentication result to the user's passkeys, as
/// `apply_authentication` does, and gives the change to store: nothing when
/// no passkey has the credential that was used.
pub fn authentication_update(passkeys: &mut Vec<Passkey>, result: &AuthenticationResult) -> (r: Result<
    Option<PasskeyUpdate>,
    AppError,
>)
    ensures
        final(passkeys).len() == old(passkeys).len(),
        r matches Ok(None) ==> none_before(old(passkeys)@, result_cred_id(*result), old(passkeys).len() as int)
            && final(passkeys)@ == old(passkeys)@,
        r matches Ok(Some(u)) ==> {
            &&& u.position < old(passkeys).len()
            &&& passkey_cred_id(old(passkeys)@[u.position as int]) == result_cred_id(*result)
            &&& none_before(old(passkeys)@, result_cred_id(*result), u.position as int)
            &&& final(passkeys)@[u.position as int] == applied_result(old(passkeys)@[u.position as int], *result)
            &&& forall|j: int| 0 <= j < old(passkeys).len() && j != u.position ==> final(passkeys)@[j] == old(passkeys)@[j]
            &&& u.credential_key@ == base64url(result_cred_id(*result))
            &&& passkey_value(final(passkeys)@[u.position as int]) == Some(u.passkey)
            &&& u.sign_count == result_counter_of(*result) as i32
        },
        r matches Err(e) ==> is_internal_with(e, "Failed to serialize passkey"@)
            && exists|i: int| 0 <= i < old(passkeys).len()
                && passkey_cred_id(old(passkeys)@[i]) == result_cred_id(*result)
                && none_before(old(passkeys)@, result_cred_id(*result), i)
                && passkey_value(#[trigger] applied_result(old(passkeys)@[i], *result)) is None,
{
    match apply_authentication(passkeys, result) {
        None => Ok(None),
        Some(i) => {
            let id = result_credential_bytes(result);
            let credential_key = credential_key(id.as_slice());
            let passkey = passkey_json(&passkeys[i])?;
            let counter = result_counter(result);
            let sign_count = counter_column(counter);
            Ok(Some(PasskeyUpdate { position: i, credential_key, passkey, sign_count }))
        },
    }
}

} // verus!
