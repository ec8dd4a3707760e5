//! Secrets crossing the plaintext/ciphertext boundary.
//!
//! Plaintext exists only between a request and `encrypt`, or between
//! `decrypt` and a response; the store only ever sees ciphertext.

use vstd::prelude::*;
use vstd::string::StrSliceExecFns;
use vstd::string::StringExecFns;
use vstd::utf8::decode_utf8;
use vstd::utf8::encode_utf8;
use vstd::utf8::valid_utf8;

use crate::cipher::MAX_DATA_LEN;
use crate::cipher::decrypt;
use crate::cipher::encrypt;
use crate::cipher::key_acceptable;
use crate::cipher::key_ok;
use crate::cipher::spec_decrypt;
use crate::cipher::spec_encrypt;
use crate::dtos::EditSecretDto;
use crate::dtos::FilterSecretDto;
use crate::dtos::RequestQueryDto;
use crate::dtos::RequestQuerySecretByKeyDto;
use crate::dtos::RequestQuerySecretByKeyResponseDto;
use crate::dtos::RequestQuerySecretVersionDto;
use crate::dtos::Response;
use crate::dtos::SaveSecretDto;
use crate::dtos::SecretResponse;
use crate::dtos::SecretResponseDto;
use crate::dtos::spec_decimal;
use crate::error::SecretError;
use crate::keystore::cipher_configured;
use crate::keystore::get_cipher_config;
use crate::keystore::get_database;
use crate::models::EncryptionMethod;
use crate::models::Secret;
use crate::models::SecretModel;
use crate::models::SecretVersion;
use crate::models::SecretVersionModel;
use crate::models::User;
use crate::store::SecretStore;
use crate::store::saved_as_secret;
use crate::store::spec_edit;
use crate::store::spec_find;
use crate::store::spec_list;
use crate::store::spec_list_versions;
use crate::validate::edit_secret_valid;
use crate::validate::resolved_query;
use crate::validate::save_secret_valid;
use crate::validate::validate_edit_secret;
use crate::validate::validate_query;
use crate::validate::validate_query_version;
use crate::validate::validate_save_secret;

verus! {

/// The cipher method of a tenant whose configuration is set.
pub open spec fn tenant_method(user: User) -> EncryptionMethod
    recommends
        cipher_configured(user),
{
    user.encryption_method.unwrap()
}

/// The key material of a tenant whose configuration is set.
pub open spec fn tenant_key(user: User) -> Seq<u8>
    recommends
        cipher_configured(user),
{
    user.keys.unwrap()@
}

/// The mathematical shape of a secret prepared for insertion.
pub struct SavedSecretModel {
    pub name: Seq<char>,
    pub value: Seq<u8>,
    pub version: int,
}

/// A secret already encrypted and ready for insertion.
#[derive(Debug)]
pub struct SavedSecret {
    pub secret_name: String,
    pub encrypted_secret_value: Vec<u8>,
    pub version: i32,
}

impl View for SavedSecret {
    type V = SavedSecretModel;

    open spec fn view(&self) -> SavedSecretModel {
        SavedSecretModel {
            name: self.secret_name@,
            value: self.encrypted_secret_value@,
            version: self.version as int,
        }
    }
}

impl DeepView for SavedSecret {
    type V = SavedSecretModel;

    open spec fn deep_view(&self) -> SavedSecretModel {
        self.view()
    }
}

/// Relies on `String::from_utf8`: it succeeds exactly on valid UTF-8 and
/// yields the characters those bytes encode.
#[verifier::external_body]
fn string_from_utf8(v: Vec<u8>) -> (r: Option<String>)
    ensures
        r is Some <==> valid_utf8(v@),
        (r matches Some(s) ==> s@ == decode_utf8(v@)),
{
    String::from_utf8(v).ok()
}

/// Whether a byte string is short enough for the cipher suite.
pub open spec fn ct_fits(ct: Seq<u8>) -> bool {
    ct.len() <= MAX_DATA_LEN
}

/// Whether a plaintext string fits the cipher suite once encoded, padding
/// included.
pub open spec fn plaintext_fits(s: Seq<char>) -> bool {
    encode_utf8(s).len() + 16 <= MAX_DATA_LEN
}

/// Whether one item of a batch can be saved: valid fields and a value the
/// cipher suite can take.
pub open spec fn save_item_ok(dto: SaveSecretDto) -> bool {
    save_secret_valid(dto) && plaintext_fits(dto.secret_value@)
}

/// The characters a ciphertext reveals under a method and key: the decrypted
/// bytes read as UTF-8, or nothing where decryption or decoding fails.
pub open spec fn spec_reveal(method: EncryptionMethod, key: Seq<u8>, ct: Seq<u8>) -> Option<
    Seq<char>,
> {
    match spec_decrypt(method, key, ct) {
        None => None,
        Some(p) => if valid_utf8(p) {
            Some(decode_utf8(p))
        } else {
            None
        },
    }
}

/// Whether a stored ciphertext can be turned back into a response value.
pub open spec fn row_revealable(method: EncryptionMethod, key: Seq<u8>, ct: Seq<u8>) -> bool {
    ct_fits(ct) && key_acceptable(method, key) && spec_reveal(method, key, ct) is Some
}

/// Decrypts one stored ciphertext into the string it was saved from.
pub fn reveal_value(method: &EncryptionMethod, key: &[u8], ct: &[u8]) -> (r: Result<
    String,
    SecretError,
>)
    ensures
        match r {
            Ok(s) => row_revealable(*method, key@, ct@) && Some(s@) == spec_reveal(
                *method,
                key@,
                ct@,
            ),
            Err(e) => e == SecretError::DecryptionFailure && !row_revealable(*method, key@, ct@),
        },
{
    if ct.len() > MAX_DATA_LEN {
        return Err(SecretError::DecryptionFailure);
    }
    let plain = match decrypt(method, key, ct) {
        Ok(p) => p,
        Err(_) => {
            return Err(SecretError::DecryptionFailure);
        },
    };
    match string_from_utf8(plain) {
        Some(s) => Ok(s),
        None => Err(SecretError::DecryptionFailure),
    }
}

/// Encodes and encrypts one plaintext value under the tenant's method and
/// key; what comes back decrypts and decodes to the value again.
pub fn seal_value(method: &EncryptionMethod, key: &[u8], value: &str) -> (r: Result<
    Vec<u8>,
    SecretError,
>)
    ensures
        match r {
            Ok(ct) => key_acceptable(*method, key@) && plaintext_fits(value@) && ct@
                == spec_encrypt(*method, key@, encode_utf8(value@)) && spec_reveal(
                *method,
                key@,
                ct@,
            ) == Some(value@) && ct_fits(ct@),
            Err(e) => e == SecretError::ValidationFailure && (!key_acceptable(*method, key@)
                || !plaintext_fits(value@)),
        },
{
    broadcast use vstd::utf8::encode_utf8_valid_utf8, vstd::utf8::encode_utf8_decode_utf8;

    if !key_ok(method, key) {
        return Err(SecretError::ValidationFailure);
    }
    let bytes = value.as_bytes_vec();
    if bytes.len() > MAX_DATA_LEN - 16 {
        return Err(SecretError::ValidationFailure);
    }
    match encrypt(method, key, bytes.as_slice()) {
        Ok(ct) => Ok(ct),
        Err(_) => Err(SecretError::ValidationFailure),
    }
}

/// Validates and encrypts a batch of secrets for insertion, each at
/// version 1; any bad item or an unusable key rejects the whole batch.
pub fn prepare_save_secrets(
    method: &EncryptionMethod,
    key: &[u8],
    body: &Vec<SaveSecretDto>,
) -> (r: Result<Vec<SavedSecret>, SecretError>)
    ensures
        match r {
            Ok(out) => key_acceptable(*method, key@) && out@.len() == body@.len() && forall|i: int|
                0 <= i < body@.len() ==> {
                    &&& save_item_ok(#[trigger] body@[i])
                    &&& out@[i].secret_name@ == body@[i].secret_name@
                    &&& out@[i].version == 1
                    &&& out@[i].encrypted_secret_value@ == spec_encrypt(
                        *method,
                        key@,
                        encode_utf8(body@[i].secret_value@),
                    )
                    &&& spec_reveal(*method, key@, out@[i].encrypted_secret_value@) == Some(
                        body@[i].secret_value@,
                    )
                },
            Err(e) => e == SecretError::ValidationFailure && (!key_acceptable(*method, key@)
                || exists|i: int| 0 <= i < body@.len() && !save_item_ok(#[trigger] body@[i])),
        },
{
    if !key_ok(method, key) {
        return Err(SecretError::ValidationFailure);
    }
    let mut out: Vec<SavedSecret> = Vec::new();
    let n = body.len();
    let mut k: usize = 0;
    while k < n
        invariant
            k <= n,
            n == body@.len(),
            key_acceptable(*method, key@),
            out@.len() == k,
            forall|i: int|
                0 <= i < k ==> {
                    &&& save_item_ok(#[trigger] body@[i])
                    &&& out@[i].secret_name@ == body@[i].secret_name@
                    &&& out@[i].version == 1
                    &&& out@[i].encrypted_secret_value@ == spec_encrypt(
                        *method,
                        key@,
                        encode_utf8(body@[i].secret_value@),
                    )
                    &&& spec_reveal(*method, key@, out@[i].encrypted_secret_value@) == Some(
                        body@[i].secret_value@,
                    )
                },
        decreases n - k,
    {
        let dto = &body[k];
        if let Err(e) = validate_save_secret(dto) {
            return Err(e);
        }
        let ct = match seal_value(method, key, dto.secret_value.as_str()) {
            Ok(ct) => ct,
            Err(e) => {
                return Err(e);
            },
        };
        out.push(
            SavedSecret {
                secret_name: dto.secret_name.clone(),
                encrypted_secret_value: ct,
                version: 1,
            },
        );
        k = k + 1;
    }
    Ok(out)
}

/// Turns a page of live rows into responses, decrypting each value under
/// the tenant's method and key; one undecryptable row fails the page.
pub fn decrypt_secrets(method: &EncryptionMethod, key: &[u8], rows: &Vec<Secret>) -> (r: Result<
    Vec<SecretResponse>,
    SecretError,
>)
    ensures
        match r {
            Ok(out) => out@.len() == rows@.len() && forall|i: int|
                0 <= i < rows@.len() ==> {
                    &&& row_revealable(*method, key@, (#[trigger] rows@[i]).encrypted_secret_value@)
                    &&& out@[i].id == rows@[i].id
                    &&& out@[i].secret_name@ == rows@[i].secret_name@
                    &&& Some(out@[i].secret_value@) == spec_reveal(
                        *method,
                        key@,
                        rows@[i].encrypted_secret_value@,
                    )
                    &&& out@[i].version == rows@[i].version
                    &&& out@[i].created_at == rows@[i].created_at
                    &&& out@[i].updated_at == rows@[i].updated_at
                },
            Err(e) => e == SecretError::DecryptionFailure && exists|i: int|
                0 <= i < rows@.len() && !row_revealable(
                    *method,
                    key@,
                    (#[trigger] rows@[i]).encrypted_secret_value@,
                ),
        },
{
    let mut out: Vec<SecretResponse> = Vec::new();
    let n = rows.len();
    let mut k: usize = 0;
    while k < n
        invariant
            k <= n,
            n == rows@.len(),
            out@.len() == k,
            forall|i: int|
                0 <= i < k ==> {
                    &&& row_revealable(*method, key@, (#[trigger] rows@[i]).encrypted_secret_value@)
                    &&& out@[i].id == rows@[i].id
                    &&& out@[i].secret_name@ == rows@[i].secret_name@
                    &&& Some(out@[i].secret_value@) == spec_reveal(
                        *method,
                        key@,
                        rows@[i].encrypted_secret_value@,
                    )
                    &&& out@[i].version == rows@[i].version
                    &&& out@[i].created_at == rows@[i].created_at
                    &&& out@[i].updated_at == rows@[i].updated_at
                },
        decreases n - k,
    {
        let row = &rows[k];
        let value = match reveal_value(method, key, row.encrypted_secret_value.as_slice()) {
            Ok(v) => v,
            Err(e) => {
                return Err(e);
            },
        };
        out.push(
            SecretResponse {
                id: row.id,
                secret_name: row.secret_name.clone(),
                secret_value: value,
                version: row.version,
                created_at: row.created_at,
                updated_at: row.updated_at,
            },
        );
        k = k + 1;
    }
    Ok(out)
}

/// Turns a page of history rows into responses, decrypting each value under
/// the tenant's method and key; one undecryptable row fails the page.
pub fn decrypt_secret_versions(
    method: &EncryptionMethod,
    key: &[u8],
    rows: &Vec<SecretVersion>,
) -> (r: Result<Vec<SecretResponse>, SecretError>)
    ensures
        match r {
            Ok(out) => out@.len() == rows@.len() && forall|i: int|
                0 <= i < rows@.len() ==> {
                    &&& row_revealable(*method, key@, (#[trigger] rows@[i]).encrypted_secret_value@)
                    &&& out@[i].id == rows@[i].id
                    &&& out@[i].secret_name@ == rows@[i].secret_name@
                    &&& Some(out@[i].secret_value@) == spec_reveal(
                        *method,
                        key@,
                        rows@[i].encrypted_secret_value@,
                    )
                    &&& out@[i].version == rows@[i].version
                    &&& out@[i].created_at == rows@[i].created_at
                    &&& out@[i].updated_at == rows@[i].updated_at
                },
            Err(e) => e == SecretError::DecryptionFailure && exists|i: int|
                0 <= i < rows@.len() && !row_revealable(
                    *method,
                    key@,
                    (#[trigger] rows@[i]).encrypted_secret_value@,
                ),
        },
{
    let mut out: Vec<SecretResponse> = Vec::new();
    let n = rows.len();
    let mut k: usize = 0;
    while k < n
        invariant
            k <= n,
            n == rows@.len(),
            out@.len() == k,
            forall|i: int|
                0 <= i < k ==> {
                    &&& row_revealable(*method, key@, (#[trigger] rows@[i]).encrypted_secret_value@)
                    &&& out@[i].id == rows@[i].id
                    &&& out@[i].secret_name@ == rows@[i].secret_name@
                    &&& Some(out@[i].secret_value@) == spec_reveal(
                        *method,
                        key@,
                        rows@[i].encrypted_secret_value@,
                    )
                    &&& out@[i].version == rows@[i].version
                    &&& out@[i].created_at == rows@[i].created_at
                    &&& out@[i].updated_at == rows@[i].updated_at
                },
        decreases n - k,
    {
        let row = &rows[k];
        let value = match reveal_value(method, key, row.encrypted_secret_value.as_slice()) {
            Ok(v) => v,
            Err(e) => {
                return Err(e);
            },
        };
        out.push(
            SecretResponse {
                id: row.id,
                secret_name: row.secret_name.clone(),
                secret_value: value,
                version: row.version,
                created_at: row.created_at,
                updated_at: row.updated_at,
            },
        );
        k = k + 1;
    }
    Ok(out)
}

/// Whether the outgoing rows carry, in order, the identifier, name,
/// decrypted value and version of the listed live rows.
pub open spec fn responses_match_secret_window(
    user: User,
    window: Seq<SecretModel>,
    out: Seq<FilterSecretDto>,
) -> bool {
    &&& out.len() == window.len()
    &&& forall|i: int|
        0 <= i < window.len() ==> {
            &&& (#[trigger] out[i]).id@ == spec_decimal(window[i].id as int)
            &&& out[i].secret_name@ == window[i].name
            &&& Some(out[i].secret_value@) == spec_reveal(
                tenant_method(user),
                tenant_key(user),
                window[i].value,
            )
            &&& out[i].version as int == window[i].version
        }
}

/// Whether some listed live row cannot be decrypted under the tenant's key.
pub open spec fn secret_window_undecryptable(user: User, window: Seq<SecretModel>) -> bool {
    exists|i: int|
        0 <= i < window.len() && !row_revealable(
            tenant_method(user),
            tenant_key(user),
            (#[trigger] window[i]).value,
        )
}

/// Whether the outgoing rows carry, in order, the identifier, name,
/// decrypted value and version of the listed history rows.
pub open spec fn responses_match_history_window(
    user: User,
    window: Seq<SecretVersionModel>,
    out: Seq<FilterSecretDto>,
) -> bool {
    &&& out.len() == window.len()
    &&& forall|i: int|
        0 <= i < window.len() ==> {
            &&& (#[trigger] out[i]).id@ == spec_decimal(window[i].id as int)
            &&& out[i].secret_name@ == window[i].name
            &&& Some(out[i].secret_value@) == spec_reveal(
                tenant_method(user),
                tenant_key(user),
                window[i].value,
            )
            &&& out[i].version as int == window[i].version
        }
}

/// Whether some listed history row cannot be decrypted under the tenant's key.
pub open spec fn history_window_undecryptable(user: User, window: Seq<SecretVersionModel>) -> bool {
    exists|i: int|
        0 <= i < window.len() && !row_revealable(
            tenant_method(user),
            tenant_key(user),
            (#[trigger] window[i]).value,
        )
}

/// Lists one page of the tenant's secrets, decrypted: the full row count and
/// the requested window, most recently created first.
pub fn get_secrets(store: &SecretStore, user: &User, query: &RequestQueryDto) -> (r: Result<
    SecretResponseDto,
    SecretError,
>)
    requires
        store.wf(),
    ensures
        match r {
            Ok(dto) => ({
                let pl = resolved_query(query.page, query.limit).unwrap();
                let window = spec_list(store@, pl.0, pl.1).1;
                &&& resolved_query(query.page, query.limit) is Some
                &&& user.db_connection is Some
                &&& cipher_configured(*user)
                &&& dto.total_count as int == store@.secrets.len()
                &&& responses_match_secret_window(*user, window, dto.secret@)
            }),
            Err(e) => {
                ||| (e == SecretError::ValidationFailure && resolved_query(
                    query.page,
                    query.limit,
                ) is None)
                ||| (e == SecretError::ConfigurationMissing && (user.db_connection is None
                    || !cipher_configured(*user)))
                ||| (e == SecretError::DecryptionFailure && cipher_configured(*user) && (
                resolved_query(query.page, query.limit) matches Some(pl)
                    && secret_window_undecryptable(*user, spec_list(store@, pl.0, pl.1).1)))
            },
        },
{
    let pl = match validate_query(query) {
        Ok(pl) => pl,
        Err(e) => {
            return Err(e);
        },
    };
    if let Err(e) = get_database(user) {
        return Err(e);
    }
    let (total, rows) = store.list(pl.0, pl.1);
    let ghost window = spec_list(store@, pl.0 as int, pl.1 as int).1;
    let mk = match get_cipher_config(user) {
        Ok(mk) => mk,
        Err(e) => {
            return Err(e);
        },
    };
    let responses = match decrypt_secrets(&mk.0, mk.1.as_slice(), &rows) {
        Ok(v) => v,
        Err(e) => {
            proof {
                let j = choose|j: int|
                    0 <= j < rows@.len() && !row_revealable(
                        mk.0,
                        mk.1@,
                        (#[trigger] rows@[j]).encrypted_secret_value@,
                    );
                assert(rows.deep_view()[j] == window[j]);
                assert(!row_revealable(tenant_method(*user), tenant_key(*user), window[j].value));
            }
            return Err(e);
        },
    };
    let filtered = FilterSecretDto::filter_secrets(responses.as_slice());
    proof {
        assert forall|i: int| 0 <= i < window.len() implies {
            &&& (#[trigger] filtered@[i]).id@ == spec_decimal(window[i].id as int)
            &&& filtered@[i].secret_name@ == window[i].name
            &&& Some(filtered@[i].secret_value@) == spec_reveal(
                tenant_method(*user),
                tenant_key(*user),
                window[i].value,
            )
            &&& filtered@[i].version as int == window[i].version
        } by {
            assert(rows.deep_view()[i] == window[i]);
        }
    }
    Ok(SecretResponseDto { secret: filtered, total_count: total as i64 })
}

/// Lists one page of one secret's history, decrypted: the count of that
/// secret's history rows and the requested window, most recent first.
pub fn get_secret_version(
    store: &SecretStore,
    user: &User,
    query: &RequestQuerySecretVersionDto,
) -> (r: Result<SecretResponseDto, SecretError>)
    requires
        store.wf(),
    ensures
        match r {
            Ok(dto) => ({
                let pl = resolved_query(query.page, query.limit).unwrap();
                let listed = spec_list_versions(store@, query.id, pl.0, pl.1);
                &&& resolved_query(query.page, query.limit) is Some
                &&& user.db_connection is Some
                &&& cipher_configured(*user)
                &&& dto.total_count as int == listed.0
                &&& responses_match_history_window(*user, listed.1, dto.secret@)
            }),
            Err(e) => {
                ||| (e == SecretError::ValidationFailure && resolved_query(
                    query.page,
                    query.limit,
                ) is None)
                ||| (e == SecretError::ConfigurationMissing && (user.db_connection is None
                    || !cipher_configured(*user)))
                ||| (e == SecretError::DecryptionFailure && cipher_configured(*user) && (
                resolved_query(query.page, query.limit) matches Some(pl)
                    && history_window_undecryptable(
                    *user,
                    spec_list_versions(store@, query.id, pl.0, pl.1).1,
                )))
            },
        },
{
    let pl = match validate_query_version(query) {
        Ok(pl) => pl,
        Err(e) => {
            return Err(e);
        },
    };
    if let Err(e) = get_database(user) {
        return Err(e);
    }
    let (total, rows) = store.list_versions(query.id, pl.0, pl.1);
    let ghost window = spec_list_versions(store@, query.id, pl.0 as int, pl.1 as int).1;
    let mk = match get_cipher_config(user) {
        Ok(mk) => mk,
        Err(e) => {
            return Err(e);
        },
    };
    let responses = match decrypt_secret_versions(&mk.0, mk.1.as_slice(), &rows) {
        Ok(v) => v,
        Err(e) => {
            proof {
                let j = choose|j: int|
                    0 <= j < rows@.len() && !row_revealable(
                        mk.0,
                        mk.1@,
                        (#[trigger] rows@[j]).encrypted_secret_value@,
                    );
                assert(rows.deep_view()[j] == window[j]);
                assert(!row_revealable(tenant_method(*user), tenant_key(*user), window[j].value));
            }
            return Err(e);
        },
    };
    let filtered = FilterSecretDto::filter_secrets(responses.as_slice());
    proof {
        assert forall|i: int| 0 <= i < window.len() implies {
            &&& (#[trigger] filtered@[i]).id@ == spec_decimal(window[i].id as int)
            &&& filtered@[i].secret_name@ == window[i].name
            &&& Some(filtered@[i].secret_value@) == spec_reveal(
                tenant_method(*user),
                tenant_key(*user),
                window[i].value,
            )
            &&& filtered@[i].version as int == window[i].version
        } by {
            assert(rows.deep_view()[i] == window[i]);
        }
    }
    Ok(SecretResponseDto { secret: filtered, total_count: total as i64 })
}

/// Saves a batch of secrets: each value is encrypted under the tenant's
/// configuration and inserted as a new secret at version 1, all or nothing.
pub fn save_secrets(
    store: &mut SecretStore,
    user: &User,
    body: &Vec<SaveSecretDto>,
    now: i64,
) -> (r: Result<Response, SecretError>)
    requires
        old(store).wf(),
        now as int >= old(store)@.last_ts,
        old(store)@.next_id + body@.len() <= u128::MAX,
        old(store)@.secrets.len() + body@.len() <= i64::MAX,
    ensures
        final(store).wf(),
        match r {
            Ok(resp) => ({
                let method = tenant_method(*user);
                let key = tenant_key(*user);
                let n0 = old(store)@.secrets.len() as int;
                &&& cipher_configured(*user)
                &&& user.db_connection is Some
                &&& key_acceptable(method, key)
                &&& (forall|i: int| 0 <= i < body@.len() ==> save_item_ok(#[trigger] body@[i]))
                &&& final(store)@.versions == old(store)@.versions
                &&& final(store)@.secrets.len() == n0 + body@.len()
                &&& (forall|i: int|
                    0 <= i < n0 ==> (#[trigger] final(store)@.secrets[i]) == old(
                        store,
                    )@.secrets[i])
                &&& (forall|i: int|
                    0 <= i < body@.len() ==> {
                        let row = #[trigger] final(store)@.secrets[n0 + i];
                        &&& row.name == body@[i].secret_name@
                        &&& row.version == 1
                        &&& row.created_at == now
                        &&& row.value == spec_encrypt(
                            method,
                            key,
                            encode_utf8(body@[i].secret_value@),
                        )
                        &&& spec_reveal(method, key, row.value) == Some(body@[i].secret_value@)
                    })
                &&& resp.status@ == "success"@
            }),
            Err(e) => final(store)@ == old(store)@ && {
                ||| (e == SecretError::ConfigurationMissing && (!cipher_configured(*user)
                    || user.db_connection is None))
                ||| (e == SecretError::ValidationFailure && (!key_acceptable(
                    tenant_method(*user),
                    tenant_key(*user),
                ) || exists|i: int| 0 <= i < body@.len() && !save_item_ok(#[trigger] body@[i])))
            },
        },
{
    let mk = match get_cipher_config(user) {
        Ok(mk) => mk,
        Err(e) => {
            return Err(e);
        },
    };
    let prepared = match prepare_save_secrets(&mk.0, mk.1.as_slice(), body) {
        Ok(p) => p,
        Err(e) => {
            return Err(e);
        },
    };
    if let Err(e) = get_database(user) {
        return Err(e);
    }
    proof {
        assert forall|i: int|
            0 <= i < prepared@.len() implies (#[trigger] prepared.deep_view()[i]).version >= 1 by {
            assert(save_item_ok(body@[i]));
            assert(prepared@[i].version == 1);
        }
    }
    let ghost m0 = store@;
    store.save_batch(&prepared, now);
    proof {
        let its = prepared.deep_view();
        let n0 = m0.secrets.len() as int;
        assert forall|i: int| 0 <= i < body@.len() implies {
            let row = #[trigger] store@.secrets[n0 + i];
            &&& row.name == body@[i].secret_name@
            &&& row.version == 1
            &&& row.created_at == now
            &&& row.value == spec_encrypt(
                tenant_method(*user),
                tenant_key(*user),
                encode_utf8(body@[i].secret_value@),
            )
            &&& spec_reveal(tenant_method(*user), tenant_key(*user), row.value) == Some(
                body@[i].secret_value@,
            )
        } by {
            assert(store@.secrets[n0 + i] == saved_as_secret(its[i], m0.next_id + i, now as int));
            assert(save_item_ok(body@[i]));
            assert(its[i].name == prepared@[i].secret_name@);
        }
        assert forall|i: int| 0 <= i < n0 implies (#[trigger] store@.secrets[i]) == m0.secrets[i] by {
            assert(store@.secrets[i] == (m0.secrets + Seq::new(
                its.len(),
                |j: int| saved_as_secret(its[j], m0.next_id + j, now as int),
            ))[i]);
        }
    }
    Ok(
        Response {
            status: "success",
            message: String::from_str("Secrets saved successfully"),
        },
    )
}

/// Edits one secret: the new value is encrypted under the tenant's
/// configuration, the pre-edit state is captured as one history row, and the
/// live row moves to the next version — atomically, serialized by the
/// version the read observed.
pub fn edit_secrets(store: &mut SecretStore, user: &User, body: &EditSecretDto, now: i64) -> (r:
    Result<Response, SecretError>)
    requires
        old(store).wf(),
        now as int >= old(store)@.last_ts,
        old(store)@.next_id < u128::MAX,
        old(store)@.versions.len() < i64::MAX,
    ensures
        final(store).wf(),
        match r {
            Ok(resp) => ({
                let method = tenant_method(*user);
                let key = tenant_key(*user);
                let i = spec_find(old(store)@.secrets, body.id).unwrap();
                let ct = spec_encrypt(method, key, encode_utf8(body.secret_value@));
                &&& edit_secret_valid(*body)
                &&& cipher_configured(*user)
                &&& user.db_connection is Some
                &&& spec_find(old(store)@.secrets, body.id) is Some
                &&& old(store)@.secrets[i].version < i32::MAX
                &&& final(store)@ == spec_edit(
                    old(store)@,
                    body.id,
                    body.secret_name@,
                    ct,
                    old(store)@.secrets[i].version,
                    now as int,
                ).0
                &&& spec_edit(
                    old(store)@,
                    body.id,
                    body.secret_name@,
                    ct,
                    old(store)@.secrets[i].version,
                    now as int,
                ).1 == Ok::<(), SecretError>(())
                &&& spec_reveal(method, key, ct) == Some(body.secret_value@)
                &&& resp.status@ == "success"@
            }),
            Err(e) => final(store)@ == old(store)@ && {
                ||| (e == SecretError::ValidationFailure && (!edit_secret_valid(*body)
                    || !key_acceptable(tenant_method(*user), tenant_key(*user))
                    || !plaintext_fits(body.secret_value@) || (spec_find(
                    old(store)@.secrets,
                    body.id,
                ) matches Some(i) && old(store)@.secrets[i].version == i32::MAX)))
                ||| (e == SecretError::ConfigurationMissing && (!cipher_configured(*user)
                    || user.db_connection is None))
                ||| (e == SecretError::NotFound && spec_find(old(store)@.secrets, body.id) is None)
            },
        },
{
    if let Err(e) = validate_edit_secret(body) {
        return Err(e);
    }
    let mk = match get_cipher_config(user) {
        Ok(mk) => mk,
        Err(e) => {
            return Err(e);
        },
    };
    let ct = match seal_value(&mk.0, mk.1.as_slice(), body.secret_value.as_str()) {
        Ok(ct) => ct,
        Err(e) => {
            return Err(e);
        },
    };
    if let Err(e) = get_database(user) {
        return Err(e);
    }
    let current = match store.get_by_id(body.id) {
        Ok(s) => s,
        Err(e) => {
            return Err(e);
        },
    };
    if current.version == i32::MAX {
        return Err(SecretError::ValidationFailure);
    }
    match store.edit(body.id, &body.secret_name, &ct, current.version, now) {
        Ok(()) => Ok(
            Response {
                status: "success",
                message: String::from_str("Secret updated successfully"),
            },
        ),
        Err(e) => {
            // The expected version was read from the same store state, so
            // the version check cannot have failed.
            proof {
                assert(false);
            }
            Err(e)
        },
    }
}

/// Reads one secret on the service-to-service path: the caller must present
/// the tenant's API key, and gets the decrypted value of one secret.
pub fn get_secret_by_key(
    store: &SecretStore,
    user: &User,
    query: &RequestQuerySecretByKeyDto,
) -> (r: Result<RequestQuerySecretByKeyResponseDto, SecretError>)
    requires
        store.wf(),
    ensures
        match r {
            Ok(resp) => ({
                let i = spec_find(store@.secrets, query.secret).unwrap();
                &&& (user.api_keys matches Some(k) && k@ == query.key@)
                &&& user.db_connection is Some
                &&& cipher_configured(*user)
                &&& spec_find(store@.secrets, query.secret) is Some
                &&& Some(resp.value@) == spec_reveal(
                    tenant_method(*user),
                    tenant_key(*user),
                    store@.secrets[i].value,
                )
            }),
            Err(e) => {
                ||| (e == SecretError::NotFound && (!(user.api_keys matches Some(k) && k@
                    == query.key@) || spec_find(store@.secrets, query.secret) is None))
                ||| (e == SecretError::ConfigurationMissing && (user.db_connection is None
                    || !cipher_configured(*user)))
                ||| (e == SecretError::DecryptionFailure && (spec_find(
                    store@.secrets,
                    query.secret,
                ) matches Some(i) && !row_revealable(
                    tenant_method(*user),
                    tenant_key(*user),
                    store@.secrets[i].value,
                )))
            },
        },
{
    let key_matches = match &user.api_keys {
        Some(k) => *k == query.key,
        None => false,
    };
    if !key_matches {
        return Err(SecretError::NotFound);
    }
    if let Err(e) = get_database(user) {
        return Err(e);
    }
    let secret = match store.get_by_id(query.secret) {
        Ok(s) => s,
        Err(e) => {
            return Err(e);
        },
    };
    let mk = match get_cipher_config(user) {
        Ok(mk) => mk,
        Err(e) => {
            return Err(e);
        },
    };
    let value = match reveal_value(&mk.0, mk.1.as_slice(), secret.encrypted_secret_value.as_slice())
        {
        Ok(v) => v,
        Err(e) => {
            return Err(e);
        },
    };
    Ok(RequestQuerySecretByKeyResponseDto { value })
}

} // verus!
