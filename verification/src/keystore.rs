//! The tenant's cipher configuration and database descriptor.

use vstd::prelude::*;

use crate::cipher::key_acceptable;
use crate::cipher::required_key_len;
use crate::dtos::DatabaseDto;
use crate::error::SecretError;
use crate::validate::database_valid;
use crate::validate::validate_database;
use crate::keygen::generate_key;
use crate::models::cipher_config_consistent;
use crate::models::DbConnection;
use crate::models::EncryptionMethod;
use crate::models::User;

verus! {

/// Whether the tenant has a cipher method and key material set.
pub open spec fn cipher_configured(u: User) -> bool {
    u.encryption_method is Some && u.keys is Some
}

/// Hands out the tenant's cipher method and key, and fails with
/// `ConfigurationMissing` exactly when either is unset.
pub fn get_cipher_config(user: &User) -> (r: Result<(EncryptionMethod, Vec<u8>), SecretError>)
    ensures
        match r {
            Ok(mk) => cipher_configured(*user) && user.encryption_method == Some(mk.0) && (
            user.keys matches Some(k) && mk.1@ == k@),
            Err(e) => e == SecretError::ConfigurationMissing && !cipher_configured(*user),
        },
{
    match (&user.encryption_method, &user.keys) {
        (Some(m), Some(k)) => Ok((*m, vstd::slice::slice_to_vec(k.as_slice()))),
        _ => Err(SecretError::ConfigurationMissing),
    }
}

/// Hands out the tenant's database descriptor, and fails with
/// `ConfigurationMissing` exactly when it is unset.
pub fn get_database<'a>(user: &'a User) -> (r: Result<&'a DbConnection, SecretError>)
    ensures
        match r {
            Ok(d) => user.db_connection matches Some(c) && d == &c,
            Err(e) => e == SecretError::ConfigurationMissing && user.db_connection is None,
        },
{
    match &user.db_connection {
        Some(d) => Ok(d),
        None => Err(SecretError::ConfigurationMissing),
    }
}

/// Sets the tenant's cipher method, drawing a fresh key of exactly the
/// required length, and overwrites any prior configuration unconditionally;
/// secrets encrypted under the old key can no longer be decrypted. Returns
/// the new key for the control-plane store to persist.
pub fn configure_encryption(user: &mut User, method: EncryptionMethod) -> (key: Vec<u8>)
    ensures
        key@.len() == required_key_len(method),
        key_acceptable(method, key@),
        final(user).encryption_method == Some(method),
        final(user).keys matches Some(k) && k@ == key@,
        cipher_configured(*final(user)),
        cipher_config_consistent(*final(user)),
        final(user).id == old(user).id,
        final(user).name == old(user).name,
        final(user).email == old(user).email,
        final(user).password == old(user).password,
        final(user).api_keys == old(user).api_keys,
        final(user).db_connection == old(user).db_connection,
        final(user).created_at == old(user).created_at,
        final(user).updated_at == old(user).updated_at,
{
    let key = generate_key(&method);
    user.encryption_method = Some(method);
    user.keys = Some(vstd::slice::slice_to_vec(key.as_slice()));
    key
}

/// Builds the database descriptor a tenant submits, accepting it exactly
/// when its fields are valid.
pub fn make_db_connection(body: &DatabaseDto) -> (r: Result<DbConnection, SecretError>)
    ensures
        match r {
            Ok(d) => database_valid(*body) && d.host@ == body.host@ && d.username@
                == body.username@ && d.password@ == body.password@ && d.database@
                == body.database@ && d.port == body.port,
            Err(e) => e == SecretError::ValidationFailure && !database_valid(*body),
        },
{
    if let Err(e) = validate_database(body) {
        return Err(e);
    }
    Ok(
        DbConnection {
            host: body.host.clone(),
            username: body.username.clone(),
            password: body.password.clone(),
            database: body.database.clone(),
            port: body.port,
        },
    )
}

} // verus!
