use secret_vault::dtos::{
    EditSecretDto, RequestQueryDto, RequestQuerySecretByKeyDto, RequestQuerySecretVersionDto,
    SaveSecretDto,
};
use secret_vault::error::SecretError;
use secret_vault::keystore::{configure_encryption, get_cipher_config};
use secret_vault::models::{DbConnection, EncryptionMethod, User};
use secret_vault::secrets::{
    edit_secrets, get_secret_by_key, get_secret_version, get_secrets, save_secrets,
};
use secret_vault::store::SecretStore;

fn tenant(method: EncryptionMethod) -> User {
    let mut user = User {
        id: 42,
        name: "tenant".to_string(),
        email: "tenant@example.com".to_string(),
        password: "password123".to_string(),
        encryption_method: None,
        keys: None,
        api_keys: Some("api-key-1".to_string()),
        db_connection: Some(DbConnection {
            host: "localhost".to_string(),
            username: "owner".to_string(),
            password: "password123".to_string(),
            database: "tenant_db".to_string(),
            port: 5432,
        }),
        created_at: Some(100),
        updated_at: Some(100),
    };
    configure_encryption(&mut user, method);
    user
}

fn save_dto(name: &str, value: &str) -> SaveSecretDto {
    SaveSecretDto {
        secret_name: name.to_string(),
        secret_value: value.to_string(),
    }
}

fn default_query() -> RequestQueryDto {
    RequestQueryDto { page: None, limit: None }
}

#[test]
fn save_batch_then_list_shows_both_at_version_one() {
    let user = tenant(EncryptionMethod::AES256);
    let mut store = SecretStore::new();
    let body = vec![save_dto("n1", "v1"), save_dto("n2", "v2")];
    save_secrets(&mut store, &user, &body, 1).expect("save");

    let query = RequestQueryDto { page: Some(1), limit: Some(10) };
    let dto = get_secrets(&store, &user, &query).expect("list");
    assert_eq!(dto.total_count, 2);
    assert_eq!(dto.secret.len(), 2);
    assert!(dto.secret.iter().all(|s| s.version == 1));
    assert_eq!(dto.secret[0].secret_name, "n2");
    assert_eq!(dto.secret[0].secret_value, "v2");
    assert_eq!(dto.secret[1].secret_name, "n1");
    assert_eq!(dto.secret[1].secret_value, "v1");
}

#[test]
fn listing_three_second_page_of_one() {
    let user = tenant(EncryptionMethod::Chacha20);
    let mut store = SecretStore::new();
    save_secrets(&mut store, &user, &vec![save_dto("first", "1")], 1).expect("save");
    save_secrets(&mut store, &user, &vec![save_dto("second", "2")], 2).expect("save");
    save_secrets(&mut store, &user, &vec![save_dto("third", "3")], 3).expect("save");

    let query = RequestQueryDto { page: Some(2), limit: Some(1) };
    let dto = get_secrets(&store, &user, &query).expect("list");
    assert_eq!(dto.total_count, 3);
    assert_eq!(dto.secret.len(), 1);
    assert_eq!(dto.secret[0].secret_name, "second");
    assert_eq!(dto.secret[0].secret_value, "2");
}

#[test]
fn edit_bumps_version_and_keeps_pre_edit_state_in_history() {
    let user = tenant(EncryptionMethod::Blowfish);
    let mut store = SecretStore::new();
    save_secrets(&mut store, &user, &vec![save_dto("name", "old-value")], 1).expect("save");
    let listed = get_secrets(&store, &user, &default_query()).expect("list");
    let id: u128 = listed.secret[0].id.parse().expect("id");

    let edit = EditSecretDto {
        secret_name: "new".to_string(),
        secret_value: "new-value".to_string(),
        id,
    };
    edit_secrets(&mut store, &user, &edit, 2).expect("edit");

    let listed = get_secrets(&store, &user, &default_query()).expect("list");
    assert_eq!(listed.total_count, 1);
    assert_eq!(listed.secret[0].secret_name, "new");
    assert_eq!(listed.secret[0].secret_value, "new-value");
    assert_eq!(listed.secret[0].version, 2);

    let vq = RequestQuerySecretVersionDto { page: None, limit: None, id };
    let hist = get_secret_version(&store, &user, &vq).expect("history");
    assert_eq!(hist.total_count, 1);
    assert_eq!(hist.secret.len(), 1);
    assert_eq!(hist.secret[0].secret_name, "name");
    assert_eq!(hist.secret[0].secret_value, "old-value");
    assert_eq!(hist.secret[0].version, 1);
}

#[test]
fn unconfigured_tenant_cannot_operate() {
    let mut user = tenant(EncryptionMethod::AES256);
    user.encryption_method = None;
    user.keys = None;
    let mut store = SecretStore::new();
    let r = save_secrets(&mut store, &user, &vec![save_dto("n", "v")], 1);
    assert_eq!(r.unwrap_err(), SecretError::ConfigurationMissing);

    let mut user = tenant(EncryptionMethod::AES256);
    user.db_connection = None;
    let r = get_secrets(&store, &user, &default_query());
    assert_eq!(r.unwrap_err(), SecretError::ConfigurationMissing);
}

#[test]
fn out_of_range_query_is_rejected() {
    let user = tenant(EncryptionMethod::AES256);
    let store = SecretStore::new();
    for (page, limit) in [(Some(0), None), (None, Some(0)), (None, Some(51))] {
        let r = get_secrets(&store, &user, &RequestQueryDto { page, limit });
        assert_eq!(r.unwrap_err(), SecretError::ValidationFailure);
    }
}

#[test]
fn empty_fields_are_rejected() {
    let user = tenant(EncryptionMethod::AES256);
    let mut store = SecretStore::new();
    let r = save_secrets(&mut store, &user, &vec![save_dto("", "v")], 1);
    assert_eq!(r.unwrap_err(), SecretError::ValidationFailure);
    let r = save_secrets(&mut store, &user, &vec![save_dto("n", "")], 1);
    assert_eq!(r.unwrap_err(), SecretError::ValidationFailure);
    let (total, _) = store.list(1, 10);
    assert_eq!(total, 0, "a failed batch must insert nothing");
}

#[test]
fn batch_with_one_bad_item_inserts_nothing() {
    let user = tenant(EncryptionMethod::AES256);
    let mut store = SecretStore::new();
    let body = vec![save_dto("good", "value"), save_dto("", "bad")];
    let r = save_secrets(&mut store, &user, &body, 1);
    assert_eq!(r.unwrap_err(), SecretError::ValidationFailure);
    let (total, _) = store.list(1, 10);
    assert_eq!(total, 0);
}

#[test]
fn edit_unknown_secret_is_not_found() {
    let user = tenant(EncryptionMethod::AES256);
    let mut store = SecretStore::new();
    let edit = EditSecretDto {
        secret_name: "n".to_string(),
        secret_value: "v".to_string(),
        id: 9999,
    };
    assert_eq!(edit_secrets(&mut store, &user, &edit, 1).unwrap_err(), SecretError::NotFound);
}

#[test]
fn service_key_path_returns_decrypted_value() {
    let user = tenant(EncryptionMethod::DESTriphleDES);
    let mut store = SecretStore::new();
    save_secrets(&mut store, &user, &vec![save_dto("token", "super-value")], 1).expect("save");
    let listed = get_secrets(&store, &user, &default_query()).expect("list");
    let id: u128 = listed.secret[0].id.parse().expect("id");

    let q = RequestQuerySecretByKeyDto { key: "api-key-1".to_string(), secret: id };
    let resp = get_secret_by_key(&store, &user, &q).expect("read");
    assert_eq!(resp.value, "super-value");

    let wrong = RequestQuerySecretByKeyDto { key: "other-key".to_string(), secret: id };
    assert_eq!(get_secret_by_key(&store, &user, &wrong).unwrap_err(), SecretError::NotFound);
}

#[test]
fn reconfiguring_the_cipher_orphans_old_ciphertext() {
    let mut user = tenant(EncryptionMethod::AES256);
    let mut store = SecretStore::new();
    save_secrets(&mut store, &user, &vec![save_dto("n", "v")], 1).expect("save");

    // Overwriting the configuration draws a fresh key; old rows can no
    // longer be decrypted (or decrypt to something else).
    configure_encryption(&mut user, EncryptionMethod::AES256);
    let r = get_secrets(&store, &user, &default_query());
    match r {
        Err(e) => assert_eq!(e, SecretError::DecryptionFailure),
        Ok(dto) => assert_ne!(dto.secret[0].secret_value, "v"),
    }
}

#[test]
fn configure_encryption_sets_method_and_key_together() {
    let mut user = tenant(EncryptionMethod::AES256);
    user.encryption_method = None;
    user.keys = None;
    assert_eq!(get_cipher_config(&user).unwrap_err(), SecretError::ConfigurationMissing);
    let key = configure_encryption(&mut user, EncryptionMethod::DESTriphleDES);
    assert_eq!(key.len(), 24);
    let (method, stored) = get_cipher_config(&user).expect("config");
    assert_eq!(method, EncryptionMethod::DESTriphleDES);
    assert_eq!(stored, key);
}

#[test]
fn unicode_values_survive_the_round_trip() {
    let user = tenant(EncryptionMethod::Chacha20);
    let mut store = SecretStore::new();
    save_secrets(&mut store, &user, &vec![save_dto("greeting", "héllo wörld ☃")], 1)
        .expect("save");
    let dto = get_secrets(&store, &user, &default_query()).expect("list");
    assert_eq!(dto.secret[0].secret_value, "héllo wörld ☃");
}
