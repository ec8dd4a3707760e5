use secret_vault::dtos::{
    u128_to_decimal, DatabaseDto, FilterSecretDto, FilterUserDto, LoginUserDto, NameUpdateDto,
    RegisterUserDto, SaveSecretDto, SecretResponse, UserPasswordUpdateDto,
};
use secret_vault::error::SecretError;
use secret_vault::models::{EncryptionMethod, User};
use secret_vault::pagination::page_offset;
use secret_vault::validate::{
    resolve_query, validate_database, validate_encryption_method, validate_login,
    validate_name_update, validate_password_update, validate_register, validate_save_secret,
};

fn register_dto() -> RegisterUserDto {
    RegisterUserDto {
        name: "Alice".to_string(),
        email: "alice@example.com".to_string(),
        password: "password123".to_string(),
        password_confirm: "password123".to_string(),
    }
}

#[test]
fn valid_registration_passes() {
    assert_eq!(validate_register(&register_dto()), Ok(()));
}

#[test]
fn registration_rejects_bad_fields() {
    let mut dto = register_dto();
    dto.name = "".to_string();
    assert_eq!(validate_register(&dto), Err(SecretError::ValidationFailure));

    let mut dto = register_dto();
    dto.email = "not-an-email".to_string();
    assert_eq!(validate_register(&dto), Err(SecretError::ValidationFailure));

    let mut dto = register_dto();
    dto.password = "short".to_string();
    dto.password_confirm = "short".to_string();
    assert_eq!(validate_register(&dto), Err(SecretError::ValidationFailure));

    let mut dto = register_dto();
    dto.password_confirm = "SOMETHING-ELSE".to_string();
    assert_eq!(validate_register(&dto), Err(SecretError::ValidationFailure));
}

#[test]
fn login_validation() {
    let ok = LoginUserDto {
        email: "alice@example.com".to_string(),
        password: "longenough".to_string(),
    };
    assert_eq!(validate_login(&ok), Ok(()));
    let bad = LoginUserDto { email: "nope".to_string(), password: "longenough".to_string() };
    assert_eq!(validate_login(&bad), Err(SecretError::ValidationFailure));
}

#[test]
fn query_defaults_and_bounds() {
    assert_eq!(resolve_query(None, None), Ok((1, 10)));
    assert_eq!(resolve_query(Some(3), Some(50)), Ok((3, 50)));
    assert_eq!(resolve_query(Some(0), None), Err(SecretError::ValidationFailure));
    assert_eq!(resolve_query(None, Some(0)), Err(SecretError::ValidationFailure));
    assert_eq!(resolve_query(None, Some(51)), Err(SecretError::ValidationFailure));
}

#[test]
fn page_offset_values() {
    assert_eq!(page_offset(1, 10), Some(0));
    assert_eq!(page_offset(2, 1), Some(1));
    assert_eq!(page_offset(7, 50), Some(300));
    assert_eq!(page_offset(usize::MAX, 50), None);
}

#[test]
fn database_descriptor_validation() {
    let dto = DatabaseDto {
        host: "localhost".to_string(),
        username: "owner".to_string(),
        password: "password123".to_string(),
        database: "db".to_string(),
        port: 5432,
    };
    assert_eq!(validate_database(&dto), Ok(()));
    let mut bad = dto.clone();
    bad.port = 0;
    assert_eq!(validate_database(&bad), Err(SecretError::ValidationFailure));
    let mut bad = dto.clone();
    bad.host = "".to_string();
    assert_eq!(validate_database(&bad), Err(SecretError::ValidationFailure));
    let mut bad = dto;
    bad.port = 65536;
    assert_eq!(validate_database(&bad), Err(SecretError::ValidationFailure));
}

#[test]
fn every_method_is_a_valid_selection() {
    for m in [
        EncryptionMethod::AES256,
        EncryptionMethod::Chacha20,
        EncryptionMethod::Blowfish,
        EncryptionMethod::DESTriphleDES,
    ] {
        assert_eq!(validate_encryption_method(&m), Ok(()));
    }
}

#[test]
fn save_secret_validation() {
    let ok = SaveSecretDto { secret_name: "n".to_string(), secret_value: "v".to_string() };
    assert_eq!(validate_save_secret(&ok), Ok(()));
    let bad = SaveSecretDto { secret_name: "".to_string(), secret_value: "v".to_string() };
    assert_eq!(validate_save_secret(&bad), Err(SecretError::ValidationFailure));
}

#[test]
fn name_and_password_update_validation() {
    assert_eq!(validate_name_update(&NameUpdateDto { name: "n".to_string() }), Ok(()));
    assert_eq!(
        validate_name_update(&NameUpdateDto { name: "".to_string() }),
        Err(SecretError::ValidationFailure)
    );

    let ok = UserPasswordUpdateDto {
        new_password: "newpassword".to_string(),
        new_password_confirm: "newpassword".to_string(),
        old_password: "oldpassword".to_string(),
    };
    assert_eq!(validate_password_update(&ok), Ok(()));
    let mut bad = ok.clone();
    bad.new_password_confirm = "different".to_string();
    assert_eq!(validate_password_update(&bad), Err(SecretError::ValidationFailure));
    let mut bad = ok;
    bad.old_password = "short".to_string();
    assert_eq!(validate_password_update(&bad), Err(SecretError::ValidationFailure));
}

#[test]
fn decimal_rendering() {
    assert_eq!(u128_to_decimal(0), "0");
    assert_eq!(u128_to_decimal(7), "7");
    assert_eq!(u128_to_decimal(12345), "12345");
    assert_eq!(u128_to_decimal(u128::MAX), "340282366920938463463374607431768211455");
}

#[test]
fn filter_secret_keeps_outgoing_fields() {
    let resp = SecretResponse {
        id: 99,
        secret_name: "n".to_string(),
        secret_value: "v".to_string(),
        version: 4,
        created_at: 10,
        updated_at: 20,
    };
    let f = FilterSecretDto::filter_secret(&resp);
    assert_eq!(f.id, "99");
    assert_eq!(f.secret_name, "n");
    assert_eq!(f.secret_value, "v");
    assert_eq!(f.version, 4);
}

#[test]
fn filter_user_hides_sensitive_fields() {
    let user = User {
        id: 7,
        name: "Alice".to_string(),
        email: "alice@example.com".to_string(),
        password: "password123".to_string(),
        encryption_method: Some(EncryptionMethod::AES256),
        keys: Some(vec![1, 2, 3]),
        api_keys: Some("api".to_string()),
        db_connection: None,
        created_at: Some(5),
        updated_at: Some(6),
    };
    let f = FilterUserDto::filter_user(&user);
    assert_eq!(f.id, "7");
    assert_eq!(f.name, "Alice");
    assert_eq!(f.email, "alice@example.com");
    assert_eq!(f.encryption_method, Some(EncryptionMethod::AES256));
    assert!(!f.db_connection_exists);
    assert_eq!(f.created_at, 5);
    assert_eq!(f.updated_at, 6);
}

#[test]
fn error_messages_are_stable() {
    assert_eq!(SecretError::NotFound.message(), "no such secret");
    assert_eq!(
        SecretError::Conflict.message(),
        "the secret was edited concurrently"
    );
    assert_eq!(SecretError::DecryptionFailure.message(), "decryption failed");
    assert_eq!(SecretError::ValidationFailure.message(), "invalid input");
    assert_eq!(
        SecretError::ConfigurationMissing.message(),
        "cipher or database configuration is not set"
    );
    assert_eq!(
        SecretError::ConnectionFailure.message(),
        "could not connect to the tenant database"
    );
}
