//! Field-level validation of incoming requests.
//!
//! Lengths are counted in characters. A rejected request fails with
//! `ValidationFailure` and the contracts say exactly which fields pass.

use vstd::prelude::*;
use vstd::string::StrSliceExecFns;

use crate::dtos::DatabaseDto;
use crate::dtos::EditSecretDto;
use crate::dtos::LoginUserDto;
use crate::dtos::NameUpdateDto;
use crate::dtos::RegisterUserDto;
use crate::dtos::RequestQueryDto;
use crate::dtos::RequestQuerySecretVersionDto;
use crate::dtos::SaveSecretDto;
use crate::dtos::UserPasswordUpdateDto;
use crate::error::SecretError;
use crate::models::EncryptionMethod;

verus! {

/// Whether a string is a valid e-mail address.
pub uninterp spec fn email_ok(s: Seq<char>) -> bool;

/// Relies on `validator::validate_email`: whether the string is an e-mail
/// address by the HTML5 definition; the empty string never is.
#[verifier::external_body]
fn check_email(s: &str) -> (r: bool)
    ensures
        r == email_ok(s@),
        s@.len() == 0 ==> !r,
{
    validator::validate_email(s)
}

/// The fields a registration must satisfy: a name, a valid e-mail address,
/// a password of at least six characters, and a matching confirmation.
pub open spec fn register_valid(dto: RegisterUserDto) -> bool {
    &&& dto.name@.len() >= 1
    &&& dto.email@.len() >= 1
    &&& email_ok(dto.email@)
    &&& dto.password@.len() >= 6
    &&& dto.password_confirm@.len() >= 1
    &&& dto.password_confirm@ == dto.password@
}

/// Accepts a registration exactly when its fields are valid.
pub fn validate_register(dto: &RegisterUserDto) -> (r: Result<(), SecretError>)
    ensures
        match r {
            Ok(()) => register_valid(*dto),
            Err(e) => e == SecretError::ValidationFailure && !register_valid(*dto),
        },
{
    if dto.name.as_str().unicode_len() < 1 {
        return Err(SecretError::ValidationFailure);
    }
    if dto.email.as_str().unicode_len() < 1 || !check_email(dto.email.as_str()) {
        return Err(SecretError::ValidationFailure);
    }
    if dto.password.as_str().unicode_len() < 6 {
        return Err(SecretError::ValidationFailure);
    }
    if dto.password_confirm.as_str().unicode_len() < 1 || !(dto.password_confirm
        == dto.password) {
        return Err(SecretError::ValidationFailure);
    }
    Ok(())
}

/// The fields a login must satisfy.
pub open spec fn login_valid(dto: LoginUserDto) -> bool {
    &&& dto.email@.len() >= 1
    &&& email_ok(dto.email@)
    &&& dto.password@.len() >= 6
}

/// Accepts a login exactly when its fields are valid.
pub fn validate_login(dto: &LoginUserDto) -> (r: Result<(), SecretError>)
    ensures
        match r {
            Ok(()) => login_valid(*dto),
            Err(e) => e == SecretError::ValidationFailure && !login_valid(*dto),
        },
{
    if dto.email.as_str().unicode_len() < 1 || !check_email(dto.email.as_str()) {
        return Err(SecretError::ValidationFailure);
    }
    if dto.password.as_str().unicode_len() < 6 {
        return Err(SecretError::ValidationFailure);
    }
    Ok(())
}

/// The page and limit a query resolves to: a missing page means the first,
/// a missing limit means ten; a page under one or a limit outside 1 to 50
/// resolves to nothing.
pub open spec fn resolved_query(page: Option<usize>, limit: Option<usize>) -> Option<(int, int)> {
    let p: int = match page {
        None => 1,
        Some(pp) => pp as int,
    };
    let l: int = match limit {
        None => 10,
        Some(ll) => ll as int,
    };
    if p >= 1 && 1 <= l <= 50 {
        Some((p, l))
    } else {
        None
    }
}

/// Resolves the pagination parameters of a listing request, defaulting the
/// page to 1 and the limit to 10, and rejects an out-of-range value.
pub fn resolve_query(page: Option<usize>, limit: Option<usize>) -> (r: Result<
    (usize, usize),
    SecretError,
>)
    ensures
        match r {
            Ok(pl) => resolved_query(page, limit) == Some((pl.0 as int, pl.1 as int)),
            Err(e) => e == SecretError::ValidationFailure && resolved_query(page, limit) is None,
        },
{
    let p = match page {
        None => 1,
        Some(pp) => pp,
    };
    let l = match limit {
        None => 10,
        Some(ll) => ll,
    };
    if p >= 1 && 1 <= l && l <= 50 {
        Ok((p, l))
    } else {
        Err(SecretError::ValidationFailure)
    }
}

/// Resolves a secret listing request.
pub fn validate_query(dto: &RequestQueryDto) -> (r: Result<(usize, usize), SecretError>)
    ensures
        match r {
            Ok(pl) => resolved_query(dto.page, dto.limit) == Some((pl.0 as int, pl.1 as int)),
            Err(e) => e == SecretError::ValidationFailure && resolved_query(
                dto.page,
                dto.limit,
            ) is None,
        },
{
    resolve_query(dto.page, dto.limit)
}

/// Resolves a history listing request.
pub fn validate_query_version(dto: &RequestQuerySecretVersionDto) -> (r: Result<
    (usize, usize),
    SecretError,
>)
    ensures
        match r {
            Ok(pl) => resolved_query(dto.page, dto.limit) == Some((pl.0 as int, pl.1 as int)),
            Err(e) => e == SecretError::ValidationFailure && resolved_query(
                dto.page,
                dto.limit,
            ) is None,
        },
{
    resolve_query(dto.page, dto.limit)
}

/// The fields a database descriptor must satisfy.
pub open spec fn database_valid(dto: DatabaseDto) -> bool {
    &&& dto.host@.len() >= 1
    &&& dto.username@.len() >= 1
    &&& dto.password@.len() >= 1
    &&& dto.database@.len() >= 1
    &&& 1 <= dto.port <= 65535
}

/// Accepts a database descriptor exactly when its fields are valid.
pub fn validate_database(dto: &DatabaseDto) -> (r: Result<(), SecretError>)
    ensures
        match r {
            Ok(()) => database_valid(*dto),
            Err(e) => e == SecretError::ValidationFailure && !database_valid(*dto),
        },
{
    if dto.host.as_str().unicode_len() < 1 {
        return Err(SecretError::ValidationFailure);
    }
    if dto.username.as_str().unicode_len() < 1 {
        return Err(SecretError::ValidationFailure);
    }
    if dto.password.as_str().unicode_len() < 1 {
        return Err(SecretError::ValidationFailure);
    }
    if dto.database.as_str().unicode_len() < 1 {
        return Err(SecretError::ValidationFailure);
    }
    if dto.port < 1 || dto.port > 65535 {
        return Err(SecretError::ValidationFailure);
    }
    Ok(())
}

/// Every offered cipher method is a valid selection.
pub fn validate_encryption_method(encryption_method: &EncryptionMethod) -> (r: Result<
    (),
    SecretError,
>)
    ensures
        r is Ok,
{
    match encryption_method {
        EncryptionMethod::AES256
        | EncryptionMethod::Chacha20
        | EncryptionMethod::Blowfish
        | EncryptionMethod::DESTriphleDES => Ok(()),
    }
}

/// The fields a secret to save must satisfy: a name and a value.
pub open spec fn save_secret_valid(dto: SaveSecretDto) -> bool {
    dto.secret_name@.len() >= 1 && dto.secret_value@.len() >= 1
}

/// Accepts a secret to save exactly when its fields are valid.
pub fn validate_save_secret(dto: &SaveSecretDto) -> (r: Result<(), SecretError>)
    ensures
        match r {
            Ok(()) => save_secret_valid(*dto),
            Err(e) => e == SecretError::ValidationFailure && !save_secret_valid(*dto),
        },
{
    if dto.secret_name.as_str().unicode_len() < 1 {
        return Err(SecretError::ValidationFailure);
    }
    if dto.secret_value.as_str().unicode_len() < 1 {
        return Err(SecretError::ValidationFailure);
    }
    Ok(())
}

/// The fields an edit must satisfy: a name and a value.
pub open spec fn edit_secret_valid(dto: EditSecretDto) -> bool {
    dto.secret_name@.len() >= 1 && dto.secret_value@.len() >= 1
}

/// Accepts an edit exactly when its fields are valid.
pub fn validate_edit_secret(dto: &EditSecretDto) -> (r: Result<(), SecretError>)
    ensures
        match r {
            Ok(()) => edit_secret_valid(*dto),
            Err(e) => e == SecretError::ValidationFailure && !edit_secret_valid(*dto),
        },
{
    if dto.secret_name.as_str().unicode_len() < 1 {
        return Err(SecretError::ValidationFailure);
    }
    if dto.secret_value.as_str().unicode_len() < 1 {
        return Err(SecretError::ValidationFailure);
    }
    Ok(())
}

/// The field a display-name update must satisfy.
pub open spec fn name_update_valid(dto: NameUpdateDto) -> bool {
    dto.name@.len() >= 1
}

/// Accepts a display-name update exactly when its field is valid.
pub fn validate_name_update(dto: &NameUpdateDto) -> (r: Result<(), SecretError>)
    ensures
        match r {
            Ok(()) => name_update_valid(*dto),
            Err(e) => e == SecretError::ValidationFailure && !name_update_valid(*dto),
        },
{
    if dto.name.as_str().unicode_len() < 1 {
        return Err(SecretError::ValidationFailure);
    }
    Ok(())
}

/// The fields a password update must satisfy: old and new passwords of at
/// least six characters and a confirmation matching the new one.
pub open spec fn password_update_valid(dto: UserPasswordUpdateDto) -> bool {
    &&& dto.new_password@.len() >= 6
    &&& dto.new_password_confirm@.len() >= 6
    &&& dto.new_password_confirm@ == dto.new_password@
    &&& dto.old_password@.len() >= 6
}

/// Accepts a password update exactly when its fields are valid.
pub fn validate_password_update(dto: &UserPasswordUpdateDto) -> (r: Result<(), SecretError>)
    ensures
        match r {
            Ok(()) => password_update_valid(*dto),
            Err(e) => e == SecretError::ValidationFailure && !password_update_valid(*dto),
        },
{
    if dto.new_password.as_str().unicode_len() < 6 {
        return Err(SecretError::ValidationFailure);
    }
    if dto.new_password_confirm.as_str().unicode_len() < 6 || !(dto.new_password_confirm
        == dto.new_password) {
        return Err(SecretError::ValidationFailure);
    }
    if dto.old_password.as_str().unicode_len() < 6 {
        return Err(SecretError::ValidationFailure);
    }
    Ok(())
}

} // verus!
