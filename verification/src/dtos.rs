//! Request and response shapes crossing the boundary of the core.

use vstd::prelude::*;
use vstd::string::StrSliceExecFns;
use vstd::string::StringExecFns;

use crate::models::EncryptionMethod;
use crate::models::User;

verus! {

/// The decimal digit character of a value between 0 and 9.
pub open spec fn decimal_digit(d: int) -> char
    recommends
        0 <= d <= 9,
{
    if d == 0 {
        '0'
    } else if d == 1 {
        '1'
    } else if d == 2 {
        '2'
    } else if d == 3 {
        '3'
    } else if d == 4 {
        '4'
    } else if d == 5 {
        '5'
    } else if d == 6 {
        '6'
    } else if d == 7 {
        '7'
    } else if d == 8 {
        '8'
    } else {
        '9'
    }
}

/// The decimal rendering of a non-negative value, most significant digit
/// first and without leading zeroes.
pub open spec fn spec_decimal(n: int) -> Seq<char>
    recommends
        n >= 0,
    decreases n,
{
    if n <= 9 {
        seq![decimal_digit(n)]
    } else {
        spec_decimal(n / 10).push(decimal_digit(n % 10))
    }
}

/// The one-character string of a decimal digit.
fn digit_str(d: u128) -> (s: &'static str)
    requires
        d <= 9,
    ensures
        s@ =~= seq![decimal_digit(d as int)],
{
    proof {
        reveal_strlit("0");
        reveal_strlit("1");
        reveal_strlit("2");
        reveal_strlit("3");
        reveal_strlit("4");
        reveal_strlit("5");
        reveal_strlit("6");
        reveal_strlit("7");
        reveal_strlit("8");
        reveal_strlit("9");
    }
    if d == 0 {
        "0"
    } else if d == 1 {
        "1"
    } else if d == 2 {
        "2"
    } else if d == 3 {
        "3"
    } else if d == 4 {
        "4"
    } else if d == 5 {
        "5"
    } else if d == 6 {
        "6"
    } else if d == 7 {
        "7"
    } else if d == 8 {
        "8"
    } else {
        "9"
    }
}

/// Renders an identifier in decimal.
pub fn u128_to_decimal(n: u128) -> (s: String)
    ensures
        s@ == spec_decimal(n as int),
    decreases n,
{
    if n <= 9 {
        String::from_str(digit_str(n))
    } else {
        let mut s = u128_to_decimal(n / 10);
        s.append(digit_str(n % 10));
        proof {
            assert(s@ =~= spec_decimal(n as int));
        }
        s
    }
}

/// A registration request.
#[derive(Debug, Clone)]
pub struct RegisterUserDto {
    pub name: String,
    pub email: String,
    pub password: String,
    pub password_confirm: String,
}

/// A login request.
#[derive(Debug, Clone)]
pub struct LoginUserDto {
    pub email: String,
    pub password: String,
}

/// The pagination parameters of a listing request.
#[derive(Debug, Clone)]
pub struct RequestQueryDto {
    pub page: Option<usize>,
    pub limit: Option<usize>,
}

/// The tenant fields safe to show back to the tenant.
#[derive(Debug)]
pub struct FilterUserDto {
    pub id: String,
    pub name: String,
    pub email: String,
    pub encryption_method: Option<EncryptionMethod>,
    pub api_keys: Option<String>,
    pub db_connection_exists: bool,
    pub created_at: i64,
    pub updated_at: i64,
}

impl FilterUserDto {
    /// Strips a tenant record of its credentials, key material and database
    /// descriptor, keeping only whether a descriptor exists.
    pub fn filter_user(user: &User) -> (r: FilterUserDto)
        requires
            user.created_at is Some,
            user.updated_at is Some,
        ensures
            r.id@ == spec_decimal(user.id as int),
            r.name@ == user.name@,
            r.email@ == user.email@,
            r.encryption_method == user.encryption_method,
            (r.api_keys matches Some(k) ==> user.api_keys matches Some(u) && k@ == u@),
            (r.api_keys is None <==> user.api_keys is None),
            r.db_connection_exists == (user.db_connection is Some),
            r.created_at == user.created_at.unwrap(),
            r.updated_at == user.updated_at.unwrap(),
    {
        let api_keys = match &user.api_keys {
            Some(k) => Some(k.clone()),
            None => None,
        };
        FilterUserDto {
            id: u128_to_decimal(user.id),
            name: user.name.clone(),
            email: user.email.clone(),
            encryption_method: user.encryption_method,
            api_keys: api_keys,
            db_connection_exists: match &user.db_connection {
                Some(_) => true,
                None => false,
            },
            created_at: match user.created_at {
                Some(t) => t,
                None => 0,
            },
            updated_at: match user.updated_at {
                Some(t) => t,
                None => 0,
            },
        }
    }
}

/// A tenant response wrapper.
#[derive(Debug)]
pub struct UserData {
    pub user: FilterUserDto,
}

/// The envelope of a tenant-profile response.
#[derive(Debug)]
pub struct UserResponseDto {
    pub status: String,
    pub data: UserData,
}

/// The envelope of a successful login.
#[derive(Debug)]
pub struct UserLoginResponseDto {
    pub status: String,
    pub user: FilterUserDto,
    pub token: String,
}

/// A status-and-message envelope.
#[derive(Debug)]
pub struct Response {
    pub status: &'static str,
    pub message: String,
}

/// A display-name update request.
#[derive(Debug, Clone)]
pub struct NameUpdateDto {
    pub name: String,
}

/// A password update request.
#[derive(Debug, Clone)]
pub struct UserPasswordUpdateDto {
    pub new_password: String,
    pub new_password_confirm: String,
    pub old_password: String,
}

/// A tenant database descriptor as submitted.
#[derive(Debug, Clone)]
pub struct DatabaseDto {
    pub host: String,
    pub username: String,
    pub password: String,
    pub database: String,
    pub port: i32,
}

/// A cipher-method selection request.
#[derive(Debug, Clone)]
pub struct EncryptionMethodDto {
    pub encryption_method: EncryptionMethod,
}

/// One secret to save: a name and a plaintext value.
#[derive(Debug, Clone)]
pub struct SaveSecretDto {
    pub secret_name: String,
    pub secret_value: String,
}

/// An edit request: the secret to edit and its new name and plaintext value.
#[derive(Debug, Clone)]
pub struct EditSecretDto {
    pub secret_name: String,
    pub secret_value: String,
    pub id: u128,
}

/// The pagination parameters of a history listing, scoped to one secret.
#[derive(Debug, Clone)]
pub struct RequestQuerySecretVersionDto {
    pub page: Option<usize>,
    pub limit: Option<usize>,
    pub id: u128,
}

/// A decrypted secret or history row ready to serialize.
#[derive(Debug, Clone)]
pub struct SecretResponse {
    pub id: u128,
    pub secret_name: String,
    pub secret_value: String,
    pub version: i32,
    pub created_at: i64,
    pub updated_at: i64,
}

/// The fields of a decrypted row that leave the system.
#[derive(Debug)]
pub struct FilterSecretDto {
    pub id: String,
    pub secret_name: String,
    pub secret_value: String,
    pub version: i32,
}

impl FilterSecretDto {
    /// Keeps the name, decrypted value and version of one row.
    pub fn filter_secret(secret: &SecretResponse) -> (r: FilterSecretDto)
        ensures
            r.id@ == spec_decimal(secret.id as int),
            r.secret_name@ == secret.secret_name@,
            r.secret_value@ == secret.secret_value@,
            r.version == secret.version,
    {
        FilterSecretDto {
            id: u128_to_decimal(secret.id),
            secret_name: secret.secret_name.clone(),
            secret_value: secret.secret_value.clone(),
            version: secret.version,
        }
    }

    /// Keeps the outgoing fields of every row, in order.
    pub fn filter_secrets(secrets: &[SecretResponse]) -> (r: Vec<FilterSecretDto>)
        ensures
            r@.len() == secrets@.len(),
            forall|i: int|
                0 <= i < secrets@.len() ==> {
                    &&& (#[trigger] r@[i]).id@ == spec_decimal(secrets@[i].id as int)
                    &&& r@[i].secret_name@ == secrets@[i].secret_name@
                    &&& r@[i].secret_value@ == secrets@[i].secret_value@
                    &&& r@[i].version == secrets@[i].version
                },
    {
        let mut out: Vec<FilterSecretDto> = Vec::new();
        let mut k: usize = 0;
        let n = secrets.len();
        while k < n
            invariant
                k <= n,
                n == secrets@.len(),
                out@.len() == k,
                forall|i: int|
                    0 <= i < k ==> {
                        &&& (#[trigger] out@[i]).id@ == spec_decimal(secrets@[i].id as int)
                        &&& out@[i].secret_name@ == secrets@[i].secret_name@
                        &&& out@[i].secret_value@ == secrets@[i].secret_value@
                        &&& out@[i].version == secrets@[i].version
                    },
            decreases n - k,
        {
            out.push(FilterSecretDto::filter_secret(&secrets[k]));
            k = k + 1;
        }
        out
    }
}

/// The envelope of a listing response: the page and the full count.
#[derive(Debug)]
pub struct SecretResponseDto {
    pub secret: Vec<FilterSecretDto>,
    pub total_count: i64,
}

/// A service-to-service read request, keyed by the tenant's API key.
#[derive(Debug, Clone)]
pub struct RequestQuerySecretByKeyDto {
    pub key: String,
    pub secret: u128,
}

/// The decrypted value a service-to-service read returns.
#[derive(Debug, Clone)]
pub struct RequestQuerySecretByKeyResponseDto {
    pub value: String,
}

} // verus!
