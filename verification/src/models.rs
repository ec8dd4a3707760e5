//! Control-plane and data-plane records.
//!
//! Identifiers are modelled as 128-bit integers and timestamps as signed
//! 64-bit instants, so that every field a rule reads is a plain value.

use vstd::prelude::*;

verus! {

/// The cipher families a tenant can choose between.
#[derive(Debug, Clone, Copy, PartialEq, Eq, Structural)]
pub enum EncryptionMethod {
    AES256,
    Chacha20,
    Blowfish,
    DESTriphleDES,
}

/// The descriptor of a tenant-owned database.
#[derive(Debug, Clone)]
pub struct DbConnection {
    pub host: String,
    pub username: String,
    pub password: String,
    pub database: String,
    pub port: i32,
}

/// A tenant record in the control-plane store.
#[derive(Debug, Clone)]
pub struct User {
    pub id: u128,
    pub name: String,
    pub email: String,
    pub password: String,
    pub encryption_method: Option<EncryptionMethod>,
    pub keys: Option<Vec<u8>>,
    pub api_keys: Option<String>,
    pub db_connection: Option<DbConnection>,
    pub created_at: Option<i64>,
    pub updated_at: Option<i64>,
}

/// The tenant invariant: cipher method and key material are set together,
/// never independently.
pub open spec fn cipher_config_consistent(u: User) -> bool {
    u.encryption_method is Some <==> u.keys is Some
}

/// The mathematical shape of a live secret row.
pub struct SecretModel {
    pub id: u128,
    pub name: Seq<char>,
    pub value: Seq<u8>,
    pub version: int,
    pub created_at: int,
    pub updated_at: int,
}

/// A live secret row in a tenant's own database: the value is ciphertext.
#[derive(Debug, Clone)]
pub struct Secret {
    pub id: u128,
    pub secret_name: String,
    pub encrypted_secret_value: Vec<u8>,
    pub version: i32,
    pub created_at: i64,
    pub updated_at: i64,
}

impl View for Secret {
    type V = SecretModel;

    open spec fn view(&self) -> SecretModel {
        SecretModel {
            id: self.id,
            name: self.secret_name@,
            value: self.encrypted_secret_value@,
            version: self.version as int,
            created_at: self.created_at as int,
            updated_at: self.updated_at as int,
        }
    }
}

impl DeepView for Secret {
    type V = SecretModel;

    open spec fn deep_view(&self) -> SecretModel {
        self.view()
    }
}

impl Secret {
    /// An owned copy of the row, equal to it in the model.
    pub fn snapshot(&self) -> (r: Secret)
        ensures
            r@ == self@,
    {
        Secret {
            id: self.id,
            secret_name: self.secret_name.clone(),
            encrypted_secret_value: vstd::slice::slice_to_vec(
                self.encrypted_secret_value.as_slice(),
            ),
            version: self.version,
            created_at: self.created_at,
            updated_at: self.updated_at,
        }
    }
}

/// The mathematical shape of a history row.
pub struct SecretVersionModel {
    pub id: u128,
    pub secret_id: u128,
    pub name: Seq<char>,
    pub value: Seq<u8>,
    pub version: int,
    pub created_at: int,
    pub updated_at: int,
}

/// An immutable snapshot of a secret's state immediately before an edit.
#[derive(Debug, Clone)]
pub struct SecretVersion {
    pub id: u128,
    pub secret_id: u128,
    pub secret_name: String,
    pub encrypted_secret_value: Vec<u8>,
    pub version: i32,
    pub created_at: i64,
    pub updated_at: i64,
}

impl View for SecretVersion {
    type V = SecretVersionModel;

    open spec fn view(&self) -> SecretVersionModel {
        SecretVersionModel {
            id: self.id,
            secret_id: self.secret_id,
            name: self.secret_name@,
            value: self.encrypted_secret_value@,
            version: self.version as int,
            created_at: self.created_at as int,
            updated_at: self.updated_at as int,
        }
    }
}

impl DeepView for SecretVersion {
    type V = SecretVersionModel;

    open spec fn deep_view(&self) -> SecretVersionModel {
        self.view()
    }
}

impl SecretVersion {
    /// An owned copy of the row, equal to it in the model.
    pub fn snapshot(&self) -> (r: SecretVersion)
        ensures
            r@ == self@,
    {
        SecretVersion {
            id: self.id,
            secret_id: self.secret_id,
            secret_name: self.secret_name.clone(),
            encrypted_secret_value: vstd::slice::slice_to_vec(
                self.encrypted_secret_value.as_slice(),
            ),
            version: self.version,
            created_at: self.created_at,
            updated_at: self.updated_at,
        }
    }
}

} // verus!
