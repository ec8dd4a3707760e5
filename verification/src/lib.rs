//! An encrypted, versioned, multi-tenant secret store.
//!
//! Each tenant configures a symmetric cipher method and owns a database of
//! secrets kept encrypted at rest, with a full edit history. The crate holds
//! the cipher suite, key generation, tenant configuration, pagination, the
//! versioned store protocol, and request validation; the transport and the
//! database driver live outside it.

pub mod cipher;
pub mod dtos;
pub mod error;
pub mod keygen;
pub mod keystore;
pub mod models;
pub mod pagination;
pub mod secrets;
pub mod store;
pub mod validate;
