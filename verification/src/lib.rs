//! Identity and signing for a ledger agent whose private key lives in a
//! remote key-management service.
//!
//! The service signs; this library derives the caller's principal from the
//! public key and reshapes the DER signatures the service returns into the
//! fixed 64-byte `r || s` form that the ledger verifies. It performs no I/O:
//! the caller carries requests to the service and hands the answers back.

pub mod error;
pub mod codec;
pub mod der;
pub mod digest;
pub mod identity;
pub mod laws;
pub mod principal;
pub mod request;

pub use codec::der_to_raw;
pub use error::IdentityError;
pub use identity::KmsIdentity;
