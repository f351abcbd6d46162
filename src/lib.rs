//! The lifecycle record of a single credential: its content fingerprint and
//! its status, kept in two storage slots and read or written through a small
//! set of operations.

pub mod credential;
pub mod laws;

pub use credential::{CredentialContract, CredentialError, CredentialState, CredentialStatus};
