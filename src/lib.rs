//! Confidential token balances settled through an external multi-party
//! computation cluster.
//!
//! The ledger only ever sees ciphertexts, nonces and public keys. Requests
//! for the cluster are assembled by [`instructions`], the cluster's opaque
//! byte results are decoded by [`codec`], and [`instructions`] also applies
//! the decoded results to the balance records. [`circuits`] states, on
//! plaintext values, what the cluster computes.

pub mod account;
pub mod circuits;
pub mod codec;
pub mod error;
pub mod instructions;
pub mod request;
