//! A typed client library for a Horizon-style ledger-query HTTP API.
//!
//! Endpoint descriptors materialize into request descriptors (method, absolute
//! URL with encoded query parameters, body), and JSON response bodies
//! deserialize into validated, strongly-typed resources with explicit
//! per-field coercion rules.

pub mod account;
pub mod asset;
pub mod balance;
pub mod base64string;
pub mod endpoint;
pub mod error;
pub mod fields;
pub mod json;
pub mod num;
pub mod records;
pub mod signer;
pub mod text;
