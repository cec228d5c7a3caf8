//! A typed decoding core for a block-explorer account API.
//!
//! The explorer returns balances, transaction histories, token-transfer
//! events and mined-block listings as loosely typed JSON in which numbers
//! travel as decimal strings, byte arrays as `0x`-prefixed hex strings,
//! optional fields as empty strings, and genesis-block rows as sentinel
//! markers that break the normal schema. This crate holds the resilient
//! field-level codecs that reconcile those encodings into a strongly typed
//! domain model, the builder that composes paginated list-endpoint
//! parameters, and the interpreter that turns a raw `{status, message,
//! result}` envelope into a typed success or a classified error. The HTTP
//! transport itself stays outside this crate.

pub mod embedded;
pub mod envelope;
pub mod errors;
pub mod events;
pub mod genesis;
pub mod hex;
pub mod num;
pub mod params;
pub mod queries;
pub mod records;
pub mod types;
