//! A small employee directory: one record type, a table that owns the
//! records, the five operations a client may ask for, and the mapping from
//! each outcome to an HTTP status and payload.
//!
//! Everything here works on plain values. Reading a request off the wire,
//! decoding its body and writing the response back are left to the caller.

pub mod api;
pub mod errors;
pub mod forms;
pub mod http;
pub mod json;
pub mod models;
pub mod router;
pub mod store;
