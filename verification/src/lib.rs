//! A minimal greeting record keeper over a durable key-value store.
//!
//! Callers leave a greeting under their own identity; the store keeps at most
//! one greeting per identity and lists all of them in ascending byte-wise
//! order of the identity-derived keys. The durable mapping itself is an
//! in-memory store driven through `cw_storage_plus`, reached only through the
//! trusted wrappers in [`store`]; everything above those wrappers is verified.

pub mod contract;
pub mod error;
pub mod laws;
pub mod msg;
pub mod store;
