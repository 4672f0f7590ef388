//! A metadata-introspection service for a remote analytical data store.
//!
//! The crate verifies the resilient query layer (identifier validation,
//! existence-checking query composition, retry with exponential backoff,
//! and normalization of backend failures into a closed error taxonomy)
//! together with the session dispatch logic of a line-delimited
//! request/response protocol.

pub mod codec;
pub mod errors;
pub mod ident;
pub mod info;
pub mod render;
pub mod retry;
pub mod service;
pub mod session;
