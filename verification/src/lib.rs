//! Secure receipt distribution: canonical hashing of a receipt document,
//! sealing it into an envelope, the registry handshake and the fan-out
//! delivery to the receivers that the registry names.

pub mod config;
pub mod data_adapter;
pub mod document;
pub mod encryption;
pub mod error;
pub mod healthz;
pub mod json;
pub mod model;
pub mod protocol;
pub mod receipt;
pub mod webhook;
