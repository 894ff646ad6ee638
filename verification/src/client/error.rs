//! Errors reported by the client.

use vstd::prelude::*;

verus! {

/// Everything that can go wrong when talking to foksal. Errors of the
/// transport and of the decoders are kept as their text.
#[derive(Debug, PartialEq, Eq)]
pub enum FoksalError {
    WebSocket(String),
    AddrParse(String),
    Timeout(String),
    Serialization(String),
    Base64Decode(String),
    ServerError { reason: String },
    UnexpectedResponse { request: String },
    VersionMismatch { lib_version: String, instance_version: String },
    InvalidWelcome,
    InvalidTagKey(String),
    InvalidTagValue(String),
    Disconnected,
    Async { error: String, reason: String },
}

} // verus!
