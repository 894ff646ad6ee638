//! The client library: its data model, the messages it exchanges and the
//! decoding of responses.

pub mod error;
pub mod model;
pub mod protocol;
