//! Types and helpers shared by the server parts and the client.

pub mod json;
pub mod net;
pub mod config;
pub mod audio;
pub mod utils;
pub mod encoding;
