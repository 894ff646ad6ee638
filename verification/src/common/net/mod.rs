//! The request and response messages exchanged with clients and between
//! server parts.

pub mod request;
pub mod response;
pub mod session;
pub mod subscribers;
