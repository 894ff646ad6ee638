//! The proxy instance: plays audio locally and forwards database requests to a
//! remote instance.

pub mod config;
