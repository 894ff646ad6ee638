//! The remote instance: serves the database and decoded audio to proxies.

pub mod config;
