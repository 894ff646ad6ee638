//! The single-binary server: one executable that runs as a local, proxy or
//! remote instance.

pub mod config;
