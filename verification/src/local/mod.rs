//! The local instance: plays audio and serves the database on one machine.

pub mod config;
