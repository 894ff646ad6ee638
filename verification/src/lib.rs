//! Verified core of the foksal music server and its client library:
//! the playback queue, the player and sink state machines, tag handling,
//! configuration merging and the request/response model.

pub mod audio;
pub mod text;
pub mod common;
pub mod db;
pub mod proxy;
pub mod local;
pub mod remote;
pub mod standalone;
pub mod client;
pub mod ctl;
