//! Playback: the queue, the volume, the player and the sink.

pub mod queue;
pub mod volume;
pub mod sink;
pub mod request;
pub mod player;
pub mod mpris;
