//! The song database: tags, filters, file helpers and the table of songs.

pub mod tag;
pub mod filter;
pub mod fs_utils;
pub mod song_metadata;
pub mod request;
pub mod table;
pub mod decoder;
