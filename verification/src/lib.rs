//! Listener planning and torrent-search response handling for a BitTorrent
//! client's networking and HTTP API layers.

pub mod error;
pub mod json;
pub mod listen;
pub mod magnet;
pub mod search;
