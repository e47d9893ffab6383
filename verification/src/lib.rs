//! A verified BitTorrent session-engine core.
//!
//! The crate models the lifecycle of torrents, piece/block download state,
//! peer connections and their wire-protocol state machine, tracker announce
//! scheduling with backoff, and rolling performance counters.

pub mod announce_entry;
pub mod bitfield;
pub mod download_priority;
pub mod errors;
pub mod flags;
pub mod log;
pub mod magnet;
pub mod metrics;
pub mod peer;
pub mod peer_info;
pub mod picker;
pub mod piece_info;
pub mod piece_tracker;
pub mod session;
pub mod session_stats;
pub mod torrent;
pub mod torrent_info;
pub mod torrent_status;
