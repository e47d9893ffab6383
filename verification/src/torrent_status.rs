//! The public torrent state and the torrent status snapshot.

use vstd::prelude::*;

verus! {

/// The overall states a torrent can be in, with their stable numeric codes
/// given by `code`.
#[allow(non_camel_case_types)]
#[derive(Clone, Copy, Debug, PartialEq, Eq, Structural)]
pub enum State {
    /// Kept so the numeric codes of the other states stay stable.
    unused_enum_for_backwards_compatibility,
    /// Checking existing files before the download starts.
    checking_files,
    /// Downloading metadata from peers (added from a magnet link).
    downloading_metadata,
    /// Downloading payload; the state most torrents are in most of the time.
    downloading,
    /// All wanted pieces are done but some pieces are filtered out, so the
    /// torrent is not a full seed.
    finished,
    /// All pieces are done: a pure seeder.
    seeding,
    /// Kept so the numeric codes of the other states stay stable.
    unused_enum_for_backwards_compatibility_allocating,
    /// Checking fast-resume data against the files on disk.
    checking_resume_data,
}

impl State {
    /// The stable numeric code of this state.
    pub open spec fn code_spec(self) -> u8 {
        match self {
            State::unused_enum_for_backwards_compatibility => 0,
            State::checking_files => 1,
            State::downloading_metadata => 2,
            State::downloading => 3,
            State::finished => 4,
            State::seeding => 5,
            State::unused_enum_for_backwards_compatibility_allocating => 6,
            State::checking_resume_data => 7,
        }
    }

    /// Returns the stable numeric code of this state.
    pub fn code(self) -> (r: u8)
        ensures
            r == self.code_spec(),
    {
        match self {
            State::unused_enum_for_backwards_compatibility => 0,
            State::checking_files => 1,
            State::downloading_metadata => 2,
            State::downloading => 3,
            State::finished => 4,
            State::seeding => 5,
            State::unused_enum_for_backwards_compatibility_allocating => 6,
            State::checking_resume_data => 7,
        }
    }

    /// A data-transferring state: peers are being connected, to download or
    /// to seed. Downloading metadata counts; the checking states do not.
    pub open spec fn downloading_class_spec(self) -> bool {
        match self {
            State::downloading_metadata => true,
            State::downloading => true,
            State::finished => true,
            State::seeding => true,
            _ => false,
        }
    }

    /// True in a data-transferring state.
    pub fn downloading_class(self) -> (r: bool)
        ensures
            r == self.downloading_class_spec(),
    {
        match self {
            State::downloading_metadata => true,
            State::downloading => true,
            State::finished => true,
            State::seeding => true,
            _ => false,
        }
    }
}

/// The special value of `error_file` when an error is not attributed to a
/// file of the torrent.
pub const ERROR_FILE_NONE: i8 = -1;

/// A snapshot of the status of one torrent. Progress is reported in parts
/// per million (`progress_ppm`), the integer alternative to a floating-point
/// fraction.
#[derive(Debug)]
pub struct TorrentStatus {
    /// The error that paused the torrent, or empty when there is none.
    pub errc: String,
    /// The file the error is attributed to, or `ERROR_FILE_NONE`.
    pub error_file: i8,
    /// Where this torrent's files are stored.
    pub save_path: String,
    /// The display name of the torrent.
    pub name: String,
    /// The time of the next tracker announce.
    pub next_announce: i64,
    /// The URL of the last working tracker, or empty.
    pub current_tracker: String,
    /// Bytes transferred this session, protocol overhead included.
    pub total_download: i64,
    pub total_upload: i64,
    /// Payload bytes transferred this session.
    pub total_payload_download: i64,
    pub total_payload_upload: i64,
    /// Bytes that failed the piece hash test since the last start.
    pub total_failed_bytes: i64,
    /// Bytes downloaded more than once since the last start.
    pub total_redundant_bytes: i64,
    /// One flag per piece: which pieces we have.
    pub pieces: Vec<bool>,
    /// In seed mode, which pieces have had their hash checked.
    pub verified_pieces: Vec<bool>,
    /// The total number of bytes of the files we have.
    pub total_done: i64,
    /// The total number of bytes to download, pad files excluded.
    pub total: i64,
    /// Bytes done counting only wanted pieces.
    pub total_wanted_done: i64,
    /// Bytes wanted in total.
    pub total_wanted: i64,
    /// Payload byte counters kept across sessions.
    pub all_time_upload: i64,
    pub all_time_download: i64,
    /// When this torrent was added, as posix time.
    pub added_time: i64,
    /// When this torrent finished, or 0.
    pub completed_time: i64,
    /// When we, or a peer of ours, last saw a complete copy.
    pub last_seen_complete: i64,
    /// The storage allocation mode.
    pub storage_mode: u8,
    /// Progress of the current task in parts per million.
    pub progress_ppm: i32,
    /// Position in the download queue, or -1 for seeds.
    pub queue_position: i32,
    /// Total transfer rates, in bytes per second.
    pub download_rate: i32,
    pub upload_rate: i32,
    pub download_payload_rate: i32,
    pub upload_payload_rate: i32,
    /// Connected peers that are seeds.
    pub num_seeds: i32,
    /// Connected peers, half-open connections excluded.
    pub num_peers: i32,
    /// Scrape numbers from the tracker, or -1 when it sent none.
    pub num_complete: i32,
    pub num_incomplete: i32,
    /// Seeds and peers in the peer list, connected or not.
    pub list_seeds: i32,
    pub list_peers: i32,
    /// Peers in the list that are candidates to connect to.
    pub connect_candidates: i32,
    /// The number of pieces we have.
    pub num_pieces: i32,
    /// Distributed copies among connected peers: whole copies, and the share
    /// of pieces rarer than the rest in thousandths.
    pub distributed_full_copies: i32,
    pub distributed_fraction: i32,
    /// The size of a block, in bytes.
    pub block_size: i32,
    /// Unchoked peers of this torrent.
    pub num_uploads: i32,
    /// All peer connections, half-open included.
    pub num_connections: i32,
    /// The limits set on this torrent.
    pub uploads_limit: i32,
    pub connections_limit: i32,
    /// Peers waiting for bandwidth quota, per direction.
    pub up_bandwidth_queue: i32,
    pub down_bandwidth_queue: i32,
    /// How important it is to seed this torrent.
    pub seed_rank: i32,
    /// The main state, as the numeric code of `State`.
    pub state: u8,
    /// True when resume data is out of date.
    pub need_save_resume: bool,
    /// True when all pieces are downloaded.
    pub is_seeding: bool,
    /// True when all wanted pieces are downloaded.
    pub is_finished: bool,
    /// True when the torrent has its metadata.
    pub has_metadata: bool,
    /// True once an incoming connection was seen for this torrent.
    pub has_incoming: bool,
    /// True while the storage is being moved.
    pub moving_storage: bool,
    /// Whether this torrent may currently announce to each peer source.
    pub announcing_to_trackers: bool,
    pub announcing_to_lsd: bool,
    pub announcing_to_dht: bool,
    /// The torrent's info-hash, in hexadecimal.
    pub info_hash: String,
    /// When payload last moved, per direction.
    pub last_upload: i64,
    pub last_download: i64,
    /// Cumulative times spent active, finished, and seeding.
    pub active_duration: i64,
    pub finished_duration: i64,
    pub seeding_duration: i64,
    /// The torrent's flag word.
    pub flags: u64,
}

} // verus!
