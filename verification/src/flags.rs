//! Flag words for torrents, peers and sessions.
//!
//! Each flag set is a fixed-width word of independent boolean capabilities;
//! the named constants below give each bit a name, and the functions state
//! exactly how a word changes when flags are set, cleared, or replaced
//! through a mask.

use vstd::prelude::*;

verus! {

// ---------------------------------------------------------------------------
// Torrent flags (64-bit word).
// ---------------------------------------------------------------------------

/// Assume all files are present and verified; left automatically on the first
/// hash failure. It can only be set when the torrent is added.
pub const SEED_MODE: u64 = 1u64 << 0;
/// Do not request payload; entered on storage errors.
pub const UPLOAD_MODE: u64 = 1u64 << 1;
/// Only upload, never let downloaded exceed uploaded.
pub const SHARE_MODE: u64 = 1u64 << 2;
/// Subject the torrent to the session's IP filter.
pub const APPLY_IP_FILTER: u64 = 1u64 << 3;
/// The torrent is paused: no tracker announces and no peer connections.
pub const PAUSED: u64 = 1u64 << 4;
/// The torrent is queued, started and stopped by the session's queuing logic.
pub const AUTO_MANAGED: u64 = 1u64 << 5;
/// Adding a torrent whose info-hash is already present is an error.
pub const DUPLICATE_IS_ERROR: u64 = 1u64 << 6;
/// Include the torrent in periodic state updates.
pub const UPDATE_SUBSCRIBE: u64 = 1u64 << 7;
/// Super-seeding (initial seeding) mode.
pub const SUPER_SEEDING: u64 = 1u64 << 8;
/// Pick pieces in ascending index order instead of rarest first.
pub const SEQUENTIAL_DOWNLOAD: u64 = 1u64 << 9;
/// Force-stop the torrent on the next edge into a downloading state.
pub const STOP_WHEN_READY: u64 = 1u64 << 10;
/// Trackers given at add time replace the ones from the torrent file.
pub const OVERRIDE_TRACKERS: u64 = 1u64 << 11;
/// Web seeds given at add time replace the ones from the torrent file.
pub const OVERRIDE_WEB_SEEDS: u64 = 1u64 << 12;
/// The torrent has unsaved changes to its resume data.
pub const NEED_SAVE_RESUME: u64 = 1u64 << 13;
/// Do not announce this torrent to the DHT.
pub const DISABLE_DHT: u64 = 1u64 << 19;
/// Do not announce this torrent by local service discovery.
pub const DISABLE_LSD: u64 = 1u64 << 20;
/// Do not exchange peers for this torrent.
pub const DISABLE_PEX: u64 = 1u64 << 21;
/// Trust resume data without re-hashing the files on disk.
pub const NO_VERIFY_FILES: u64 = 1u64 << 22;
/// Default every file not covered by an explicit priority to "do not download".
pub const DEFAULT_DONT_DOWNLOAD: u64 = 1u64 << 23;
/// Treat the torrent as an i2p torrent when mixing peer kinds.
pub const I2P_TORRENT: u64 = 1u64 << 24;

// ---------------------------------------------------------------------------
// Pause flags.
// ---------------------------------------------------------------------------

/// Graceful pause: let peers finish the blocks already requested from them
/// before disconnecting, so no downloaded bytes are wasted.
pub const GRACEFUL_PAUSE: u8 = 1u8 << 0;

// ---------------------------------------------------------------------------
// Session save-state categories.
// ---------------------------------------------------------------------------

/// Save or load the session settings.
pub const SAVE_SETTINGS: u32 = 1u32 << 0;
/// Save or load the DHT routing-table state.
pub const SAVE_DHT_STATE: u32 = 1u32 << 2;
/// Save or load extension state.
pub const SAVE_EXTENSION_STATE: u32 = 1u32 << 11;
/// Save or load the session's IP filter.
pub const SAVE_IP_FILTER: u32 = 1u32 << 12;

// ---------------------------------------------------------------------------
// Peer flags (32-bit word) and peer source flags (8-bit word).
// ---------------------------------------------------------------------------

/// We are interested in pieces from this peer.
pub const PEER_INTERESTING: u32 = 1u32 << 0;
/// We have choked this peer.
pub const PEER_CHOKED: u32 = 1u32 << 1;
/// The peer is interested in us.
pub const PEER_REMOTE_INTERESTED: u32 = 1u32 << 2;
/// The peer has choked us.
pub const PEER_REMOTE_CHOKED: u32 = 1u32 << 3;
/// The peer supports the extension protocol.
pub const PEER_SUPPORTS_EXTENSIONS: u32 = 1u32 << 4;
/// We initiated this connection.
pub const PEER_OUTGOING_CONNECTION: u32 = 1u32 << 5;
/// The connection is waiting for the protocol handshake.
pub const PEER_HANDSHAKE: u32 = 1u32 << 6;
/// The connection is half-open (still connecting).
pub const PEER_CONNECTING: u32 = 1u32 << 7;
/// The peer took part in a piece that failed its hash and is on parole:
/// only whole pieces are requested from it until it proves innocent.
pub const PEER_ON_PAROLE: u32 = 1u32 << 9;
/// The peer is a seed.
pub const PEER_SEED: u32 = 1u32 << 10;
/// The peer is optimistically unchoked.
pub const PEER_OPTIMISTIC_UNCHOKE: u32 = 1u32 << 11;
/// The peer failed to send a block within the request timeout.
pub const PEER_SNUBBED: u32 = 1u32 << 12;
/// The peer told us it will not download anything more.
pub const PEER_UPLOAD_ONLY: u32 = 1u32 << 13;
/// The peer could not be assigned as many blocks as wanted last pick.
pub const PEER_ENDGAME_MODE: u32 = 1u32 << 14;
/// The connection succeeded through NAT hole punching.
pub const PEER_HOLEPUNCHED: u32 = 1u32 << 15;
/// The connection runs over the i2p transport.
pub const PEER_I2P_SOCKET: u32 = 1u32 << 16;
/// The connection runs over uTP.
pub const PEER_UTP_SOCKET: u32 = 1u32 << 17;
/// The connection runs over SSL.
pub const PEER_SSL_SOCKET: u32 = 1u32 << 18;
/// The stream is obfuscated with RC4.
pub const PEER_RC4_ENCRYPTED: u32 = 1u32 << 19;
/// The handshake was obfuscated with a Diffie-Hellman exchange.
pub const PEER_PLAINTEXT_ENCRYPTED: u32 = 1u32 << 20;

/// The peer was learned from a tracker.
pub const SOURCE_TRACKER: u8 = 1u8 << 0;
/// The peer was learned from the DHT.
pub const SOURCE_DHT: u8 = 1u8 << 1;
/// The peer was learned through peer exchange.
pub const SOURCE_PEX: u8 = 1u8 << 2;
/// The peer was learned through local service discovery.
pub const SOURCE_LSD: u8 = 1u8 << 3;
/// The peer came from resume data.
pub const SOURCE_RESUME_DATA: u8 = 1u8 << 4;
/// The peer connected to us.
pub const SOURCE_INCOMING: u8 = 1u8 << 5;

// ---------------------------------------------------------------------------
// Tracker source flags (8-bit word).
// ---------------------------------------------------------------------------

/// The tracker was part of the torrent file.
pub const TRACKER_SOURCE_TORRENT: u8 = 1u8 << 0;
/// The tracker was added programmatically.
pub const TRACKER_SOURCE_CLIENT: u8 = 1u8 << 1;
/// The tracker was part of a magnet link.
pub const TRACKER_SOURCE_MAGNET_LINK: u8 = 1u8 << 2;
/// The tracker was received through tracker exchange.
pub const TRACKER_SOURCE_TEX: u8 = 1u8 << 3;

// ---------------------------------------------------------------------------
// Operations on a 64-bit flag word.
// ---------------------------------------------------------------------------

/// The word `w` with every bit of `flags` set and all other bits unchanged.
pub open spec fn with_flags_set(w: u64, flags: u64) -> u64 {
    w | flags
}

/// The word `w` with every bit of `flags` cleared and all other bits unchanged.
pub open spec fn with_flags_cleared(w: u64, flags: u64) -> u64 {
    w & !flags
}

/// The word `w` with the bits selected by `mask` replaced by the
/// corresponding bits of `flags`, and the bits outside `mask` unchanged.
pub open spec fn with_flags_masked(w: u64, flags: u64, mask: u64) -> u64 {
    (w & !mask) | (flags & mask)
}

/// Sets every bit of `flags` in `w`, leaving the other bits unchanged.
pub fn set_flags_word(w: u64, flags: u64) -> (r: u64)
    ensures
        r == with_flags_set(w, flags),
{
    w | flags
}

/// Clears every bit of `flags` in `w`, leaving the other bits unchanged.
pub fn unset_flags_word(w: u64, flags: u64) -> (r: u64)
    ensures
        r == with_flags_cleared(w, flags),
{
    w & !flags
}

/// Replaces the bits of `w` selected by `mask` with the corresponding bits of
/// `flags`; bits outside `mask` are untouched. This is the only safe way to
/// mutate a flag word shared between call sites that each own some of its bits.
pub fn set_flags_with_mask_word(w: u64, flags: u64, mask: u64) -> (r: u64)
    ensures
        r == with_flags_masked(w, flags, mask),
{
    (w & !mask) | (flags & mask)
}

/// Law: replacing through a mask touches exactly the masked bits.
/// With `flags = AUTO_MANAGED` and `mask = AUTO_MANAGED | PAUSED`, the result
/// has `AUTO_MANAGED` set, `PAUSED` cleared, and every bit outside the mask
/// exactly as it was in `w`.
pub proof fn lemma_masked_set_clears_paused_sets_auto_managed(w: u64)
    ensures
        ({
            let r = with_flags_masked(w, AUTO_MANAGED, AUTO_MANAGED | PAUSED);
            &&& r & AUTO_MANAGED == AUTO_MANAGED
            &&& r & PAUSED == 0
            &&& r & !(AUTO_MANAGED | PAUSED) == w & !(AUTO_MANAGED | PAUSED)
        }),
{
    assert(1u64 << 5 == 0x20u64) by (bit_vector);
    assert(1u64 << 4 == 0x10u64) by (bit_vector);
    let r = with_flags_masked(w, AUTO_MANAGED, AUTO_MANAGED | PAUSED);
    assert(r == (w & !(0x20u64 | 0x10u64)) | (0x20u64 & (0x20u64 | 0x10u64)));
    assert({
        let q = (w & !(0x20u64 | 0x10u64)) | (0x20u64 & (0x20u64 | 0x10u64));
        &&& q & 0x20u64 == 0x20u64
        &&& q & 0x10u64 == 0
        &&& q & !(0x20u64 | 0x10u64) == w & !(0x20u64 | 0x10u64)
    }) by (bit_vector);
}

} // verus!
