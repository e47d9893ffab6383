//! The per-peer status snapshot.

use vstd::prelude::*;

use crate::bitfield::copy_bitmap;
use crate::bitfield::count_true;
use crate::bitfield::count_true_vec;
use crate::bitfield::lemma_count_true_bounds;
use crate::peer::PeerConnection;

verus! {

/// A snapshot of one peer connection. The peer's download progress is
/// reported in parts per million (`progress_ppm`), the integer alternative
/// to a floating-point fraction.
#[derive(Debug)]
pub struct PeerInfo {
    /// The software at the other end, as far as it is known.
    pub client: String,
    /// One flag per piece of the torrent: which pieces the peer has.
    pub pieces: Vec<bool>,
    /// Payload bytes moved to and from this peer.
    pub total_download: i64,
    pub total_upload: i64,
    /// Time since the last request to, and last transfer with, this peer.
    pub last_request: i64,
    pub last_active: i64,
    /// Estimated time until the request queue is drained.
    pub download_queue_time: i64,
    /// The peer-flags word of this connection.
    pub flags: u32,
    /// Where this peer was learned from (a bitmask of source flags).
    pub source: u8,
    /// Transfer rates to and from this peer, in bytes per second.
    pub up_speed: i32,
    pub down_speed: i32,
    pub payload_up_speed: i32,
    pub payload_down_speed: i32,
    /// The peer's id as used in the protocol.
    pub pid: String,
    /// Bytes requested from this peer and not yet received.
    pub queue_bytes: i32,
    /// Seconds until the front request times out, or -1.
    pub request_timeout: i32,
    /// Send buffer accounting.
    pub send_buffer_size: i32,
    pub used_send_buffer: i32,
    /// Receive buffer accounting.
    pub receive_buffer_size: i32,
    pub used_receive_buffer: i32,
    pub receive_buffer_watermark: i32,
    /// Pieces this peer took part in that failed the hash check.
    pub num_hashfails: i32,
    /// Requests sent to this peer without an answer yet.
    pub download_queue_length: i32,
    /// Requests in the queue that have timed out.
    pub timed_out_requests: i32,
    /// Requests for blocks also requested from another peer.
    pub busy_requests: i32,
    /// Request messages waiting in the send buffer.
    pub requests_in_buffer: i32,
    /// The request-queue length aimed for.
    pub target_dl_queue_length: i32,
    /// Piece requests from the peer not yet answered.
    pub upload_queue_length: i32,
    /// How many times this peer failed to connect or disconnected us.
    pub failcount: i32,
    /// What is currently being downloaded from this peer, or -1.
    pub downloading_piece_index: i32,
    pub downloading_block_index: i32,
    pub downloading_progress: i32,
    pub downloading_total: i32,
    /// The kind of connection.
    pub connection_type: u8,
    /// Bytes pending in the disk I/O thread for this peer.
    pub pending_disk_bytes: i32,
    pub pending_disk_read_bytes: i32,
    /// Bandwidth quota assigned to this peer.
    pub send_quota: i32,
    pub receive_quota: i32,
    /// Estimated round-trip time, in milliseconds.
    pub rtt: i32,
    /// How many pieces this peer has.
    pub num_pieces: i32,
    /// Highest rates seen on this connection.
    pub download_rate_peak: i32,
    pub upload_rate_peak: i32,
    /// The peer's download progress in parts per million.
    pub progress_ppm: i32,
    /// The remote address, as ip:port.
    pub ip: String,
    /// The local address the socket is bound to, as ip:port.
    pub local_endpoint: String,
    /// What blocks transfers in each direction (bandwidth-state flags).
    pub read_state: u8,
    pub write_state: u8,
    /// For i2p peers, the destination address.
    pub i2p_destination: String,
}

/// `x` clamped into the `i32` range from above.
pub open spec fn cap_to_i32(x: int) -> int {
    if x > i32::MAX {
        i32::MAX as int
    } else {
        x
    }
}

/// The snapshot `r` correctly describes the connection `p`: the fields the
/// engine tracks are copied out — the piece bitmap, flag word, source,
/// queue length, failure counts, the progress share of pieces the peer
/// holds, and the head of the request queue as the block currently being
/// downloaded. The documented sentinels hold: `request_timeout` is -1
/// exactly when no request is outstanding (otherwise it reports the
/// configured timeout, `request_timeout_cfg`), and `downloading_piece_index`
/// is -1 exactly when nothing is being downloaded from this peer. Transport
/// statistics the engine does not measure are zero or absent.
pub open spec fn peer_info_matches(
    r: PeerInfo,
    p: PeerConnection,
    block_size: u32,
    request_timeout_cfg: i32,
) -> bool {
    &&& r.pieces@ == p.pieces@
    &&& r.flags == p.flags_word_spec()
    &&& r.source == p.source
    &&& r.download_queue_length as int == cap_to_i32(p.queue@.len() as int)
    &&& r.target_dl_queue_length as int == cap_to_i32(p.target_queue_len as int)
    &&& r.failcount as int == cap_to_i32(p.fail_count as int)
    &&& r.num_hashfails as int == cap_to_i32(p.num_hashfails as int)
    &&& r.num_pieces as int == cap_to_i32(count_true(p.pieces@))
    &&& (p.pieces@.len() > 0 ==> r.progress_ppm as int == count_true(p.pieces@) * 1000000
        / p.pieces@.len() as int)
    &&& (p.pieces@.len() == 0 ==> r.progress_ppm == 0)
    &&& r.client@.len() == 0
    &&& r.total_download == 0
    &&& r.total_upload == 0
    &&& (p.queue@.len() == 0 ==> r.request_timeout == -1)
    &&& (p.queue@.len() > 0 ==> r.request_timeout == request_timeout_cfg)
    &&& (p.queue@.len() == 0 ==> r.downloading_piece_index == -1
        && r.downloading_block_index == -1 && r.downloading_total == 0)
    &&& (p.queue@.len() > 0 ==> r.downloading_piece_index as int == cap_to_i32(
        p.queue@[0].0 as int,
    ) && r.downloading_block_index as int == cap_to_i32(p.queue@[0].1 as int)
        && r.downloading_total as int == cap_to_i32(block_size as int))
    &&& r.downloading_progress == 0
}

/// A snapshot of one live peer connection; see `peer_info_matches` for what
/// it carries. `block_size` is the torrent's block size, reported as the
/// total of the block being downloaded; `request_timeout_cfg` is the
/// configured request timeout, reported while requests are outstanding.
pub fn peer_info_of(p: &PeerConnection, block_size: u32, request_timeout_cfg: i32) -> (r:
    PeerInfo)
    ensures
        peer_info_matches(r, *p, block_size, request_timeout_cfg),
{
    let have = count_true_vec(&p.pieces);
    proof {
        lemma_count_true_bounds(p.pieces@);
    }
    let total = p.pieces.len();
    let progress_ppm: i32 = if total > 0 {
        ((have as u128 * 1000000u128) / (total as u128)) as i32
    } else {
        0
    };
    proof {
        if p.pieces@.len() > 0 {
            assert(have as int * 1000000 / (total as int) <= 1000000) by (nonlinear_arith)
                requires
                    0 < total as int,
                    have as int <= total as int,
            ;
            assert(have as int * 1000000 / (total as int) >= 0) by (nonlinear_arith)
                requires
                    0 < total as int,
                    0 <= have as int,
            ;
        }
    }
    PeerInfo {
        client: String::new(),
        pieces: copy_bitmap(&p.pieces),
        total_download: 0,
        total_upload: 0,
        last_request: 0,
        last_active: 0,
        download_queue_time: 0,
        flags: p.flags_word(),
        source: p.source,
        up_speed: 0,
        down_speed: 0,
        payload_up_speed: 0,
        payload_down_speed: 0,
        pid: String::new(),
        queue_bytes: 0,
        request_timeout: if p.queue.len() == 0 {
            -1
        } else {
            request_timeout_cfg
        },
        send_buffer_size: 0,
        used_send_buffer: 0,
        receive_buffer_size: 0,
        used_receive_buffer: 0,
        receive_buffer_watermark: 0,
        num_hashfails: clamp_u32_i32(p.num_hashfails),
        download_queue_length: clamp_usize_i32(p.queue.len()),
        timed_out_requests: 0,
        busy_requests: 0,
        requests_in_buffer: 0,
        target_dl_queue_length: clamp_usize_i32(p.target_queue_len),
        upload_queue_length: 0,
        failcount: clamp_u32_i32(p.fail_count),
        downloading_piece_index: if p.queue.len() == 0 {
            -1
        } else {
            clamp_usize_i32(p.queue[0].0)
        },
        downloading_block_index: if p.queue.len() == 0 {
            -1
        } else {
            clamp_usize_i32(p.queue[0].1)
        },
        downloading_progress: 0,
        downloading_total: if p.queue.len() == 0 {
            0
        } else {
            clamp_u32_i32(block_size)
        },
        connection_type: 1,
        pending_disk_bytes: 0,
        pending_disk_read_bytes: 0,
        send_quota: 0,
        receive_quota: 0,
        rtt: 0,
        num_pieces: clamp_usize_i32(have),
        download_rate_peak: 0,
        upload_rate_peak: 0,
        progress_ppm,
        ip: String::new(),
        local_endpoint: String::new(),
        read_state: 1,
        write_state: 1,
        i2p_destination: String::new(),
    }
}

/// `x` clamped into the `i32` range from above.
fn clamp_usize_i32(x: usize) -> (r: i32)
    ensures
        r as int == cap_to_i32(x as int),
{
    if x > i32::MAX as usize {
        i32::MAX
    } else {
        x as i32
    }
}

/// `x` clamped into the `i32` range from above.
fn clamp_u32_i32(x: u32) -> (r: i32)
    ensures
        r as int == cap_to_i32(x as int),
{
    if x > i32::MAX as u32 {
        i32::MAX
    } else {
        x as i32
    }
}

} // verus!
