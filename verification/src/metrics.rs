//! The key space of the session's performance counters.
//!
//! `Metrics` is the stable, densely indexed key of the counter array kept by
//! the counters aggregator. `index` gives each metric its slot in the array
//! of `NUM_METRICS` signed 64-bit values.

use vstd::prelude::*;

verus! {

/// Number of slots in the counters array; every `Metrics::index` is below it.
pub const NUM_METRICS: usize = 291;

/// Keys of the session's performance-counter array. Counters are monotonic
/// (only ever incremented); gauges are overwritten in place.
#[allow(non_camel_case_types)]
#[derive(Clone, Copy, Debug, PartialEq, Eq, Structural)]
pub enum Metrics {
    peer_error_peers,
    peer_disconnected_peers,
    peer_eof_peers,
    peer_connreset_peers,
    peer_connrefused_peers,
    peer_connaborted_peers,
    peer_notconnected_peers,
    peer_perm_peers,
    peer_buffer_peers,
    peer_unreachable_peers,
    peer_broken_pipe_peers,
    peer_addrinuse_peers,
    peer_no_access_peers,
    peer_invalid_arg_peers,
    peer_aborted_peers,
    peer_piece_requests,
    peer_max_piece_requests,
    peer_invalid_piece_requests,
    peer_choked_piece_requests,
    peer_cancelled_piece_requests,
    peer_piece_rejects,
    peer_error_incoming_peers,
    peer_error_outgoing_peers,
    peer_error_rc4_peers,
    peer_error_encrypted_peers,
    peer_error_tcp_peers,
    peer_error_utp_peers,
    peer_connect_timeouts,
    peer_uninteresting_peers,
    peer_timeout_peers,
    peer_no_memory_peers,
    peer_too_many_peers,
    peer_transport_timeout_peers,
    peer_num_banned_peers,
    peer_banned_for_hash_failure,
    peer_connection_attempts,
    peer_connection_attempt_loops,
    peer_boost_connection_attempts,
    peer_missed_connection_attempts,
    peer_no_peer_connection_attempts,
    peer_incoming_connections,
    peer_num_tcp_peers,
    peer_num_socks5_peers,
    peer_num_http_proxy_peers,
    peer_num_utp_peers,
    peer_num_i2p_peers,
    peer_num_ssl_peers,
    peer_num_ssl_socks5_peers,
    peer_num_ssl_http_proxy_peers,
    peer_num_ssl_utp_peers,
    peer_num_peers_half_open,
    peer_num_peers_connected,
    peer_num_peers_up_interested,
    peer_num_peers_down_interested,
    peer_num_peers_up_unchoked_all,
    peer_num_peers_up_unchoked_optimistic,
    peer_num_peers_up_unchoked,
    peer_num_peers_down_unchoked,
    peer_num_peers_up_requests,
    peer_num_peers_down_requests,
    peer_num_peers_end_game,
    peer_num_peers_up_disk,
    peer_num_peers_down_disk,
    net_on_read_counter,
    net_on_write_counter,
    net_on_tick_counter,
    net_on_lsd_counter,
    net_on_lsd_peer_counter,
    net_on_udp_counter,
    net_on_accept_counter,
    net_on_disk_queue_counter,
    net_on_disk_counter,
    net_sent_payload_bytes,
    net_sent_bytes,
    net_sent_ip_overhead_bytes,
    net_sent_tracker_bytes,
    net_recv_payload_bytes,
    net_recv_bytes,
    net_recv_ip_overhead_bytes,
    net_recv_tracker_bytes,
    net_limiter_up_queue,
    net_limiter_down_queue,
    net_limiter_up_bytes,
    net_limiter_down_bytes,
    net_recv_failed_bytes,
    net_recv_redundant_bytes,
    net_has_incoming_connections,
    ses_num_checking_torrents,
    ses_num_stopped_torrents,
    ses_num_upload_only_torrents,
    ses_num_downloading_torrents,
    ses_num_seeding_torrents,
    ses_num_queued_seeding_torrents,
    ses_num_queued_download_torrents,
    ses_num_error_torrents,
    ses_non_filter_torrents,
    ses_num_piece_passed,
    ses_num_piece_failed,
    ses_num_have_pieces,
    ses_num_total_pieces_added,
    ses_num_unchoke_slots,
    ses_num_outstanding_accept,
    ses_num_incoming_choke,
    ses_num_incoming_unchoke,
    ses_num_incoming_interested,
    ses_num_incoming_not_interested,
    ses_num_incoming_have,
    ses_num_incoming_bitfield,
    ses_num_incoming_request,
    ses_num_incoming_piece,
    ses_num_incoming_cancel,
    ses_num_incoming_dht_port,
    ses_num_incoming_suggest,
    ses_num_incoming_have_all,
    ses_num_incoming_have_none,
    ses_num_incoming_reject,
    ses_num_incoming_allowed_fast,
    ses_num_incoming_ext_handshake,
    ses_num_incoming_pex,
    ses_num_incoming_metadata,
    ses_num_incoming_extended,
    ses_num_outgoing_choke,
    ses_num_outgoing_unchoke,
    ses_num_outgoing_interested,
    ses_num_outgoing_not_interested,
    ses_num_outgoing_have,
    ses_num_outgoing_bitfield,
    ses_num_outgoing_request,
    ses_num_outgoing_piece,
    ses_num_outgoing_cancel,
    ses_num_outgoing_dht_port,
    ses_num_outgoing_suggest,
    ses_num_outgoing_have_all,
    ses_num_outgoing_have_none,
    ses_num_outgoing_reject,
    ses_num_outgoing_allowed_fast,
    ses_num_outgoing_ext_handshake,
    ses_num_outgoing_pex,
    ses_num_outgoing_metadata,
    ses_num_outgoing_extended,
    ses_num_outgoing_hash_request,
    ses_num_outgoing_hashes,
    ses_num_outgoing_hash_reject,
    ses_waste_piece_timed_out,
    ses_waste_piece_cancelled,
    ses_waste_piece_unknown,
    ses_waste_piece_seed,
    ses_waste_piece_end_game,
    ses_waste_piece_closing,
    picker_piece_picker_partial_loops,
    picker_piece_picker_suggest_loops,
    picker_piece_picker_sequential_loops,
    picker_piece_picker_reverse_rare_loops,
    picker_piece_picker_rare_loops,
    picker_piece_picker_rand_start_loops,
    picker_piece_picker_rand_loops,
    picker_piece_picker_busy_loops,
    picker_reject_piece_picks,
    picker_unchoke_piece_picks,
    picker_incoming_redundant_piece_picks,
    picker_incoming_piece_picks,
    picker_end_game_piece_picks,
    picker_snubbed_piece_picks,
    picker_interesting_piece_picks,
    picker_hash_fail_piece_picks,
    disk_request_latency,
    disk_disk_blocks_in_use,
    disk_queued_disk_jobs,
    disk_num_running_disk_jobs,
    disk_num_read_jobs,
    disk_num_write_jobs,
    disk_num_jobs,
    disk_blocked_disk_jobs,
    disk_num_writing_threads,
    disk_num_running_threads,
    disk_queued_write_bytes,
    disk_num_blocks_written,
    disk_num_blocks_read,
    disk_num_blocks_hashed,
    disk_num_write_ops,
    disk_num_read_ops,
    disk_num_read_back,
    disk_disk_read_time,
    disk_disk_write_time,
    disk_disk_hash_time,
    disk_disk_job_time,
    disk_num_fenced_read,
    disk_num_fenced_write,
    disk_num_fenced_hash,
    disk_num_fenced_move_storage,
    disk_num_fenced_release_files,
    disk_num_fenced_delete_files,
    disk_num_fenced_check_fastresume,
    disk_num_fenced_save_resume_data,
    disk_num_fenced_rename_file,
    disk_num_fenced_stop_torrent,
    disk_num_fenced_flush_piece,
    disk_num_fenced_flush_hashed,
    disk_num_fenced_flush_storage,
    disk_num_fenced_file_priority,
    disk_num_fenced_load_torrent,
    disk_num_fenced_clear_piece,
    disk_num_fenced_tick_storage,
    dht_dht_nodes,
    dht_dht_node_cache,
    dht_dht_torrents,
    dht_dht_peers,
    dht_dht_immutable_data,
    dht_dht_mutable_data,
    dht_dht_allocated_observers,
    dht_dht_messages_in,
    dht_dht_messages_out,
    dht_dht_messages_in_dropped,
    dht_dht_messages_out_dropped,
    dht_dht_bytes_in,
    dht_dht_bytes_out,
    dht_dht_ping_in,
    dht_dht_ping_out,
    dht_dht_find_node_in,
    dht_dht_find_node_out,
    dht_dht_get_peers_in,
    dht_dht_get_peers_out,
    dht_dht_announce_peer_in,
    dht_dht_announce_peer_out,
    dht_dht_get_in,
    dht_dht_get_out,
    dht_dht_put_in,
    dht_dht_put_out,
    dht_dht_sample_infohashes_in,
    dht_dht_sample_infohashes_out,
    dht_dht_invalid_announce,
    dht_dht_invalid_get_peers,
    dht_dht_invalid_find_node,
    dht_dht_invalid_put,
    dht_dht_invalid_get,
    dht_dht_invalid_sample_infohashes,
    utp_utp_packet_loss,
    utp_utp_timeout,
    utp_utp_packets_in,
    utp_utp_packets_out,
    utp_utp_fast_retransmit,
    utp_utp_packet_resend,
    utp_utp_samples_above_target,
    utp_utp_samples_below_target,
    utp_utp_payload_pkts_in,
    utp_utp_payload_pkts_out,
    utp_utp_invalid_pkts_in,
    utp_utp_redundant_pkts_in,
    utp_num_utp_idle,
    utp_num_utp_syn_sent,
    utp_num_utp_connected,
    utp_num_utp_fin_sent,
    utp_num_utp_close_wait,
    utp_num_utp_deleted,
    sock_bufs_socket_send_size3,
    sock_bufs_socket_send_size4,
    sock_bufs_socket_send_size5,
    sock_bufs_socket_send_size6,
    sock_bufs_socket_send_size7,
    sock_bufs_socket_send_size8,
    sock_bufs_socket_send_size9,
    sock_bufs_socket_send_size10,
    sock_bufs_socket_send_size11,
    sock_bufs_socket_send_size12,
    sock_bufs_socket_send_size13,
    sock_bufs_socket_send_size14,
    sock_bufs_socket_send_size15,
    sock_bufs_socket_send_size16,
    sock_bufs_socket_send_size17,
    sock_bufs_socket_send_size18,
    sock_bufs_socket_send_size19,
    sock_bufs_socket_send_size20,
    sock_bufs_socket_recv_size3,
    sock_bufs_socket_recv_size4,
    sock_bufs_socket_recv_size5,
    sock_bufs_socket_recv_size6,
    sock_bufs_socket_recv_size7,
    sock_bufs_socket_recv_size8,
    sock_bufs_socket_recv_size9,
    sock_bufs_socket_recv_size10,
    sock_bufs_socket_recv_size11,
    sock_bufs_socket_recv_size12,
    sock_bufs_socket_recv_size13,
    sock_bufs_socket_recv_size14,
    sock_bufs_socket_recv_size15,
    sock_bufs_socket_recv_size16,
    sock_bufs_socket_recv_size17,
    sock_bufs_socket_recv_size18,
    sock_bufs_socket_recv_size19,
    sock_bufs_socket_recv_size20,
    tracker_num_queued_tracker_announces,
}

impl Metrics {
    /// The slot of this metric in the counters array.
    pub open spec fn index_spec(self) -> usize {
        match self {
            Metrics::peer_error_peers => 0,
            Metrics::peer_disconnected_peers => 1,
            Metrics::peer_eof_peers => 2,
            Metrics::peer_connreset_peers => 3,
            Metrics::peer_connrefused_peers => 4,
            Metrics::peer_connaborted_peers => 5,
            Metrics::peer_notconnected_peers => 6,
            Metrics::peer_perm_peers => 7,
            Metrics::peer_buffer_peers => 8,
            Metrics::peer_unreachable_peers => 9,
            Metrics::peer_broken_pipe_peers => 10,
            Metrics::peer_addrinuse_peers => 11,
            Metrics::peer_no_access_peers => 12,
            Metrics::peer_invalid_arg_peers => 13,
            Metrics::peer_aborted_peers => 14,
            Metrics::peer_piece_requests => 15,
            Metrics::peer_max_piece_requests => 16,
            Metrics::peer_invalid_piece_requests => 17,
            Metrics::peer_choked_piece_requests => 18,
            Metrics::peer_cancelled_piece_requests => 19,
            Metrics::peer_piece_rejects => 20,
            Metrics::peer_error_incoming_peers => 21,
            Metrics::peer_error_outgoing_peers => 22,
            Metrics::peer_error_rc4_peers => 23,
            Metrics::peer_error_encrypted_peers => 24,
            Metrics::peer_error_tcp_peers => 25,
            Metrics::peer_error_utp_peers => 26,
            Metrics::peer_connect_timeouts => 43,
            Metrics::peer_uninteresting_peers => 44,
            Metrics::peer_timeout_peers => 45,
            Metrics::peer_no_memory_peers => 46,
            Metrics::peer_too_many_peers => 47,
            Metrics::peer_transport_timeout_peers => 48,
            Metrics::peer_num_banned_peers => 49,
            Metrics::peer_banned_for_hash_failure => 50,
            Metrics::peer_connection_attempts => 51,
            Metrics::peer_connection_attempt_loops => 52,
            Metrics::peer_boost_connection_attempts => 53,
            Metrics::peer_missed_connection_attempts => 54,
            Metrics::peer_no_peer_connection_attempts => 55,
            Metrics::peer_incoming_connections => 56,
            Metrics::peer_num_tcp_peers => 220,
            Metrics::peer_num_socks5_peers => 221,
            Metrics::peer_num_http_proxy_peers => 222,
            Metrics::peer_num_utp_peers => 223,
            Metrics::peer_num_i2p_peers => 224,
            Metrics::peer_num_ssl_peers => 225,
            Metrics::peer_num_ssl_socks5_peers => 226,
            Metrics::peer_num_ssl_http_proxy_peers => 227,
            Metrics::peer_num_ssl_utp_peers => 228,
            Metrics::peer_num_peers_half_open => 229,
            Metrics::peer_num_peers_connected => 230,
            Metrics::peer_num_peers_up_interested => 231,
            Metrics::peer_num_peers_down_interested => 232,
            Metrics::peer_num_peers_up_unchoked_all => 233,
            Metrics::peer_num_peers_up_unchoked_optimistic => 234,
            Metrics::peer_num_peers_up_unchoked => 235,
            Metrics::peer_num_peers_down_unchoked => 236,
            Metrics::peer_num_peers_up_requests => 237,
            Metrics::peer_num_peers_down_requests => 238,
            Metrics::peer_num_peers_end_game => 241,
            Metrics::peer_num_peers_up_disk => 239,
            Metrics::peer_num_peers_down_disk => 240,
            Metrics::net_on_read_counter => 57,
            Metrics::net_on_write_counter => 58,
            Metrics::net_on_tick_counter => 59,
            Metrics::net_on_lsd_counter => 60,
            Metrics::net_on_lsd_peer_counter => 61,
            Metrics::net_on_udp_counter => 62,
            Metrics::net_on_accept_counter => 63,
            Metrics::net_on_disk_queue_counter => 64,
            Metrics::net_on_disk_counter => 65,
            Metrics::net_sent_payload_bytes => 127,
            Metrics::net_sent_bytes => 128,
            Metrics::net_sent_ip_overhead_bytes => 129,
            Metrics::net_sent_tracker_bytes => 130,
            Metrics::net_recv_payload_bytes => 131,
            Metrics::net_recv_bytes => 132,
            Metrics::net_recv_ip_overhead_bytes => 133,
            Metrics::net_recv_tracker_bytes => 134,
            Metrics::net_limiter_up_queue => 279,
            Metrics::net_limiter_down_queue => 280,
            Metrics::net_limiter_up_bytes => 281,
            Metrics::net_limiter_down_bytes => 282,
            Metrics::net_recv_failed_bytes => 135,
            Metrics::net_recv_redundant_bytes => 136,
            Metrics::net_has_incoming_connections => 278,
            Metrics::ses_num_checking_torrents => 211,
            Metrics::ses_num_stopped_torrents => 212,
            Metrics::ses_num_upload_only_torrents => 213,
            Metrics::ses_num_downloading_torrents => 214,
            Metrics::ses_num_seeding_torrents => 215,
            Metrics::ses_num_queued_seeding_torrents => 216,
            Metrics::ses_num_queued_download_torrents => 217,
            Metrics::ses_num_error_torrents => 218,
            Metrics::ses_non_filter_torrents => 219,
            Metrics::ses_num_piece_passed => 107,
            Metrics::ses_num_piece_failed => 108,
            Metrics::ses_num_have_pieces => 109,
            Metrics::ses_num_total_pieces_added => 110,
            Metrics::ses_num_unchoke_slots => 253,
            Metrics::ses_num_outstanding_accept => 289,
            Metrics::ses_num_incoming_choke => 66,
            Metrics::ses_num_incoming_unchoke => 67,
            Metrics::ses_num_incoming_interested => 68,
            Metrics::ses_num_incoming_not_interested => 69,
            Metrics::ses_num_incoming_have => 70,
            Metrics::ses_num_incoming_bitfield => 71,
            Metrics::ses_num_incoming_request => 72,
            Metrics::ses_num_incoming_piece => 73,
            Metrics::ses_num_incoming_cancel => 74,
            Metrics::ses_num_incoming_dht_port => 75,
            Metrics::ses_num_incoming_suggest => 76,
            Metrics::ses_num_incoming_have_all => 77,
            Metrics::ses_num_incoming_have_none => 78,
            Metrics::ses_num_incoming_reject => 79,
            Metrics::ses_num_incoming_allowed_fast => 80,
            Metrics::ses_num_incoming_ext_handshake => 81,
            Metrics::ses_num_incoming_pex => 82,
            Metrics::ses_num_incoming_metadata => 83,
            Metrics::ses_num_incoming_extended => 84,
            Metrics::ses_num_outgoing_choke => 85,
            Metrics::ses_num_outgoing_unchoke => 86,
            Metrics::ses_num_outgoing_interested => 87,
            Metrics::ses_num_outgoing_not_interested => 88,
            Metrics::ses_num_outgoing_have => 89,
            Metrics::ses_num_outgoing_bitfield => 90,
            Metrics::ses_num_outgoing_request => 91,
            Metrics::ses_num_outgoing_piece => 92,
            Metrics::ses_num_outgoing_cancel => 93,
            Metrics::ses_num_outgoing_dht_port => 94,
            Metrics::ses_num_outgoing_suggest => 95,
            Metrics::ses_num_outgoing_have_all => 96,
            Metrics::ses_num_outgoing_have_none => 97,
            Metrics::ses_num_outgoing_reject => 98,
            Metrics::ses_num_outgoing_allowed_fast => 99,
            Metrics::ses_num_outgoing_ext_handshake => 100,
            Metrics::ses_num_outgoing_pex => 101,
            Metrics::ses_num_outgoing_metadata => 102,
            Metrics::ses_num_outgoing_extended => 103,
            Metrics::ses_num_outgoing_hash_request => 104,
            Metrics::ses_num_outgoing_hashes => 105,
            Metrics::ses_num_outgoing_hash_reject => 106,
            Metrics::ses_waste_piece_timed_out => 121,
            Metrics::ses_waste_piece_cancelled => 122,
            Metrics::ses_waste_piece_unknown => 123,
            Metrics::ses_waste_piece_seed => 124,
            Metrics::ses_waste_piece_end_game => 125,
            Metrics::ses_waste_piece_closing => 126,
            Metrics::picker_piece_picker_partial_loops => 35,
            Metrics::picker_piece_picker_suggest_loops => 36,
            Metrics::picker_piece_picker_sequential_loops => 37,
            Metrics::picker_piece_picker_reverse_rare_loops => 38,
            Metrics::picker_piece_picker_rare_loops => 39,
            Metrics::picker_piece_picker_rand_start_loops => 40,
            Metrics::picker_piece_picker_rand_loops => 41,
            Metrics::picker_piece_picker_busy_loops => 42,
            Metrics::picker_reject_piece_picks => 27,
            Metrics::picker_unchoke_piece_picks => 28,
            Metrics::picker_incoming_redundant_piece_picks => 29,
            Metrics::picker_incoming_piece_picks => 30,
            Metrics::picker_end_game_piece_picks => 31,
            Metrics::picker_snubbed_piece_picks => 32,
            Metrics::picker_interesting_piece_picks => 33,
            Metrics::picker_hash_fail_piece_picks => 34,
            Metrics::disk_request_latency => 242,
            Metrics::disk_disk_blocks_in_use => 243,
            Metrics::disk_queued_disk_jobs => 244,
            Metrics::disk_num_running_disk_jobs => 245,
            Metrics::disk_num_read_jobs => 246,
            Metrics::disk_num_write_jobs => 247,
            Metrics::disk_num_jobs => 248,
            Metrics::disk_blocked_disk_jobs => 251,
            Metrics::disk_num_writing_threads => 249,
            Metrics::disk_num_running_threads => 250,
            Metrics::disk_queued_write_bytes => 252,
            Metrics::disk_num_blocks_written => 111,
            Metrics::disk_num_blocks_read => 112,
            Metrics::disk_num_blocks_hashed => 113,
            Metrics::disk_num_write_ops => 114,
            Metrics::disk_num_read_ops => 115,
            Metrics::disk_num_read_back => 116,
            Metrics::disk_disk_read_time => 117,
            Metrics::disk_disk_write_time => 118,
            Metrics::disk_disk_hash_time => 119,
            Metrics::disk_disk_job_time => 120,
            Metrics::disk_num_fenced_read => 254,
            Metrics::disk_num_fenced_write => 255,
            Metrics::disk_num_fenced_hash => 256,
            Metrics::disk_num_fenced_move_storage => 257,
            Metrics::disk_num_fenced_release_files => 258,
            Metrics::disk_num_fenced_delete_files => 259,
            Metrics::disk_num_fenced_check_fastresume => 260,
            Metrics::disk_num_fenced_save_resume_data => 261,
            Metrics::disk_num_fenced_rename_file => 262,
            Metrics::disk_num_fenced_stop_torrent => 263,
            Metrics::disk_num_fenced_flush_piece => 264,
            Metrics::disk_num_fenced_flush_hashed => 265,
            Metrics::disk_num_fenced_flush_storage => 266,
            Metrics::disk_num_fenced_file_priority => 267,
            Metrics::disk_num_fenced_load_torrent => 268,
            Metrics::disk_num_fenced_clear_piece => 269,
            Metrics::disk_num_fenced_tick_storage => 270,
            Metrics::dht_dht_nodes => 271,
            Metrics::dht_dht_node_cache => 272,
            Metrics::dht_dht_torrents => 273,
            Metrics::dht_dht_peers => 274,
            Metrics::dht_dht_immutable_data => 275,
            Metrics::dht_dht_mutable_data => 276,
            Metrics::dht_dht_allocated_observers => 277,
            Metrics::dht_dht_messages_in => 137,
            Metrics::dht_dht_messages_out => 139,
            Metrics::dht_dht_messages_in_dropped => 138,
            Metrics::dht_dht_messages_out_dropped => 140,
            Metrics::dht_dht_bytes_in => 141,
            Metrics::dht_dht_bytes_out => 142,
            Metrics::dht_dht_ping_in => 143,
            Metrics::dht_dht_ping_out => 144,
            Metrics::dht_dht_find_node_in => 145,
            Metrics::dht_dht_find_node_out => 146,
            Metrics::dht_dht_get_peers_in => 147,
            Metrics::dht_dht_get_peers_out => 148,
            Metrics::dht_dht_announce_peer_in => 149,
            Metrics::dht_dht_announce_peer_out => 150,
            Metrics::dht_dht_get_in => 151,
            Metrics::dht_dht_get_out => 152,
            Metrics::dht_dht_put_in => 153,
            Metrics::dht_dht_put_out => 154,
            Metrics::dht_dht_sample_infohashes_in => 155,
            Metrics::dht_dht_sample_infohashes_out => 156,
            Metrics::dht_dht_invalid_announce => 157,
            Metrics::dht_dht_invalid_get_peers => 158,
            Metrics::dht_dht_invalid_find_node => 159,
            Metrics::dht_dht_invalid_put => 160,
            Metrics::dht_dht_invalid_get => 161,
            Metrics::dht_dht_invalid_sample_infohashes => 162,
            Metrics::utp_utp_packet_loss => 163,
            Metrics::utp_utp_timeout => 164,
            Metrics::utp_utp_packets_in => 165,
            Metrics::utp_utp_packets_out => 166,
            Metrics::utp_utp_fast_retransmit => 167,
            Metrics::utp_utp_packet_resend => 168,
            Metrics::utp_utp_samples_above_target => 169,
            Metrics::utp_utp_samples_below_target => 170,
            Metrics::utp_utp_payload_pkts_in => 171,
            Metrics::utp_utp_payload_pkts_out => 172,
            Metrics::utp_utp_invalid_pkts_in => 173,
            Metrics::utp_utp_redundant_pkts_in => 174,
            Metrics::utp_num_utp_idle => 283,
            Metrics::utp_num_utp_syn_sent => 284,
            Metrics::utp_num_utp_connected => 285,
            Metrics::utp_num_utp_fin_sent => 286,
            Metrics::utp_num_utp_close_wait => 287,
            Metrics::utp_num_utp_deleted => 288,
            Metrics::sock_bufs_socket_send_size3 => 175,
            Metrics::sock_bufs_socket_send_size4 => 176,
            Metrics::sock_bufs_socket_send_size5 => 177,
            Metrics::sock_bufs_socket_send_size6 => 178,
            Metrics::sock_bufs_socket_send_size7 => 179,
            Metrics::sock_bufs_socket_send_size8 => 180,
            Metrics::sock_bufs_socket_send_size9 => 181,
            Metrics::sock_bufs_socket_send_size10 => 182,
            Metrics::sock_bufs_socket_send_size11 => 183,
            Metrics::sock_bufs_socket_send_size12 => 184,
            Metrics::sock_bufs_socket_send_size13 => 185,
            Metrics::sock_bufs_socket_send_size14 => 186,
            Metrics::sock_bufs_socket_send_size15 => 187,
            Metrics::sock_bufs_socket_send_size16 => 188,
            Metrics::sock_bufs_socket_send_size17 => 189,
            Metrics::sock_bufs_socket_send_size18 => 190,
            Metrics::sock_bufs_socket_send_size19 => 191,
            Metrics::sock_bufs_socket_send_size20 => 192,
            Metrics::sock_bufs_socket_recv_size3 => 193,
            Metrics::sock_bufs_socket_recv_size4 => 194,
            Metrics::sock_bufs_socket_recv_size5 => 195,
            Metrics::sock_bufs_socket_recv_size6 => 196,
            Metrics::sock_bufs_socket_recv_size7 => 197,
            Metrics::sock_bufs_socket_recv_size8 => 198,
            Metrics::sock_bufs_socket_recv_size9 => 199,
            Metrics::sock_bufs_socket_recv_size10 => 200,
            Metrics::sock_bufs_socket_recv_size11 => 201,
            Metrics::sock_bufs_socket_recv_size12 => 202,
            Metrics::sock_bufs_socket_recv_size13 => 203,
            Metrics::sock_bufs_socket_recv_size14 => 204,
            Metrics::sock_bufs_socket_recv_size15 => 205,
            Metrics::sock_bufs_socket_recv_size16 => 206,
            Metrics::sock_bufs_socket_recv_size17 => 207,
            Metrics::sock_bufs_socket_recv_size18 => 208,
            Metrics::sock_bufs_socket_recv_size19 => 209,
            Metrics::sock_bufs_socket_recv_size20 => 210,
            Metrics::tracker_num_queued_tracker_announces => 290,
        }
    }

    /// Returns the slot of this metric in the counters array; always below
    /// `NUM_METRICS`.
    pub fn index(self) -> (r: usize)
        ensures
            r == self.index_spec(),
            r < NUM_METRICS,
    {
        match self {
            Metrics::peer_error_peers => 0,
            Metrics::peer_disconnected_peers => 1,
            Metrics::peer_eof_peers => 2,
            Metrics::peer_connreset_peers => 3,
            Metrics::peer_connrefused_peers => 4,
            Metrics::peer_connaborted_peers => 5,
            Metrics::peer_notconnected_peers => 6,
            Metrics::peer_perm_peers => 7,
            Metrics::peer_buffer_peers => 8,
            Metrics::peer_unreachable_peers => 9,
            Metrics::peer_broken_pipe_peers => 10,
            Metrics::peer_addrinuse_peers => 11,
            Metrics::peer_no_access_peers => 12,
            Metrics::peer_invalid_arg_peers => 13,
            Metrics::peer_aborted_peers => 14,
            Metrics::peer_piece_requests => 15,
            Metrics::peer_max_piece_requests => 16,
            Metrics::peer_invalid_piece_requests => 17,
            Metrics::peer_choked_piece_requests => 18,
            Metrics::peer_cancelled_piece_requests => 19,
            Metrics::peer_piece_rejects => 20,
            Metrics::peer_error_incoming_peers => 21,
            Metrics::peer_error_outgoing_peers => 22,
            Metrics::peer_error_rc4_peers => 23,
            Metrics::peer_error_encrypted_peers => 24,
            Metrics::peer_error_tcp_peers => 25,
            Metrics::peer_error_utp_peers => 26,
            Metrics::peer_connect_timeouts => 43,
            Metrics::peer_uninteresting_peers => 44,
            Metrics::peer_timeout_peers => 45,
            Metrics::peer_no_memory_peers => 46,
            Metrics::peer_too_many_peers => 47,
            Metrics::peer_transport_timeout_peers => 48,
            Metrics::peer_num_banned_peers => 49,
            Metrics::peer_banned_for_hash_failure => 50,
            Metrics::peer_connection_attempts => 51,
            Metrics::peer_connection_attempt_loops => 52,
            Metrics::peer_boost_connection_attempts => 53,
            Metrics::peer_missed_connection_attempts => 54,
            Metrics::peer_no_peer_connection_attempts => 55,
            Metrics::peer_incoming_connections => 56,
            Metrics::peer_num_tcp_peers => 220,
            Metrics::peer_num_socks5_peers => 221,
            Metrics::peer_num_http_proxy_peers => 222,
            Metrics::peer_num_utp_peers => 223,
            Metrics::peer_num_i2p_peers => 224,
            Metrics::peer_num_ssl_peers => 225,
            Metrics::peer_num_ssl_socks5_peers => 226,
            Metrics::peer_num_ssl_http_proxy_peers => 227,
            Metrics::peer_num_ssl_utp_peers => 228,
            Metrics::peer_num_peers_half_open => 229,
            Metrics::peer_num_peers_connected => 230,
            Metrics::peer_num_peers_up_interested => 231,
            Metrics::peer_num_peers_down_interested => 232,
            Metrics::peer_num_peers_up_unchoked_all => 233,
            Metrics::peer_num_peers_up_unchoked_optimistic => 234,
            Metrics::peer_num_peers_up_unchoked => 235,
            Metrics::peer_num_peers_down_unchoked => 236,
            Metrics::peer_num_peers_up_requests => 237,
            Metrics::peer_num_peers_down_requests => 238,
            Metrics::peer_num_peers_end_game => 241,
            Metrics::peer_num_peers_up_disk => 239,
            Metrics::peer_num_peers_down_disk => 240,
            Metrics::net_on_read_counter => 57,
            Metrics::net_on_write_counter => 58,
            Metrics::net_on_tick_counter => 59,
            Metrics::net_on_lsd_counter => 60,
            Metrics::net_on_lsd_peer_counter => 61,
            Metrics::net_on_udp_counter => 62,
            Metrics::net_on_accept_counter => 63,
            Metrics::net_on_disk_queue_counter => 64,
            Metrics::net_on_disk_counter => 65,
            Metrics::net_sent_payload_bytes => 127,
            Metrics::net_sent_bytes => 128,
            Metrics::net_sent_ip_overhead_bytes => 129,
            Metrics::net_sent_tracker_bytes => 130,
            Metrics::net_recv_payload_bytes => 131,
            Metrics::net_recv_bytes => 132,
            Metrics::net_recv_ip_overhead_bytes => 133,
            Metrics::net_recv_tracker_bytes => 134,
            Metrics::net_limiter_up_queue => 279,
            Metrics::net_limiter_down_queue => 280,
            Metrics::net_limiter_up_bytes => 281,
            Metrics::net_limiter_down_bytes => 282,
            Metrics::net_recv_failed_bytes => 135,
            Metrics::net_recv_redundant_bytes => 136,
            Metrics::net_has_incoming_connections => 278,
            Metrics::ses_num_checking_torrents => 211,
            Metrics::ses_num_stopped_torrents => 212,
            Metrics::ses_num_upload_only_torrents => 213,
            Metrics::ses_num_downloading_torrents => 214,
            Metrics::ses_num_seeding_torrents => 215,
            Metrics::ses_num_queued_seeding_torrents => 216,
            Metrics::ses_num_queued_download_torrents => 217,
            Metrics::ses_num_error_torrents => 218,
            Metrics::ses_non_filter_torrents => 219,
            Metrics::ses_num_piece_passed => 107,
            Metrics::ses_num_piece_failed => 108,
            Metrics::ses_num_have_pieces => 109,
            Metrics::ses_num_total_pieces_added => 110,
            Metrics::ses_num_unchoke_slots => 253,
            Metrics::ses_num_outstanding_accept => 289,
            Metrics::ses_num_incoming_choke => 66,
            Metrics::ses_num_incoming_unchoke => 67,
            Metrics::ses_num_incoming_interested => 68,
            Metrics::ses_num_incoming_not_interested => 69,
            Metrics::ses_num_incoming_have => 70,
            Metrics::ses_num_incoming_bitfield => 71,
            Metrics::ses_num_incoming_request => 72,
            Metrics::ses_num_incoming_piece => 73,
            Metrics::ses_num_incoming_cancel => 74,
            Metrics::ses_num_incoming_dht_port => 75,
            Metrics::ses_num_incoming_suggest => 76,
            Metrics::ses_num_incoming_have_all => 77,
            Metrics::ses_num_incoming_have_none => 78,
            Metrics::ses_num_incoming_reject => 79,
            Metrics::ses_num_incoming_allowed_fast => 80,
            Metrics::ses_num_incoming_ext_handshake => 81,
            Metrics::ses_num_incoming_pex => 82,
            Metrics::ses_num_incoming_metadata => 83,
            Metrics::ses_num_incoming_extended => 84,
            Metrics::ses_num_outgoing_choke => 85,
            Metrics::ses_num_outgoing_unchoke => 86,
            Metrics::ses_num_outgoing_interested => 87,
            Metrics::ses_num_outgoing_not_interested => 88,
            Metrics::ses_num_outgoing_have => 89,
            Metrics::ses_num_outgoing_bitfield => 90,
            Metrics::ses_num_outgoing_request => 91,
            Metrics::ses_num_outgoing_piece => 92,
            Metrics::ses_num_outgoing_cancel => 93,
            Metrics::ses_num_outgoing_dht_port => 94,
            Metrics::ses_num_outgoing_suggest => 95,
            Metrics::ses_num_outgoing_have_all => 96,
            Metrics::ses_num_outgoing_have_none => 97,
            Metrics::ses_num_outgoing_reject => 98,
            Metrics::ses_num_outgoing_allowed_fast => 99,
            Metrics::ses_num_outgoing_ext_handshake => 100,
            Metrics::ses_num_outgoing_pex => 101,
            Metrics::ses_num_outgoing_metadata => 102,
            Metrics::ses_num_outgoing_extended => 103,
            Metrics::ses_num_outgoing_hash_request => 104,
            Metrics::ses_num_outgoing_hashes => 105,
            Metrics::ses_num_outgoing_hash_reject => 106,
            Metrics::ses_waste_piece_timed_out => 121,
            Metrics::ses_waste_piece_cancelled => 122,
            Metrics::ses_waste_piece_unknown => 123,
            Metrics::ses_waste_piece_seed => 124,
            Metrics::ses_waste_piece_end_game => 125,
            Metrics::ses_waste_piece_closing => 126,
            Metrics::picker_piece_picker_partial_loops => 35,
            Metrics::picker_piece_picker_suggest_loops => 36,
            Metrics::picker_piece_picker_sequential_loops => 37,
            Metrics::picker_piece_picker_reverse_rare_loops => 38,
            Metrics::picker_piece_picker_rare_loops => 39,
            Metrics::picker_piece_picker_rand_start_loops => 40,
            Metrics::picker_piece_picker_rand_loops => 41,
            Metrics::picker_piece_picker_busy_loops => 42,
            Metrics::picker_reject_piece_picks => 27,
            Metrics::picker_unchoke_piece_picks => 28,
            Metrics::picker_incoming_redundant_piece_picks => 29,
            Metrics::picker_incoming_piece_picks => 30,
            Metrics::picker_end_game_piece_picks => 31,
            Metrics::picker_snubbed_piece_picks => 32,
            Metrics::picker_interesting_piece_picks => 33,
            Metrics::picker_hash_fail_piece_picks => 34,
            Metrics::disk_request_latency => 242,
            Metrics::disk_disk_blocks_in_use => 243,
            Metrics::disk_queued_disk_jobs => 244,
            Metrics::disk_num_running_disk_jobs => 245,
            Metrics::disk_num_read_jobs => 246,
            Metrics::disk_num_write_jobs => 247,
            Metrics::disk_num_jobs => 248,
            Metrics::disk_blocked_disk_jobs => 251,
            Metrics::disk_num_writing_threads => 249,
            Metrics::disk_num_running_threads => 250,
            Metrics::disk_queued_write_bytes => 252,
            Metrics::disk_num_blocks_written => 111,
            Metrics::disk_num_blocks_read => 112,
            Metrics::disk_num_blocks_hashed => 113,
            Metrics::disk_num_write_ops => 114,
            Metrics::disk_num_read_ops => 115,
            Metrics::disk_num_read_back => 116,
            Metrics::disk_disk_read_time => 117,
            Metrics::disk_disk_write_time => 118,
            Metrics::disk_disk_hash_time => 119,
            Metrics::disk_disk_job_time => 120,
            Metrics::disk_num_fenced_read => 254,
            Metrics::disk_num_fenced_write => 255,
            Metrics::disk_num_fenced_hash => 256,
            Metrics::disk_num_fenced_move_storage => 257,
            Metrics::disk_num_fenced_release_files => 258,
            Metrics::disk_num_fenced_delete_files => 259,
            Metrics::disk_num_fenced_check_fastresume => 260,
            Metrics::disk_num_fenced_save_resume_data => 261,
            Metrics::disk_num_fenced_rename_file => 262,
            Metrics::disk_num_fenced_stop_torrent => 263,
            Metrics::disk_num_fenced_flush_piece => 264,
            Metrics::disk_num_fenced_flush_hashed => 265,
            Metrics::disk_num_fenced_flush_storage => 266,
            Metrics::disk_num_fenced_file_priority => 267,
            Metrics::disk_num_fenced_load_torrent => 268,
            Metrics::disk_num_fenced_clear_piece => 269,
            Metrics::disk_num_fenced_tick_storage => 270,
            Metrics::dht_dht_nodes => 271,
            Metrics::dht_dht_node_cache => 272,
            Metrics::dht_dht_torrents => 273,
            Metrics::dht_dht_peers => 274,
            Metrics::dht_dht_immutable_data => 275,
            Metrics::dht_dht_mutable_data => 276,
            Metrics::dht_dht_allocated_observers => 277,
            Metrics::dht_dht_messages_in => 137,
            Metrics::dht_dht_messages_out => 139,
            Metrics::dht_dht_messages_in_dropped => 138,
            Metrics::dht_dht_messages_out_dropped => 140,
            Metrics::dht_dht_bytes_in => 141,
            Metrics::dht_dht_bytes_out => 142,
            Metrics::dht_dht_ping_in => 143,
            Metrics::dht_dht_ping_out => 144,
            Metrics::dht_dht_find_node_in => 145,
            Metrics::dht_dht_find_node_out => 146,
            Metrics::dht_dht_get_peers_in => 147,
            Metrics::dht_dht_get_peers_out => 148,
            Metrics::dht_dht_announce_peer_in => 149,
            Metrics::dht_dht_announce_peer_out => 150,
            Metrics::dht_dht_get_in => 151,
            Metrics::dht_dht_get_out => 152,
            Metrics::dht_dht_put_in => 153,
            Metrics::dht_dht_put_out => 154,
            Metrics::dht_dht_sample_infohashes_in => 155,
            Metrics::dht_dht_sample_infohashes_out => 156,
            Metrics::dht_dht_invalid_announce => 157,
            Metrics::dht_dht_invalid_get_peers => 158,
            Metrics::dht_dht_invalid_find_node => 159,
            Metrics::dht_dht_invalid_put => 160,
            Metrics::dht_dht_invalid_get => 161,
            Metrics::dht_dht_invalid_sample_infohashes => 162,
            Metrics::utp_utp_packet_loss => 163,
            Metrics::utp_utp_timeout => 164,
            Metrics::utp_utp_packets_in => 165,
            Metrics::utp_utp_packets_out => 166,
            Metrics::utp_utp_fast_retransmit => 167,
            Metrics::utp_utp_packet_resend => 168,
            Metrics::utp_utp_samples_above_target => 169,
            Metrics::utp_utp_samples_below_target => 170,
            Metrics::utp_utp_payload_pkts_in => 171,
            Metrics::utp_utp_payload_pkts_out => 172,
            Metrics::utp_utp_invalid_pkts_in => 173,
            Metrics::utp_utp_redundant_pkts_in => 174,
            Metrics::utp_num_utp_idle => 283,
            Metrics::utp_num_utp_syn_sent => 284,
            Metrics::utp_num_utp_connected => 285,
            Metrics::utp_num_utp_fin_sent => 286,
            Metrics::utp_num_utp_close_wait => 287,
            Metrics::utp_num_utp_deleted => 288,
            Metrics::sock_bufs_socket_send_size3 => 175,
            Metrics::sock_bufs_socket_send_size4 => 176,
            Metrics::sock_bufs_socket_send_size5 => 177,
            Metrics::sock_bufs_socket_send_size6 => 178,
            Metrics::sock_bufs_socket_send_size7 => 179,
            Metrics::sock_bufs_socket_send_size8 => 180,
            Metrics::sock_bufs_socket_send_size9 => 181,
            Metrics::sock_bufs_socket_send_size10 => 182,
            Metrics::sock_bufs_socket_send_size11 => 183,
            Metrics::sock_bufs_socket_send_size12 => 184,
            Metrics::sock_bufs_socket_send_size13 => 185,
            Metrics::sock_bufs_socket_send_size14 => 186,
            Metrics::sock_bufs_socket_send_size15 => 187,
            Metrics::sock_bufs_socket_send_size16 => 188,
            Metrics::sock_bufs_socket_send_size17 => 189,
            Metrics::sock_bufs_socket_send_size18 => 190,
            Metrics::sock_bufs_socket_send_size19 => 191,
            Metrics::sock_bufs_socket_send_size20 => 192,
            Metrics::sock_bufs_socket_recv_size3 => 193,
            Metrics::sock_bufs_socket_recv_size4 => 194,
            Metrics::sock_bufs_socket_recv_size5 => 195,
            Metrics::sock_bufs_socket_recv_size6 => 196,
            Metrics::sock_bufs_socket_recv_size7 => 197,
            Metrics::sock_bufs_socket_recv_size8 => 198,
            Metrics::sock_bufs_socket_recv_size9 => 199,
            Metrics::sock_bufs_socket_recv_size10 => 200,
            Metrics::sock_bufs_socket_recv_size11 => 201,
            Metrics::sock_bufs_socket_recv_size12 => 202,
            Metrics::sock_bufs_socket_recv_size13 => 203,
            Metrics::sock_bufs_socket_recv_size14 => 204,
            Metrics::sock_bufs_socket_recv_size15 => 205,
            Metrics::sock_bufs_socket_recv_size16 => 206,
            Metrics::sock_bufs_socket_recv_size17 => 207,
            Metrics::sock_bufs_socket_recv_size18 => 208,
            Metrics::sock_bufs_socket_recv_size19 => 209,
            Metrics::sock_bufs_socket_recv_size20 => 210,
            Metrics::tracker_num_queued_tracker_announces => 290,
        }
    }
}

} // verus!
