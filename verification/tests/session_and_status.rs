use libtorrent_rasterbar::announce_entry::AnnounceEndpoint;
use libtorrent_rasterbar::download_priority::DownloadPriority;
use libtorrent_rasterbar::magnet::magnet_info_hash;
use libtorrent_rasterbar::picker::pick_block;
use libtorrent_rasterbar::errors::EngineError;
use libtorrent_rasterbar::errors::LTError;
use libtorrent_rasterbar::flags;
use libtorrent_rasterbar::metrics::Metrics;
use libtorrent_rasterbar::metrics::NUM_METRICS;
use libtorrent_rasterbar::peer::DisconnectReason;
use libtorrent_rasterbar::peer::PeerState;
use libtorrent_rasterbar::piece_tracker::ArrivalOutcome;
use libtorrent_rasterbar::piece_tracker::BlockState;
use libtorrent_rasterbar::session::SessionEngine;
use libtorrent_rasterbar::session_stats::CountersAggregator;
use libtorrent_rasterbar::torrent::TorrentController;
use libtorrent_rasterbar::torrent_info::FileEntry;
use libtorrent_rasterbar::torrent_info::TorrentInfo;
use libtorrent_rasterbar::torrent_status::State;

fn small_info(hash: &str, pieces: u32) -> TorrentInfo {
    TorrentInfo {
        files: vec![FileEntry {
            file_path: "a/b".to_string(),
            file_name: "b".to_string(),
            file_size: (pieces as u64) * 32,
        }],
        trackers: vec!["http://tr.example/announce".to_string()],
        similar_torrents: vec![],
        collections: vec![],
        web_seeds: vec![],
        nodes: vec![],
        total_size: (pieces as u64) * 32,
        piece_length: 32,
        num_pieces: pieces,
        blocks_per_piece: 2,
        info_hash: hash.to_string(),
        num_files: 1,
        name: "small".to_string(),
        creation_date: 0,
        creator: String::new(),
        comment: String::new(),
        ssl_cert: String::new(),
        is_private: false,
        is_i2p: false,
    }
}

#[test]
fn counters_snapshot_determinism() {
    let mut ses = SessionEngine::new();
    // some activity before the first pull
    let id = ses
        .add_torrent(small_info("aa11", 4), "/tmp/dl".to_string(), 0, 1000, 2)
        .unwrap();
    assert!(ses.is_valid_handle(id));
    let s1 = ses.get_stats(10).two_session_stats;
    // two consecutive pulls with no intervening activity
    let s2 = ses.get_stats(20).two_session_stats;
    assert_eq!(s1.stats, s2.stats);
    assert_eq!(s2.prev_stats, s2.stats);
    assert_eq!(s2.prev_timestamp, 10);
    assert_eq!(s2.timestamp, 20);
    for i in 0..NUM_METRICS {
        assert_eq!(s2.stats[i] - s2.prev_stats[i], 0);
    }
}

#[test]
fn counters_gauge_and_monotonic() {
    let mut c = CountersAggregator::new();
    c.inc(Metrics::peer_connreset_peers, 2);
    c.inc(Metrics::peer_connreset_peers, 3);
    c.set_gauge(Metrics::ses_num_checking_torrents, 7);
    c.set_gauge(Metrics::ses_num_checking_torrents, 4);
    assert_eq!(c.get(Metrics::peer_connreset_peers), 5);
    assert_eq!(c.get(Metrics::ses_num_checking_torrents), 4);
    let snap = c.pull(100);
    assert_eq!(snap.stats[Metrics::peer_connreset_peers.index()], 5);
    assert_eq!(snap.prev_stats[Metrics::peer_connreset_peers.index()], 0);
}

#[test]
fn metrics_indices_are_stable() {
    assert_eq!(Metrics::peer_error_peers.index(), 0);
    assert_eq!(Metrics::peer_disconnected_peers.index(), 1);
    assert_eq!(Metrics::peer_connreset_peers.index(), 3);
    assert_eq!(Metrics::ses_num_piece_passed.index(), 107);
    assert_eq!(Metrics::ses_num_piece_failed.index(), 108);
    assert_eq!(Metrics::disk_num_blocks_written.index(), 111);
    assert_eq!(Metrics::ses_waste_piece_end_game.index(), 125);
    assert_eq!(Metrics::net_has_incoming_connections.index(), 278);
    assert_eq!(Metrics::tracker_num_queued_tracker_announces.index(), 290);
    assert_eq!(NUM_METRICS, 291);
}

#[test]
fn duplicate_add_returns_existing_handle_or_errors() {
    let mut ses = SessionEngine::new();
    let id1 = ses
        .add_torrent(small_info("h1", 2), "/tmp/dl".to_string(), 0, 0, 2)
        .unwrap();
    // duplicate without the flag: the existing handle comes back
    let id2 = ses
        .add_torrent(small_info("h1", 2), "/tmp/dl".to_string(), 0, 0, 2)
        .unwrap();
    assert_eq!(id1, id2);
    assert_eq!(ses.torrents.len(), 1);
    // duplicate with duplicate-is-error set: a command error, no mutation
    let r = ses.add_torrent(
        small_info("h1", 2),
        "/tmp/dl".to_string(),
        flags::DUPLICATE_IS_ERROR,
        0,
        2,
    );
    assert_eq!(r, Err(EngineError::DuplicateTorrent));
    assert_eq!(ses.torrents.len(), 1);
}

#[test]
fn remove_invalidates_handles() {
    let mut ses = SessionEngine::new();
    let id = ses
        .add_torrent(small_info("h2", 2), "/tmp/dl".to_string(), 0, 0, 2)
        .unwrap();
    assert!(ses.is_valid_handle(id));
    let hash = "h2".to_string();
    assert!(ses.remove_torrent(&hash, false));
    assert!(!ses.is_valid_handle(id));
    assert_eq!(ses.get_torrent_handle(&hash), None);
    // removing again finds nothing and changes nothing
    assert!(!ses.remove_torrent(&hash, false));
    // a late command keyed by the stale handle is dropped, not acted upon
    assert_eq!(ses.pause_torrent(id, false), Err(EngineError::UnknownTorrent));
}

#[test]
fn session_pause_resume() {
    let mut ses = SessionEngine::new();
    assert!(!ses.is_paused());
    ses.pause();
    assert!(ses.is_paused());
    ses.resume();
    assert!(!ses.is_paused());
}

#[test]
fn add_magnet_starts_without_metadata() {
    let mut ses = SessionEngine::new();
    let id = ses
        .add_magnet(
            "771cc76f2c725648b20a74d27ffeba2458a88343".to_string(),
            "magnet add".to_string(),
            "/tmp/dl".to_string(),
            0,
            0,
        )
        .unwrap();
    let i = ses.find_by_id(id).unwrap();
    assert_eq!(ses.torrents[i].state, State::downloading_metadata);
    assert!(!ses.torrents[i].has_metadata);
    let st = ses
        .get_torrent_status(&"771cc76f2c725648b20a74d27ffeba2458a88343".to_string())
        .unwrap();
    assert_eq!(st.state, State::downloading_metadata.code());
    assert!(!st.has_metadata);
}

#[test]
fn torrent_status_reports_progress_and_flags() {
    let mut ses = SessionEngine::new();
    let id = ses
        .add_torrent(small_info("h3", 4), "/tmp/dl".to_string(), 0, 123, 2)
        .unwrap();
    let i = ses.find_by_id(id).unwrap();
    // finish piece 0 by hand
    let mut c = CountersAggregator::new();
    let t = &mut ses.torrents[i];
    assert_eq!(t.tracker.request_block(0, 0, 1, false), Ok(()));
    assert_eq!(t.tracker.on_block_arrival(0, 0, 1, &mut c), ArrivalOutcome::Accepted);
    assert_eq!(t.tracker.on_write_complete(0, 0, &mut c), Ok(()));
    assert_eq!(t.tracker.request_block(0, 1, 1, false), Ok(()));
    assert_eq!(t.tracker.on_block_arrival(0, 1, 1, &mut c), ArrivalOutcome::Accepted);
    assert_eq!(t.tracker.on_write_complete(0, 1, &mut c), Ok(()));
    t.on_piece_hash_result(0, true, &mut c);
    let st = t.status();
    assert_eq!(st.num_pieces, 1);
    assert_eq!(st.pieces, vec![true, false, false, false]);
    assert_eq!(st.progress_ppm, 250_000);
    assert!(!st.is_seeding);
    assert!(!st.is_finished);
    assert_eq!(st.info_hash, "h3");
    assert_eq!(st.name, "small");
    assert_eq!(st.save_path, "/tmp/dl");
    assert_eq!(st.added_time, 123);
    assert_eq!(st.total, 128);
    assert_eq!(st.state, State::checking_resume_data.code());
}

#[test]
fn completing_all_pieces_flips_to_seeding() {
    let mut c = CountersAggregator::new();
    let mut t = TorrentController::new(1, small_info("h4", 2), "/".to_string(), 0, 0, 2);
    for p in 0..2usize {
        for b in 0..2usize {
            assert_eq!(t.tracker.request_block(p, b, 1, false), Ok(()));
            assert_eq!(t.tracker.on_block_arrival(p, b, 1, &mut c), ArrivalOutcome::Accepted);
            assert_eq!(t.tracker.on_write_complete(p, b, &mut c), Ok(()));
        }
        t.on_piece_hash_result(p, true, &mut c);
    }
    assert_eq!(t.state, State::seeding);
    let st = t.status();
    assert!(st.is_seeding);
    assert!(st.is_finished);
    assert_eq!(st.queue_position, -1);
    assert_eq!(st.progress_ppm, 1_000_000);
}

#[test]
fn unwanted_piece_makes_finished_not_seeding() {
    let mut c = CountersAggregator::new();
    let mut t = TorrentController::new(1, small_info("h5", 2), "/".to_string(), 0, 0, 2);
    // drop piece 1 from the wanted set
    assert_eq!(t.tracker.set_piece_priority(1, 0), Ok(()));
    for b in 0..2usize {
        assert_eq!(t.tracker.request_block(0, b, 1, false), Ok(()));
        assert_eq!(t.tracker.on_block_arrival(0, b, 1, &mut c), ArrivalOutcome::Accepted);
        assert_eq!(t.tracker.on_write_complete(0, b, &mut c), Ok(()));
    }
    t.on_piece_hash_result(0, true, &mut c);
    assert_eq!(t.state, State::finished);
}

#[test]
fn hash_failure_in_seed_mode_triggers_full_recheck() {
    let mut c = CountersAggregator::new();
    let mut t = TorrentController::new(
        1,
        small_info("h6", 2),
        "/".to_string(),
        flags::SEED_MODE,
        0,
        2,
    );
    t.enter_state(State::seeding);
    t.on_piece_hash_result(0, false, &mut c);
    // seed mode cleared, full recheck queued, one failure counted
    assert_eq!(t.flags & flags::SEED_MODE, 0);
    assert_eq!(t.state, State::checking_files);
    assert_eq!(t.tracker.fail_count, 1);
}

#[test]
fn stop_when_ready_fires_immediately_in_downloading_state() {
    let mut t = TorrentController::new(1, small_info("h7", 2), "/".to_string(), flags::AUTO_MANAGED, 0, 2);
    t.enter_state(State::downloading);
    t.arm_stop_when_ready();
    assert_eq!(t.flags & flags::PAUSED, flags::PAUSED);
    assert_eq!(t.flags & flags::AUTO_MANAGED, 0);
    assert_eq!(t.flags & flags::STOP_WHEN_READY, 0);
}

#[test]
fn stop_when_ready_defers_until_the_edge() {
    let mut t = TorrentController::new(1, small_info("h8", 2), "/".to_string(), flags::AUTO_MANAGED, 0, 2);
    assert_eq!(t.state, State::checking_resume_data);
    t.arm_stop_when_ready();
    // armed but not fired: still auto-managed, not paused
    assert_eq!(t.flags & flags::STOP_WHEN_READY, flags::STOP_WHEN_READY);
    assert_eq!(t.flags & flags::PAUSED, 0);
    t.enter_state(State::checking_files);
    assert_eq!(t.flags & flags::PAUSED, 0);
    // the edge into a downloading-class state fires it, and it self-clears
    t.enter_state(State::downloading);
    assert_eq!(t.flags & flags::PAUSED, flags::PAUSED);
    assert_eq!(t.flags & flags::AUTO_MANAGED, 0);
    assert_eq!(t.flags & flags::STOP_WHEN_READY, 0);
}

#[test]
fn seed_mode_cannot_be_set_after_add() {
    let mut t = TorrentController::new(1, small_info("h9", 2), "/".to_string(), 0, 0, 2);
    t.set_flags(flags::SEED_MODE | flags::SEQUENTIAL_DOWNLOAD);
    assert_eq!(t.flags & flags::SEED_MODE, 0);
    assert_eq!(t.flags & flags::SEQUENTIAL_DOWNLOAD, flags::SEQUENTIAL_DOWNLOAD);
    // the mask form cannot set it either, but can clear it
    let mut s = TorrentController::new(2, small_info("ha", 2), "/".to_string(), flags::SEED_MODE, 0, 2);
    s.set_flags_with_mask(flags::SEED_MODE, flags::SEED_MODE);
    assert_eq!(s.flags & flags::SEED_MODE, flags::SEED_MODE);
    s.unset_flags(flags::SEED_MODE);
    assert_eq!(s.flags & flags::SEED_MODE, 0);
}

#[test]
fn storage_error_escalates_to_upload_mode() {
    let mut t = TorrentController::new(1, small_info("hb", 2), "/".to_string(), 0, 0, 2);
    t.on_storage_error(0, "disk full".to_string());
    assert_eq!(t.flags & flags::UPLOAD_MODE, flags::UPLOAD_MODE);
    assert_eq!(t.errc, "disk full");
    assert_eq!(t.error_file, 0);
    t.clear_error();
    assert_eq!(t.errc, "");
    assert_eq!(t.error_file, -1);
}

#[test]
fn peer_lifecycle_and_request_flow() {
    let mut c = CountersAggregator::new();
    let mut t = TorrentController::new(1, small_info("hc", 2), "/".to_string(), 0, 0, 2);
    let pid = t.add_peer(flags::SOURCE_TRACKER, true);
    assert_eq!(t.peers[0].state, PeerState::Connecting);
    t.peer_connected(0);
    assert_eq!(t.peers[0].state, PeerState::Handshaking);
    t.peer_handshake(0, true, &mut c);
    assert_eq!(t.peers[0].state, PeerState::Established);
    // the peer claims both pieces and unchokes us
    t.on_peer_has_piece(0, 0);
    t.on_peer_has_piece(0, 1);
    t.peers[0].interesting = true;
    t.peers[0].remote_choked = false;
    // requests flow in ascending block order within the picked piece
    let r1 = t.request_next_block(0);
    assert_eq!(r1, Some((0, 0)));
    assert_eq!(t.tracker.blocks[0][0].state, BlockState::Requested);
    assert_eq!(t.tracker.blocks[0][0].requesters, vec![pid]);
    assert_eq!(t.peers[0].queue, vec![(0, 0)]);
    let r2 = t.request_next_block(0);
    assert_eq!(r2, Some((0, 1)));
    // closing the peer destroys it, releases both blocks, drops the
    // availability of the pieces it claimed, and counts the reason
    assert_eq!(t.get_piece_availability(), vec![1, 1]);
    t.close_peer(0, DisconnectReason::ConnReset, &mut c);
    assert_eq!(t.peers.len(), 0);
    assert_eq!(t.get_peers().len(), 0);
    assert_eq!(t.tracker.blocks[0][0].state, BlockState::Empty);
    assert_eq!(t.tracker.blocks[0][1].state, BlockState::Empty);
    assert_eq!(t.get_piece_availability(), vec![0, 0]);
    assert_eq!(c.get(Metrics::peer_connreset_peers), 1);
}

#[test]
fn failed_handshake_closes_for_good_and_counts() {
    let mut c = CountersAggregator::new();
    let mut t = TorrentController::new(1, small_info("hd", 2), "/".to_string(), 0, 0, 2);
    t.add_peer(flags::SOURCE_DHT, false);
    t.peer_connected(0);
    t.peer_handshake(0, false, &mut c);
    // the failed peer is destroyed: it appears in no later snapshot
    assert_eq!(t.peers.len(), 0);
    assert_eq!(t.get_peers().len(), 0);
    assert_eq!(c.get(Metrics::peer_error_peers), 1);
}

#[test]
fn paused_torrent_issues_no_requests() {
    let mut t = TorrentController::new(1, small_info("he", 2), "/".to_string(), 0, 0, 2);
    let mut c = CountersAggregator::new();
    t.add_peer(flags::SOURCE_TRACKER, true);
    t.peer_connected(0);
    t.peer_handshake(0, true, &mut c);
    t.on_peer_has_piece(0, 0);
    t.peers[0].interesting = true;
    t.peers[0].remote_choked = false;
    t.pause(false);
    assert_eq!(t.flags & flags::PAUSED, flags::PAUSED);
    assert_eq!(t.flags & flags::AUTO_MANAGED, 0);
    // a non-graceful pause disconnects and destroys every peer
    assert_eq!(t.peers.len(), 0);
    assert_eq!(t.get_piece_availability(), vec![0, 0]);
}

#[test]
fn graceful_pause_drains_established_peers() {
    let mut t = TorrentController::new(1, small_info("hf", 2), "/".to_string(), 0, 0, 2);
    let mut c = CountersAggregator::new();
    t.add_peer(flags::SOURCE_TRACKER, true);
    t.add_peer(flags::SOURCE_PEX, false);
    t.peer_connected(0);
    t.peer_handshake(0, true, &mut c);
    t.pause(true);
    assert_eq!(t.peers[0].state, PeerState::Closing);
    // the half-open peer is left to its own teardown
    assert_eq!(t.peers[1].state, PeerState::Connecting);
}

#[test]
fn file_priorities_drive_piece_priorities() {
    // two files over 4 pieces of 32 bytes: file 0 covers pieces 0..2 and the
    // first half of piece 2; file 1 covers the rest
    let mut info = small_info("hg", 4);
    info.files = vec![
        FileEntry {
            file_path: "a".to_string(),
            file_name: "a".to_string(),
            file_size: 80,
        },
        FileEntry {
            file_path: "b".to_string(),
            file_name: "b".to_string(),
            file_size: 48,
        },
    ];
    info.num_files = 2;
    info.total_size = 128;
    let mut t = TorrentController::new(1, info, "/".to_string(), 0, 0, 2);
    assert_eq!(t.get_file_priorities(), vec![4, 4]);
    // invalid inputs are command errors and change nothing
    assert_eq!(t.set_file_priority(0, 3), Err(EngineError::InvalidPriority));
    assert_eq!(t.set_file_priority(9, 4), Err(EngineError::InvalidIndex));
    // dropping file 0: pieces covered only by file 0 become unwanted,
    // the piece shared with file 1 keeps file 1's priority
    assert_eq!(t.set_file_priority(0, 0), Ok(()));
    assert_eq!(t.get_file_priority(0), Some(0));
    assert_eq!(t.tracker.priorities, vec![0, 0, 4, 4]);
    // raising file 1 raises its pieces, including the shared piece 2
    assert_eq!(t.set_file_priority(1, 7), Ok(()));
    assert_eq!(t.tracker.priorities, vec![0, 0, 7, 7]);
    // the bulk form applies all at once, ignoring codes it does not accept
    t.set_prioritize_files(&vec![1, 255]);
    assert_eq!(t.get_file_priorities(), vec![1, 7]);
    assert_eq!(t.tracker.priorities, vec![1, 1, 7, 7]);
}

#[test]
fn file_progress_counts_verified_bytes_per_file() {
    let mut info = small_info("hh", 4);
    info.files = vec![
        FileEntry {
            file_path: "a".to_string(),
            file_name: "a".to_string(),
            file_size: 80,
        },
        FileEntry {
            file_path: "b".to_string(),
            file_name: "b".to_string(),
            file_size: 48,
        },
    ];
    info.num_files = 2;
    info.total_size = 128;
    let mut t = TorrentController::new(1, info, "/".to_string(), 0, 0, 2);
    let mut c = CountersAggregator::new();
    // verify piece 0 (fully in file 0) and piece 2 (split 16/16)
    for p in [0usize, 2usize] {
        for b in 0..2usize {
            assert_eq!(t.tracker.request_block(p, b, 1, false), Ok(()));
            assert_eq!(
                t.tracker.on_block_arrival(p, b, 1, &mut c),
                ArrivalOutcome::Accepted
            );
            assert_eq!(t.tracker.on_write_complete(p, b, &mut c), Ok(()));
        }
        t.on_piece_hash_result(p, true, &mut c);
    }
    assert_eq!(t.get_file_progress(false), vec![32 + 16, 16]);
    assert_eq!(t.get_file_progress(true), vec![48, 16]);
}

#[test]
fn piece_info_lists_open_pieces_with_block_detail() {
    let mut t = TorrentController::new(1, small_info("hi", 3), "/".to_string(), 0, 0, 2);
    let mut c = CountersAggregator::new();
    assert_eq!(t.tracker.request_block(1, 0, 5, false), Ok(()));
    assert_eq!(t.tracker.on_block_arrival(1, 0, 5, &mut c), ArrivalOutcome::Accepted);
    assert_eq!(t.tracker.request_block(1, 1, 6, false), Ok(()));
    let pi = t.get_piece_info();
    assert_eq!(pi.partial_pieces.len(), 1);
    let e = &pi.partial_pieces[0];
    assert_eq!(e.piece_index, 1);
    assert_eq!(e.blocks_in_piece, 2);
    assert_eq!(e.finished, 0);
    assert_eq!(e.writing, 1);
    assert_eq!(e.requested, 1);
    assert_eq!(e.blocks[0].state, 2);
    assert_eq!(e.blocks[0].num_peers, 1);
    assert_eq!(e.blocks[1].state, 1);
    assert_eq!(e.blocks[1].num_peers, 1);
    assert_eq!(e.blocks[0].block_size, 32);
}

#[test]
fn peer_info_snapshot_matches_connection() {
    let mut t = TorrentController::new(1, small_info("hj", 4), "/".to_string(), 0, 0, 2);
    let mut c = CountersAggregator::new();
    t.add_peer(flags::SOURCE_TRACKER | flags::SOURCE_PEX, true);
    t.peer_connected(0);
    t.peer_handshake(0, true, &mut c);
    t.on_peer_has_piece(0, 0);
    t.on_peer_has_piece(0, 2);
    t.peers[0].on_parole = true;
    let infos = t.get_peers();
    assert_eq!(infos.len(), 1);
    let pi = &infos[0];
    assert_eq!(pi.pieces, vec![true, false, true, false]);
    assert_eq!(pi.num_pieces, 2);
    assert_eq!(pi.progress_ppm, 500_000);
    assert_eq!(pi.source, flags::SOURCE_TRACKER | flags::SOURCE_PEX);
    assert_eq!(pi.flags & flags::PEER_ON_PAROLE, flags::PEER_ON_PAROLE);
    assert_eq!(pi.flags & flags::PEER_OUTGOING_CONNECTION, flags::PEER_OUTGOING_CONNECTION);
    assert_eq!(pi.flags & flags::PEER_CHOKED, flags::PEER_CHOKED);
    assert_eq!(pi.download_queue_length, 0);
}

#[test]
fn piece_availability_snapshot() {
    let mut t = TorrentController::new(1, small_info("hk", 3), "/".to_string(), 0, 0, 2);
    t.tracker.peer_has_piece(1);
    t.tracker.peer_has_piece(1);
    assert_eq!(t.get_piece_availability(), vec![0, 2, 0]);
}

#[test]
fn trackers_snapshot_and_session_commands() {
    let mut ses = SessionEngine::new();
    let id = ses
        .add_torrent(small_info("hm", 2), "/tmp/dl".to_string(), 0, 0, 2)
        .unwrap();
    assert_eq!(ses.add_tracker(id, "http://b.example/ann".to_string(), 1), Ok(()));
    let i = ses.find_by_id(id).unwrap();
    let trackers = ses.torrents[i].get_trackers();
    assert_eq!(trackers.len(), 2);
    assert_eq!(trackers[0].url, "http://tr.example/announce");
    assert_eq!(trackers[0].tier, 0);
    assert_eq!(trackers[0].source, flags::TRACKER_SOURCE_TORRENT);
    assert_eq!(trackers[1].url, "http://b.example/ann");
    assert_eq!(trackers[1].tier, 1);
    assert_eq!(trackers[1].source, flags::TRACKER_SOURCE_CLIENT);
    // session-level flag commands reach the right torrent
    assert_eq!(ses.set_torrent_flags(id, flags::SEQUENTIAL_DOWNLOAD), Ok(()));
    assert_eq!(ses.get_torrent_flags(id), Some(flags::SEQUENTIAL_DOWNLOAD));
    assert_eq!(
        ses.set_torrent_flags_with_mask(id, flags::AUTO_MANAGED, flags::AUTO_MANAGED | flags::PAUSED),
        Ok(())
    );
    assert_eq!(
        ses.get_torrent_flags(id),
        Some(flags::SEQUENTIAL_DOWNLOAD | flags::AUTO_MANAGED)
    );
    assert_eq!(ses.pause_torrent(id, false), Ok(()));
    let w = ses.get_torrent_flags(id).unwrap();
    assert_eq!(w & flags::PAUSED, flags::PAUSED);
    assert_eq!(w & flags::AUTO_MANAGED, 0);
    assert_eq!(ses.resume_torrent(id), Ok(()));
    let w2 = ses.get_torrent_flags(id).unwrap();
    assert_eq!(w2 & flags::AUTO_MANAGED, flags::AUTO_MANAGED);
    assert_eq!(ses.force_recheck(id), Ok(()));
    assert_eq!(ses.force_reannounce(id, 55), Ok(()));
    assert_eq!(ses.scrape_tracker(id), Ok(()));
    assert_eq!(ses.clear_torrent_error(id), Ok(()));
}

#[test]
fn get_torrents_and_all_status() {
    let mut ses = SessionEngine::new();
    ses.add_torrent(small_info("t1", 2), "/d1".to_string(), 0, 0, 2)
        .unwrap();
    ses.add_torrent(small_info("t2", 3), "/d2".to_string(), 0, 0, 2)
        .unwrap();
    let infos = ses.get_torrents();
    assert_eq!(infos.len(), 2);
    assert_eq!(infos[0].info_hash, "t1");
    assert_eq!(infos[1].info_hash, "t2");
    assert_eq!(infos[1].num_pieces, 3);
    let sts = ses.get_all_torrent_status();
    assert_eq!(sts.len(), 2);
    assert_eq!(sts[0].info_hash, "t1");
    assert_eq!(sts[1].info_hash, "t2");
}

#[test]
fn logs_are_drained_in_order() {
    let mut ses = SessionEngine::new();
    ses.push_log("first".to_string(), 1);
    ses.push_log("second".to_string(), 2);
    let logs = ses.get_logs();
    assert_eq!(logs.len(), 2);
    assert_eq!(logs[0].message, "first");
    assert_eq!(logs[0].timestamp, 1);
    assert_eq!(logs[1].message, "second");
    let again = ses.get_logs();
    assert_eq!(again.len(), 0);
}

#[test]
fn error_messages_and_priorities() {
    let e = LTError::FailedToAddMagnet("bad uri".to_string());
    assert_eq!(e.message(), "Failed to add magnet: bad uri");
    let e2 = LTError::FailedToCreateSession("no mem".to_string());
    assert_eq!(e2.message(), "Failed to create session: no mem");
    let e3 = LTError::FailedToAddTorrent("no file".to_string());
    assert_eq!(e3.message(), "Failed to add torrent: no file");
    assert_eq!(DownloadPriority::dont_download.code(), 0);
    assert_eq!(DownloadPriority::low_priority.code(), 1);
    assert_eq!(DownloadPriority::default_priority.code(), 4);
    assert_eq!(DownloadPriority::top_priority.code(), 7);
    assert_eq!(DownloadPriority::from_code(7), Some(DownloadPriority::top_priority));
    assert_eq!(DownloadPriority::from_code(2), None);
    assert_eq!(State::checking_resume_data.code(), 7);
    assert_eq!(State::downloading.code(), 3);
    assert_eq!(State::seeding.code(), 5);
}

#[test]
fn queries_on_unknown_info_hash_yield_empty_results() {
    let ses = SessionEngine::new();
    let hash = "nosuch".to_string();
    assert_eq!(ses.get_peers(&hash).len(), 0);
    assert_eq!(ses.get_piece_availability(&hash).len(), 0);
    assert_eq!(ses.get_file_progress(&hash, false).len(), 0);
    assert_eq!(ses.get_trackers(&hash).len(), 0);
    assert_eq!(ses.get_piece_info(&hash).partial_pieces.len(), 0);
    assert!(ses.get_torrent_status(&hash).is_none());
}

#[test]
fn session_queries_reach_the_right_torrent() {
    let mut ses = SessionEngine::new();
    ses.add_torrent(small_info("q1", 2), "/d".to_string(), 0, 0, 2)
        .unwrap();
    ses.add_torrent(small_info("q2", 3), "/d".to_string(), 0, 0, 2)
        .unwrap();
    let hash = "q2".to_string();
    assert_eq!(ses.get_piece_availability(&hash), vec![0, 0, 0]);
    assert_eq!(ses.get_file_progress(&hash, false), vec![0]);
    let trackers = ses.get_trackers(&hash);
    assert_eq!(trackers.len(), 1);
    assert_eq!(trackers[0].url, "http://tr.example/announce");
    assert_eq!(ses.get_peers(&hash).len(), 0);
}

#[test]
fn status_reports_earliest_announce_time() {
    let mut t = TorrentController::new(1, small_info("q3", 2), "/".to_string(), 0, 0, 2);
    // no announce state yet: the time is 0
    assert_eq!(t.status().next_announce, 0);
    // give both trackers an endpoint and schedule them apart
    t.add_tracker("http://b.example/ann".to_string(), 0);
    t.trackers[0]
        .endpoints
        .push(AnnounceEndpoint::new("0.0.0.0:6881".to_string(), 1));
    t.trackers[1]
        .endpoints
        .push(AnnounceEndpoint::new("0.0.0.0:6881".to_string(), 1));
    t.trackers[0].endpoints[0].info_hashes[0].on_announce_success(100, 1800, 60, None, true, false);
    t.trackers[1].endpoints[0].info_hashes[0].on_announce_success(100, 600, 60, None, true, false);
    // the earliest of the two schedules is reported
    assert_eq!(t.status().next_announce, 700);
}

#[test]
fn monotonic_counters_clamp_at_the_top() {
    let mut c = CountersAggregator::new();
    c.inc(Metrics::net_sent_bytes, i64::MAX);
    c.inc(Metrics::net_sent_bytes, 5);
    assert_eq!(c.get(Metrics::net_sent_bytes), i64::MAX);
}

#[test]
fn peer_flags_word_reflects_connection_state() {
    let mut t = TorrentController::new(1, small_info("q4", 2), "/".to_string(), 0, 0, 2);
    t.add_peer(libtorrent_rasterbar::flags::SOURCE_INCOMING, false);
    // half-open: the connecting bit, plus choked in both directions
    let w = t.peers[0].flags_word();
    assert_eq!(
        w,
        flags::PEER_CONNECTING | flags::PEER_CHOKED | flags::PEER_REMOTE_CHOKED
    );
    t.peer_connected(0);
    let w2 = t.peers[0].flags_word();
    assert_eq!(
        w2,
        flags::PEER_HANDSHAKE | flags::PEER_CHOKED | flags::PEER_REMOTE_CHOKED
    );
}

#[test]
fn request_queue_capacity_is_respected() {
    let mut t = TorrentController::new(1, small_info("q5", 4), "/".to_string(), 0, 0, 2);
    let mut c = CountersAggregator::new();
    t.add_peer(flags::SOURCE_TRACKER, true);
    t.peer_connected(0);
    t.peer_handshake(0, true, &mut c);
    for p in 0..4usize {
        t.on_peer_has_piece(0, p);
    }
    t.peers[0].interesting = true;
    t.peers[0].remote_choked = false;
    t.peers[0].set_target_queue_len(2);
    assert!(t.request_next_block(0).is_some());
    assert!(t.request_next_block(0).is_some());
    // the queue reached its target: no further request is issued
    assert_eq!(t.peers[0].queue.len(), 2);
    assert_eq!(t.request_next_block(0), None);
}

#[test]
fn state_gauges_count_each_torrent_once() {
    let mut ses = SessionEngine::new();
    // one torrent checking, one seeding, one stopped, one in error
    ses.add_torrent(small_info("g1", 2), "/d".to_string(), 0, 0, 2)
        .unwrap();
    let id2 = ses
        .add_torrent(small_info("g2", 1), "/d".to_string(), 0, 0, 2)
        .unwrap();
    let id3 = ses
        .add_torrent(small_info("g3", 2), "/d".to_string(), 0, 0, 2)
        .unwrap();
    let id4 = ses
        .add_torrent(small_info("g4", 2), "/d".to_string(), 0, 0, 2)
        .unwrap();
    let mut c = CountersAggregator::new();
    let i2 = ses.find_by_id(id2).unwrap();
    {
        let t = &mut ses.torrents[i2];
        for b in 0..2usize {
            assert_eq!(t.tracker.request_block(0, b, 1, false), Ok(()));
            assert_eq!(t.tracker.on_block_arrival(0, b, 1, &mut c), ArrivalOutcome::Accepted);
            assert_eq!(t.tracker.on_write_complete(0, b, &mut c), Ok(()));
        }
        t.on_piece_hash_result(0, true, &mut c);
    }
    ses.pause_torrent(id3, false).unwrap();
    let i4 = ses.find_by_id(id4).unwrap();
    ses.torrents[i4].on_storage_error(-1, "io".to_string());
    ses.refresh_state_gauges();
    let snap = ses.get_stats(50).two_session_stats;
    assert_eq!(snap.stats[Metrics::ses_num_checking_torrents.index()], 1);
    assert_eq!(snap.stats[Metrics::ses_num_seeding_torrents.index()], 1);
    assert_eq!(snap.stats[Metrics::ses_num_stopped_torrents.index()], 1);
    assert_eq!(snap.stats[Metrics::ses_num_error_torrents.index()], 1);
    assert_eq!(snap.stats[Metrics::ses_num_downloading_torrents.index()], 0);
}

#[test]
fn set_flags_fires_stop_when_ready_while_downloading() {
    let mut t = TorrentController::new(1, small_info("q6", 2), "/".to_string(), flags::AUTO_MANAGED, 0, 2);
    t.enter_state(State::downloading);
    // arming through the flag API while downloading fires at once
    t.set_flags(flags::STOP_WHEN_READY);
    assert_eq!(t.flags & flags::PAUSED, flags::PAUSED);
    assert_eq!(t.flags & flags::AUTO_MANAGED, 0);
    assert_eq!(t.flags & flags::STOP_WHEN_READY, 0);
    // the mask form behaves the same
    let mut s = TorrentController::new(2, small_info("q7", 2), "/".to_string(), flags::AUTO_MANAGED, 0, 2);
    s.enter_state(State::downloading);
    s.set_flags_with_mask(flags::STOP_WHEN_READY, flags::STOP_WHEN_READY);
    assert_eq!(s.flags & flags::PAUSED, flags::PAUSED);
    assert_eq!(s.flags & flags::AUTO_MANAGED, 0);
    assert_eq!(s.flags & flags::STOP_WHEN_READY, 0);
}

#[test]
fn peer_snapshot_reports_queue_head_and_timeout() {
    let mut t = TorrentController::new(1, small_info("q8", 2), "/".to_string(), 0, 0, 2);
    let mut c = CountersAggregator::new();
    t.add_peer(flags::SOURCE_TRACKER, true);
    t.peer_connected(0);
    t.peer_handshake(0, true, &mut c);
    t.on_peer_has_piece(0, 1);
    t.peers[0].interesting = true;
    t.peers[0].remote_choked = false;
    // idle: the documented sentinels
    let idle = &t.get_peers()[0];
    assert_eq!(idle.request_timeout, -1);
    assert_eq!(idle.downloading_piece_index, -1);
    assert_eq!(idle.downloading_block_index, -1);
    // one request outstanding: the queue head and the configured timeout
    assert_eq!(t.request_next_block(0), Some((1, 0)));
    let busy = &t.get_peers()[0];
    assert_eq!(busy.request_timeout, 60);
    assert_eq!(busy.downloading_piece_index, 1);
    assert_eq!(busy.downloading_block_index, 0);
    assert_eq!(busy.downloading_total, 32);
    assert_eq!(busy.downloading_progress, 0);
    t.set_request_timeout(25);
    assert_eq!(t.get_peers()[0].request_timeout, 25);
}

#[test]
fn set_file_priority_round_trip() {
    let mut t = TorrentController::new(1, small_info("q9", 2), "/".to_string(), 0, 0, 2);
    assert_eq!(t.set_file_priority(0, 7), Ok(()));
    assert_eq!(t.get_file_priority(0), Some(7));
    assert_eq!(t.set_file_priority(0, 1), Ok(()));
    assert_eq!(t.get_file_priority(0), Some(1));
}

#[test]
fn status_reports_byte_totals() {
    // 4 pieces of 32 bytes, the last short: total 110 bytes
    let mut info = small_info("b1", 4);
    info.total_size = 110;
    info.files[0].file_size = 110;
    let mut t = TorrentController::new(1, info, "/".to_string(), 0, 0, 2);
    let mut c = CountersAggregator::new();
    // drop piece 1 from the wanted set: wanted = 110 - 32 = 78
    assert_eq!(t.tracker.set_piece_priority(1, 0), Ok(()));
    // verify piece 0 (32 bytes, wanted) and piece 3 (the short 14 bytes)
    for p in [0usize, 3usize] {
        for b in 0..2usize {
            assert_eq!(t.tracker.request_block(p, b, 1, false), Ok(()));
            assert_eq!(t.tracker.on_block_arrival(p, b, 1, &mut c), ArrivalOutcome::Accepted);
            assert_eq!(t.tracker.on_write_complete(p, b, &mut c), Ok(()));
        }
        t.on_piece_hash_result(p, true, &mut c);
    }
    let st = t.status();
    assert_eq!(st.total, 110);
    assert_eq!(st.total_done, 32 + 14);
    assert_eq!(st.total_wanted, 78);
    assert_eq!(st.total_wanted_done, 46);
    assert_eq!(st.total_failed_bytes, 0);
    assert_eq!(st.total_redundant_bytes, 0);
}

#[test]
fn failed_and_redundant_bytes_are_counted() {
    let mut info = small_info("b2", 4);
    info.total_size = 110;
    info.files[0].file_size = 110;
    let mut t = TorrentController::new(1, info, "/".to_string(), 0, 0, 2);
    let mut c = CountersAggregator::new();
    // piece 0 fails its hash: 32 failed bytes
    t.on_piece_hash_result(0, false, &mut c);
    assert_eq!(t.status().total_failed_bytes, 32);
    // the short last piece fails too: + 14
    t.on_piece_hash_result(3, false, &mut c);
    assert_eq!(t.status().total_failed_bytes, 46);
    // an endgame race: the loser's block counts as redundant bytes
    assert_eq!(t.tracker.request_block(1, 0, 1, false), Ok(()));
    assert_eq!(t.tracker.request_block(1, 0, 2, true), Ok(()));
    assert_eq!(t.on_block_arrival(1, 0, 1, &mut c), ArrivalOutcome::Accepted);
    assert_eq!(t.on_write_complete(1, 0, &mut c), Ok(()));
    assert_eq!(t.on_block_arrival(1, 0, 2, &mut c), ArrivalOutcome::RedundantEndgame);
    // blocks are counted at the nominal block size (the 32-byte piece length)
    assert_eq!(t.status().total_redundant_bytes, 32);
}

#[test]
fn status_reports_scrape_numbers() {
    let mut t = TorrentController::new(1, small_info("b3", 2), "/".to_string(), 0, 0, 2);
    // no tracker reported scrape data yet: the sentinels
    let st = t.status();
    assert_eq!(st.num_complete, -1);
    assert_eq!(st.num_incomplete, -1);
    // a successful announce carries scrape numbers, and verifies the entry
    t.trackers[0]
        .endpoints
        .push(AnnounceEndpoint::new("0.0.0.0:6881".to_string(), 1));
    assert!(!t.trackers[0].verified);
    assert_eq!(
        t.trackers[0].on_announce_success_at(0, 0, 100, 1800, 60, Some((4, 9, 77)), true, false),
        Ok(())
    );
    assert!(t.trackers[0].verified);
    let st2 = t.status();
    assert_eq!(st2.num_complete, 9);
    assert_eq!(st2.num_incomplete, 4);
    // an out-of-range endpoint is refused and changes nothing
    assert_eq!(
        t.trackers[0].on_announce_success_at(5, 0, 100, 1800, 60, None, false, false),
        Err(EngineError::InvalidIndex)
    );
}

#[test]
fn upload_mode_retry_is_gated_on_auto_managed() {
    let mut t = TorrentController::new(1, small_info("b4", 2), "/".to_string(), 0, 0, 2);
    t.on_storage_error(-1, "io".to_string());
    assert_eq!(t.flags & flags::UPLOAD_MODE, flags::UPLOAD_MODE);
    // not auto-managed: the retry leaves upload mode in place
    t.retry_upload_mode();
    assert_eq!(t.flags & flags::UPLOAD_MODE, flags::UPLOAD_MODE);
    // auto-managed: the periodic retry takes it out of upload mode
    t.set_flags(flags::AUTO_MANAGED);
    t.retry_upload_mode();
    assert_eq!(t.flags & flags::UPLOAD_MODE, 0);
}

#[test]
fn override_trackers_replaces_list_with_fresh_state() {
    let mut t = TorrentController::new(1, small_info("b5", 2), "/".to_string(), 0, 0, 2);
    t.add_tracker("http://old.example/ann".to_string(), 3);
    let urls = vec!["http://x.example/ann".to_string(), "http://y.example/ann".to_string()];
    t.override_trackers(&urls);
    assert_eq!(t.trackers.len(), 2);
    assert_eq!(t.trackers[0].url, "http://x.example/ann");
    assert_eq!(t.trackers[1].url, "http://y.example/ann");
    assert_eq!(t.trackers[0].tier, 0);
    assert!(!t.trackers[0].verified);
    assert_eq!(t.trackers[0].endpoints.len(), 0);
}

#[test]
fn parole_peers_get_whole_piece_assignments() {
    let mut t = TorrentController::new(1, small_info("b6", 3), "/".to_string(), 0, 0, 2);
    // another peer is already downloading a block of piece 0
    assert_eq!(t.tracker.request_block(0, 0, 9, false), Ok(()));
    let peer_has = vec![true, true, true];
    // a parole peer skips piece 0 — someone else is on it — and takes the
    // next whole piece, even though piece 0 is partial and would otherwise
    // be preferred
    assert_eq!(pick_block(&t.tracker, &peer_has, 5, false, true, false), Some((1, 0)));
    // without parole, the partial piece wins
    assert_eq!(pick_block(&t.tracker, &peer_has, 5, false, false, false), Some((0, 1)));
    // a parole peer keeps working its own piece: its own requests are fine
    assert_eq!(t.tracker.request_block(1, 0, 5, false), Ok(()));
    assert_eq!(pick_block(&t.tracker, &peer_has, 5, false, true, false), Some((1, 1)));
    // and never takes endgame duplicates
    assert_eq!(t.tracker.request_block(1, 1, 5, false), Ok(()));
    assert_eq!(t.tracker.request_block(2, 0, 9, false), Ok(()));
    assert_eq!(t.tracker.request_block(2, 1, 9, false), Ok(()));
    assert_eq!(pick_block(&t.tracker, &peer_has, 5, false, true, true), None);
}

#[test]
fn magnet_info_hash_extraction() {
    let uri = b"magnet:?xt=urn:btih:771cc76f2c725648b20a74d27ffeba2458a88343&dn=x".to_vec();
    assert_eq!(
        magnet_info_hash(&uri),
        Some(b"771cc76f2c725648b20a74d27ffeba2458a88343".to_vec())
    );
    // hash at the end of the URI, no parameters after it
    let uri2 = b"magnet:?xt=urn:btih:abcd".to_vec();
    assert_eq!(magnet_info_hash(&uri2), Some(b"abcd".to_vec()));
    // no marker, and an empty hash, both yield nothing
    assert_eq!(magnet_info_hash(&b"http://example/x".to_vec()), None);
    assert_eq!(magnet_info_hash(&b"magnet:?xt=urn:btih:&dn=x".to_vec()), None);
}

#[test]
fn handshake_failure_drops_claimed_availability() {
    let mut t = TorrentController::new(1, small_info("b7", 2), "/".to_string(), 0, 0, 2);
    let mut c = CountersAggregator::new();
    t.add_peer(flags::SOURCE_DHT, false);
    t.peer_connected(0);
    t.on_peer_has_piece(0, 0);
    assert_eq!(t.get_piece_availability(), vec![1, 0]);
    t.peer_handshake(0, false, &mut c);
    assert_eq!(t.get_piece_availability(), vec![0, 0]);
    assert_eq!(t.get_peers().len(), 0);
}

#[test]
fn session_tick_retries_upload_mode() {
    let mut ses = SessionEngine::new();
    let id1 = ses
        .add_torrent(small_info("c1", 2), "/d".to_string(), flags::AUTO_MANAGED, 0, 2)
        .unwrap();
    let id2 = ses
        .add_torrent(small_info("c2", 2), "/d".to_string(), 0, 0, 2)
        .unwrap();
    let i1 = ses.find_by_id(id1).unwrap();
    let i2 = ses.find_by_id(id2).unwrap();
    ses.torrents[i1].on_storage_error(-1, "io".to_string());
    ses.torrents[i2].on_storage_error(-1, "io".to_string());
    ses.retry_upload_mode_torrents();
    // the auto-managed torrent left upload mode; the hand-managed one stayed
    assert_eq!(ses.get_torrent_flags(id1).unwrap() & flags::UPLOAD_MODE, 0);
    assert_eq!(
        ses.get_torrent_flags(id2).unwrap() & flags::UPLOAD_MODE,
        flags::UPLOAD_MODE
    );
}

#[test]
fn num_peers_excludes_half_open_connections() {
    let mut t = TorrentController::new(1, small_info("c3", 2), "/".to_string(), 0, 0, 2);
    let mut c = CountersAggregator::new();
    t.add_peer(flags::SOURCE_TRACKER, true);
    t.add_peer(flags::SOURCE_DHT, false);
    t.peer_connected(0);
    t.peer_handshake(0, true, &mut c);
    // one established, one still half-open
    let st = t.status();
    assert_eq!(st.num_peers, 1);
    assert_eq!(st.num_connections, 2);
}
