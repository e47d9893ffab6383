use libtorrent_rasterbar::announce_entry::backoff_delay;
use libtorrent_rasterbar::announce_entry::next_tracker_to_announce;
use libtorrent_rasterbar::announce_entry::AnnounceEndpoint;
use libtorrent_rasterbar::announce_entry::AnnounceEntry;
use libtorrent_rasterbar::announce_entry::AnnounceInfoHash;
use libtorrent_rasterbar::flags;

fn entry_with_endpoint(url: &str, tier: u8, fail_limit: u8) -> AnnounceEntry {
    let mut e = AnnounceEntry::new(url.to_string(), tier, flags::TRACKER_SOURCE_TORRENT);
    e.fail_limit = fail_limit;
    e.endpoints.push(AnnounceEndpoint::new("0.0.0.0:6881".to_string(), 1));
    e
}

#[test]
fn fail_limit_parks_tracker_and_force_reannounce_unparks() {
    let mut e = entry_with_endpoint("http://tr.example/announce", 0, 3);
    assert!(e.announceable(100));
    // three consecutive announce failures park the tracker
    for k in 0..3 {
        let a = &mut e.endpoints[0].info_hashes[0];
        a.on_announce_failure(100 + k, 10, format!("refused"));
    }
    assert_eq!(e.endpoints[0].info_hashes[0].fails, 3);
    // well past the backoff, the tracker still may not announce: it is parked
    assert!(!e.announceable(100_000));
    // a forced re-announce un-parks it regardless of the failure streak
    e.force_reannounce_all(100_000);
    assert_eq!(e.endpoints[0].info_hashes[0].fails, 3);
    assert!(e.announceable(100_000));
}

#[test]
fn fail_limit_zero_means_unlimited_retries() {
    let mut e = entry_with_endpoint("http://tr.example/announce", 0, 0);
    for k in 0..200 {
        let a = &mut e.endpoints[0].info_hashes[0];
        a.on_announce_failure(k, 1, format!("down"));
    }
    assert!(e.announceable(100_000));
}

#[test]
fn scrape_unparks_without_touching_schedule() {
    let mut e = entry_with_endpoint("http://tr.example/announce", 0, 1);
    {
        let a = &mut e.endpoints[0].info_hashes[0];
        a.on_announce_failure(50, 25, format!("timeout"));
    }
    assert!(!e.announceable(100_000));
    e.scrape_all();
    let a = &e.endpoints[0].info_hashes[0];
    assert!(a.triggered_manually);
    assert_eq!(a.next_announce, 75);
    assert!(e.announceable(100_000));
}

#[test]
fn announce_success_resets_and_latches() {
    let mut a = AnnounceInfoHash::new();
    a.on_announce_failure(10, 30, format!("oops"));
    assert_eq!(a.fails, 1);
    assert_eq!(a.next_announce, 40);
    a.begin_announce(45, 0);
    assert!(a.updating);
    a.on_announce_success(60, 1800, 60, Some((5, 12, 99)), true, false);
    assert_eq!(a.fails, 0);
    assert!(!a.updating);
    assert_eq!(a.next_announce, 60 + 1800);
    assert_eq!(a.min_announce, 60 + 60);
    assert_eq!(a.scrape_incomplete, 5);
    assert_eq!(a.scrape_complete, 12);
    assert_eq!(a.scrape_downloaded, 99);
    assert!(a.start_sent);
    assert!(!a.complete_sent);
    // the started latch is one-shot: it never clears on later successes
    a.on_announce_success(120, 1800, 60, None, false, true);
    assert!(a.start_sent);
    assert!(a.complete_sent);
    assert_eq!(a.scrape_incomplete, 5);
}

#[test]
fn tier_selection_prefers_lower_tiers_then_list_order() {
    let mut trackers: Vec<AnnounceEntry> = Vec::new();
    trackers.push(entry_with_endpoint("http://a/ann", 1, 0));
    trackers.push(entry_with_endpoint("http://b/ann", 0, 0));
    trackers.push(entry_with_endpoint("http://c/ann", 0, 0));
    // lowest tier wins; within the tier the first in list order
    assert_eq!(next_tracker_to_announce(&trackers, 10), Some(1));
    // park the tier-0 entries: the tier-1 entry is reached only then
    trackers[1].fail_limit = 1;
    trackers[1].endpoints[0].info_hashes[0].on_announce_failure(10, 5, format!("x"));
    trackers[2].fail_limit = 1;
    trackers[2].endpoints[0].info_hashes[0].on_announce_failure(10, 5, format!("x"));
    assert_eq!(next_tracker_to_announce(&trackers, 1000), Some(0));
}

#[test]
fn backoff_doubles_and_is_bounded() {
    assert_eq!(backoff_delay(60, 3600, 0), 60);
    assert_eq!(backoff_delay(60, 3600, 1), 120);
    assert_eq!(backoff_delay(60, 3600, 2), 240);
    assert_eq!(backoff_delay(60, 3600, 5), 1920);
    assert_eq!(backoff_delay(60, 3600, 6), 3600);
    assert_eq!(backoff_delay(60, 3600, 200), 3600);
}

#[test]
fn mask_form_replaces_exactly_the_masked_bits() {
    // a known starting pattern: paused set, auto-managed clear, and a few
    // unrelated bits set
    let w = flags::PAUSED | flags::SEQUENTIAL_DOWNLOAD | flags::UPLOAD_MODE
        | flags::NEED_SAVE_RESUME;
    let r = flags::set_flags_with_mask_word(
        w,
        flags::AUTO_MANAGED,
        flags::AUTO_MANAGED | flags::PAUSED,
    );
    // paused cleared, auto-managed set
    assert_eq!(r & flags::PAUSED, 0);
    assert_eq!(r & flags::AUTO_MANAGED, flags::AUTO_MANAGED);
    // every bit outside the mask is exactly as it was
    let mask = flags::AUTO_MANAGED | flags::PAUSED;
    assert_eq!(r & !mask, w & !mask);
    assert_eq!(
        r,
        flags::SEQUENTIAL_DOWNLOAD | flags::UPLOAD_MODE | flags::NEED_SAVE_RESUME
            | flags::AUTO_MANAGED
    );
}

#[test]
fn set_and_unset_leave_other_bits_alone() {
    let w = flags::SEED_MODE | flags::PAUSED;
    assert_eq!(
        flags::set_flags_word(w, flags::SUPER_SEEDING),
        flags::SEED_MODE | flags::PAUSED | flags::SUPER_SEEDING
    );
    assert_eq!(flags::unset_flags_word(w, flags::PAUSED), flags::SEED_MODE);
}

#[test]
fn flag_constants_match_their_bit_positions() {
    assert_eq!(flags::SEED_MODE, 1 << 0);
    assert_eq!(flags::UPLOAD_MODE, 1 << 1);
    assert_eq!(flags::PAUSED, 1 << 4);
    assert_eq!(flags::AUTO_MANAGED, 1 << 5);
    assert_eq!(flags::DUPLICATE_IS_ERROR, 1 << 6);
    assert_eq!(flags::SEQUENTIAL_DOWNLOAD, 1 << 9);
    assert_eq!(flags::STOP_WHEN_READY, 1 << 10);
    assert_eq!(flags::I2P_TORRENT, 1 << 24);
    assert_eq!(flags::SAVE_DHT_STATE, 1 << 2);
    assert_eq!(flags::GRACEFUL_PAUSE, 1);
}

#[test]
fn min_announce_floor_gates_announces() {
    let mut e = entry_with_endpoint("http://tr.example/announce", 0, 0);
    {
        let a = &mut e.endpoints[0].info_hashes[0];
        a.on_announce_success(100, 1800, 300, None, true, false);
    }
    // scheduled at 1900, floored at 400: neither time has passed at 200
    assert!(!e.announceable(200));
    // past the floor but before the schedule: still not announceable
    assert!(!e.announceable(500));
    assert!(e.announceable(1900));
}

#[test]
fn disabled_endpoint_does_not_announce() {
    let mut e = entry_with_endpoint("http://tr.example/announce", 0, 0);
    e.endpoints[0].enabled = false;
    assert!(!e.announceable(100));
}
