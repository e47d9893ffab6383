//! Trackers: announce entries and the per-endpoint announce state machine.
//!
//! A torrent announces to each tracker from every listen endpoint, and for
//! each protocol version's info-hash. Announces back off on failure; once a
//! tracker has failed `fail_limit` times in a row (a nonzero limit) it is
//! parked — skipped by tier selection — until a forced re-announce. Lower
//! tiers are tried before higher ones.

use vstd::prelude::*;

use crate::errors::EngineError;
use crate::flags;

verus! {

/// Announce state for one info-hash of one (tracker, endpoint) pair.
#[derive(Debug)]
pub struct AnnounceInfoHash {
    /// An error or warning message returned by this tracker, if any.
    pub message: String,
    /// The error of the last failed contact with this tracker, if any.
    pub last_error: String,
    /// The time of the next tracker announce.
    pub next_announce: i64,
    /// No announces before this time.
    pub min_announce: i64,
    /// Scrape data as last reported by this tracker, or -1 when absent:
    /// current downloaders, current seeds, and cumulative completed
    /// downloads.
    pub scrape_incomplete: i32,
    pub scrape_complete: i32,
    pub scrape_downloaded: i32,
    /// How many times in a row announcing to this tracker has failed.
    pub fails: u8,
    /// True while an announce is in flight to this tracker.
    pub updating: bool,
    /// One-shot latch: a tracker acknowledged the started event, so it is
    /// never re-sent for the life of the session.
    pub start_sent: bool,
    /// One-shot latch: a tracker acknowledged the completed event.
    pub complete_sent: bool,
    /// Set by a forced re-announce; overrides the fail limit once.
    pub triggered_manually: bool,
}

/// Announce state of one tracker as seen from one listen endpoint.
#[derive(Debug)]
pub struct AnnounceEndpoint {
    /// The local listen interface this endpoint announces from.
    pub local_endpoint: String,
    /// One announce state per protocol version's info-hash.
    pub info_hashes: Vec<AnnounceInfoHash>,
    /// Set to false to not announce from this endpoint.
    pub enabled: bool,
}

/// One tracker of one torrent.
#[derive(Debug)]
pub struct AnnounceEntry {
    /// The tracker URL as it appeared in the torrent file or add call.
    pub url: String,
    /// The trackerid argument passed to the tracker, normally empty.
    pub trackerid: String,
    /// Announce state per listen endpoint.
    pub endpoints: Vec<AnnounceEndpoint>,
    /// The tier this tracker belongs to; lower tiers are tried first.
    pub tier: u8,
    /// Failures in a row before the tracker is parked; 0 means unlimited
    /// retries.
    pub fail_limit: u8,
    /// Where this tracker was learned from (a bitmask of tracker sources).
    pub source: u8,
    /// True once a valid response has been received from this tracker.
    pub verified: bool,
}

/// A tracker state is parked when a nonzero fail limit has been reached and
/// no forced re-announce is pending: it is skipped by tier selection.
pub open spec fn parked(a: AnnounceInfoHash, fail_limit: u8) -> bool {
    fail_limit > 0 && a.fails >= fail_limit && !a.triggered_manually
}

/// An announce may start now: none is in flight, the scheduled time and the
/// minimum-interval floor have both passed, and the tracker is not parked.
pub open spec fn can_announce(a: AnnounceInfoHash, now: i64, fail_limit: u8) -> bool {
    &&& !a.updating
    &&& now >= a.next_announce
    &&& now >= a.min_announce
    &&& !parked(a, fail_limit)
}

impl AnnounceInfoHash {
    /// A fresh announce state: due immediately, never failed, no scrape data.
    pub fn new() -> (r: AnnounceInfoHash)
        ensures
            r.message@.len() == 0,
            r.last_error@.len() == 0,
            r.next_announce == 0,
            r.min_announce == 0,
            r.scrape_incomplete == -1,
            r.scrape_complete == -1,
            r.scrape_downloaded == -1,
            r.fails == 0,
            !r.updating,
            !r.start_sent,
            !r.complete_sent,
            !r.triggered_manually,
    {
        AnnounceInfoHash {
            message: String::new(),
            last_error: String::new(),
            next_announce: 0,
            min_announce: 0,
            scrape_incomplete: -1,
            scrape_complete: -1,
            scrape_downloaded: -1,
            fails: 0,
            updating: false,
            start_sent: false,
            complete_sent: false,
            triggered_manually: false,
        }
    }

    /// Marks an announce as started. It may begin only when `can_announce`
    /// holds: none is in flight, the scheduled time and the minimum-interval
    /// floor have passed, and the tracker is not parked — so a state that is
    /// updating always belonged to a permitted announce when it began.
    /// `can_announce` is false while the announce is in flight.
    pub fn begin_announce(&mut self, now: i64, fail_limit: u8)
        requires
            can_announce(*old(self), now, fail_limit),
        ensures
            final(self).updating,
            final(self).fails == old(self).fails,
            final(self).next_announce == old(self).next_announce,
            final(self).min_announce == old(self).min_announce,
            final(self).start_sent == old(self).start_sent,
            final(self).complete_sent == old(self).complete_sent,
            final(self).triggered_manually == old(self).triggered_manually,
            final(self).scrape_incomplete == old(self).scrape_incomplete,
            final(self).scrape_complete == old(self).scrape_complete,
            final(self).scrape_downloaded == old(self).scrape_downloaded,
            final(self).message@ == old(self).message@,
            final(self).last_error@ == old(self).last_error@,
    {
        self.updating = true;
    }

    /// Applies a successful announce response: the failure streak resets,
    /// the next announce is scheduled from the server-provided interval and
    /// floor, scrape numbers are taken when present, the one-shot event
    /// latches absorb what the tracker acknowledged, and a pending manual
    /// trigger is consumed.
    pub fn on_announce_success(
        &mut self,
        now: i64,
        interval: i64,
        min_interval: i64,
        scrape: Option<(i32, i32, i32)>,
        started_acked: bool,
        completed_acked: bool,
    )
        requires
            0 <= now,
            0 <= interval,
            0 <= min_interval <= interval,
            now + interval <= i64::MAX,
        ensures
            final(self).fails == 0,
            !final(self).updating,
            final(self).next_announce == now + interval,
            final(self).min_announce == now + min_interval,
            final(self).start_sent == (old(self).start_sent || started_acked),
            final(self).complete_sent == (old(self).complete_sent || completed_acked),
            !final(self).triggered_manually,
            final(self).last_error@.len() == 0,
            match scrape {
                Some(s) => final(self).scrape_incomplete == s.0 && final(self).scrape_complete
                    == s.1 && final(self).scrape_downloaded == s.2,
                None => {
                    &&& final(self).scrape_incomplete == old(self).scrape_incomplete
                    &&& final(self).scrape_complete == old(self).scrape_complete
                    &&& final(self).scrape_downloaded == old(self).scrape_downloaded
                },
            },
            final(self).message@ == old(self).message@,
    {
        self.fails = 0;
        self.updating = false;
        self.next_announce = now + interval;
        self.min_announce = now + min_interval;
        self.start_sent = self.start_sent || started_acked;
        self.complete_sent = self.complete_sent || completed_acked;
        self.triggered_manually = false;
        self.last_error = String::new();
        match scrape {
            Some(s) => {
                self.scrape_incomplete = s.0;
                self.scrape_complete = s.1;
                self.scrape_downloaded = s.2;
            },
            None => {},
        }
    }

    /// Applies a failed announce: the failure streak grows by one (clamped
    /// at its top), the error is recorded, the next try is scheduled after
    /// the caller's backoff delay, and a pending manual trigger is consumed.
    pub fn on_announce_failure(&mut self, now: i64, backoff_delay: i64, error: String)
        requires
            0 <= now,
            0 <= backoff_delay,
            now + backoff_delay <= i64::MAX,
        ensures
            final(self).fails == (if old(self).fails < u8::MAX {
                (old(self).fails + 1) as u8
            } else {
                u8::MAX
            }),
            !final(self).updating,
            final(self).next_announce == now + backoff_delay,
            final(self).last_error@ == error@,
            !final(self).triggered_manually,
            final(self).min_announce == old(self).min_announce,
            final(self).start_sent == old(self).start_sent,
            final(self).complete_sent == old(self).complete_sent,
            final(self).scrape_incomplete == old(self).scrape_incomplete,
            final(self).scrape_complete == old(self).scrape_complete,
            final(self).scrape_downloaded == old(self).scrape_downloaded,
            final(self).message@ == old(self).message@,
    {
        if self.fails < u8::MAX {
            self.fails = self.fails + 1;
        }
        self.updating = false;
        self.next_announce = now + backoff_delay;
        self.last_error = error;
        self.triggered_manually = false;
    }

    /// Forces the next announce: due now, and the manual trigger set so a
    /// parked tracker is tried again regardless of its failure streak.
    pub fn force_reannounce(&mut self, now: i64)
        ensures
            final(self).next_announce == now,
            final(self).min_announce == now,
            final(self).triggered_manually,
            final(self).fails == old(self).fails,
            final(self).updating == old(self).updating,
            final(self).start_sent == old(self).start_sent,
            final(self).complete_sent == old(self).complete_sent,
            final(self).scrape_incomplete == old(self).scrape_incomplete,
            final(self).scrape_complete == old(self).scrape_complete,
            final(self).scrape_downloaded == old(self).scrape_downloaded,
            final(self).message@ == old(self).message@,
            final(self).last_error@ == old(self).last_error@,
    {
        self.next_announce = now;
        self.min_announce = now;
        self.triggered_manually = true;
    }
}

impl AnnounceEntry {
    /// Applies a successful announce response at one endpoint's announce
    /// state, and marks the whole entry verified — the first valid response
    /// from a tracker proves it real. The failure streak of that state
    /// resets, its next announce is scheduled from the server's interval and
    /// floor, scrape numbers are taken when present, and the one-shot event
    /// latches absorb what the tracker acknowledged. Fails exactly on an
    /// endpoint or state index out of range, and then changes nothing.
    pub fn on_announce_success_at(
        &mut self,
        e: usize,
        i: usize,
        now: i64,
        interval: i64,
        min_interval: i64,
        scrape: Option<(i32, i32, i32)>,
        started_acked: bool,
        completed_acked: bool,
    ) -> (r: Result<(), EngineError>)
        requires
            0 <= now,
            0 <= interval,
            0 <= min_interval <= interval,
            now + interval <= i64::MAX,
        ensures
            r is Ok <==> (e < old(self).endpoints@.len() && i < old(
                self,
            ).endpoints@[e as int].info_hashes@.len()),
            r is Err ==> *final(self) == *old(self),
            r is Ok ==> {
                &&& final(self).verified
                &&& final(self).url@ == old(self).url@
                &&& final(self).trackerid@ == old(self).trackerid@
                &&& final(self).tier == old(self).tier
                &&& final(self).fail_limit == old(self).fail_limit
                &&& final(self).source == old(self).source
                &&& final(self).endpoints@.len() == old(self).endpoints@.len()
                &&& forall|e2: int| 0 <= e2 < old(self).endpoints@.len() && e2 != e
                    ==> #[trigger] final(self).endpoints@[e2] == old(self).endpoints@[e2]
                &&& final(self).endpoints@[e as int].local_endpoint@
                    == old(self).endpoints@[e as int].local_endpoint@
                &&& final(self).endpoints@[e as int].enabled
                    == old(self).endpoints@[e as int].enabled
                &&& final(self).endpoints@[e as int].info_hashes@.len()
                    == old(self).endpoints@[e as int].info_hashes@.len()
                &&& forall|i2: int|
                    0 <= i2 < old(self).endpoints@[e as int].info_hashes@.len() && i2 != i
                        ==> #[trigger] final(self).endpoints@[e as int].info_hashes@[i2]
                        == old(self).endpoints@[e as int].info_hashes@[i2]
                &&& ({
                    let oa = old(self).endpoints@[e as int].info_hashes@[i as int];
                    let na = final(self).endpoints@[e as int].info_hashes@[i as int];
                    &&& na.fails == 0
                    &&& !na.updating
                    &&& na.next_announce == now + interval
                    &&& na.min_announce == now + min_interval
                    &&& na.start_sent == (oa.start_sent || started_acked)
                    &&& na.complete_sent == (oa.complete_sent || completed_acked)
                    &&& !na.triggered_manually
                    &&& na.last_error@.len() == 0
                    &&& (match scrape {
                        Some(sc) => na.scrape_incomplete == sc.0 && na.scrape_complete == sc.1
                            && na.scrape_downloaded == sc.2,
                        None => {
                            &&& na.scrape_incomplete == oa.scrape_incomplete
                            &&& na.scrape_complete == oa.scrape_complete
                            &&& na.scrape_downloaded == oa.scrape_downloaded
                        },
                    })
                })
            },
    {
        if e >= self.endpoints.len() {
            return Err(EngineError::InvalidIndex);
        }
        if i >= self.endpoints[e].info_hashes.len() {
            return Err(EngineError::InvalidIndex);
        }
        let ep = &mut self.endpoints[e];
        let a = &mut ep.info_hashes[i];
        a.on_announce_success(now, interval, min_interval, scrape, started_acked, completed_acked);
        self.verified = true;
        Ok(())
    }
}

/// The exponential, bounded backoff delay after `fails` failures in a row:
/// `base` doubled once per failure, never above `cap`.
pub open spec fn backoff_spec(base: i64, cap: i64, fails: int) -> int
    decreases fails,
{
    if fails <= 0 {
        base as int
    } else {
        let p = backoff_spec(base, cap, fails - 1);
        if p * 2 > cap {
            cap as int
        } else {
            p * 2
        }
    }
}

/// Computes the bounded exponential backoff delay.
pub fn backoff_delay(base: i64, cap: i64, fails: u8) -> (r: i64)
    requires
        0 < base <= cap,
    ensures
        r as int == backoff_spec(base, cap, fails as int),
        base <= r <= cap,
{
    proof {
        lemma_backoff_bounds(base, cap, fails as int);
    }
    let mut d: i64 = base;
    let mut i: u8 = 0;
    while i < fails
        invariant
            i <= fails,
            0 < base <= cap,
            d as int == backoff_spec(base, cap, i as int),
            base <= d <= cap,
        decreases fails - i,
    {
        if d > cap - d {
            d = cap;
        } else {
            d = d * 2;
        }
        proof {
            lemma_backoff_bounds(base, cap, i + 1 as int);
        }
        i = i + 1;
    }
    d
}

/// The backoff delay always stays between `base` and `cap`.
pub proof fn lemma_backoff_bounds(base: i64, cap: i64, fails: int)
    requires
        0 < base <= cap,
    ensures
        base <= backoff_spec(base, cap, fails) <= cap,
    decreases (if fails >= 0 {
        fails
    } else {
        0
    }),
{
    if fails > 0 {
        lemma_backoff_bounds(base, cap, fails - 1);
    }
}

impl AnnounceEndpoint {
    /// A fresh endpoint with one announce state per requested info-hash.
    pub fn new(local_endpoint: String, num_hashes: usize) -> (r: AnnounceEndpoint)
        ensures
            r.local_endpoint@ == local_endpoint@,
            r.enabled,
            r.info_hashes@.len() == num_hashes,
            forall|i: int| 0 <= i < num_hashes
                ==> (#[trigger] r.info_hashes@[i]).fails == 0 && !r.info_hashes@[i].updating
                    && !r.info_hashes@[i].triggered_manually && r.info_hashes@[i].next_announce
                    == 0 && !r.info_hashes@[i].start_sent && !r.info_hashes@[i].complete_sent,
    {
        let mut info_hashes: Vec<AnnounceInfoHash> = Vec::new();
        let mut i: usize = 0;
        while i < num_hashes
            invariant
                i <= num_hashes,
                info_hashes@.len() == i,
                forall|j: int| 0 <= j < i
                    ==> (#[trigger] info_hashes@[j]).fails == 0 && !info_hashes@[j].updating
                        && !info_hashes@[j].triggered_manually && info_hashes@[j].next_announce
                        == 0 && !info_hashes@[j].start_sent && !info_hashes@[j].complete_sent,
            decreases num_hashes - i,
        {
            info_hashes.push(AnnounceInfoHash::new());
            i = i + 1;
        }
        AnnounceEndpoint { local_endpoint, info_hashes, enabled: true }
    }
}

/// What a forced re-announce does to one tracker entry: every info-hash of
/// every endpoint becomes due now with its manual trigger set; everything
/// else is untouched.
pub open spec fn entry_forced(o: AnnounceEntry, n: AnnounceEntry, now: i64) -> bool {
    &&& n.url@ == o.url@
    &&& n.trackerid@ == o.trackerid@
    &&& n.tier == o.tier
    &&& n.fail_limit == o.fail_limit
    &&& n.source == o.source
    &&& n.verified == o.verified
    &&& n.endpoints@.len() == o.endpoints@.len()
    &&& forall|e: int| 0 <= e < o.endpoints@.len() ==> {
        &&& (#[trigger] n.endpoints@[e]).local_endpoint@ == o.endpoints@[e].local_endpoint@
        &&& n.endpoints@[e].enabled == o.endpoints@[e].enabled
        &&& n.endpoints@[e].info_hashes@.len() == o.endpoints@[e].info_hashes@.len()
        &&& forall|i: int| 0 <= i < o.endpoints@[e].info_hashes@.len() ==> {
            let oa = o.endpoints@[e].info_hashes@[i];
            let na = #[trigger] n.endpoints@[e].info_hashes@[i];
            &&& na.next_announce == now
            &&& na.min_announce == now
            &&& na.triggered_manually
            &&& na.fails == oa.fails
            &&& na.updating == oa.updating
            &&& na.start_sent == oa.start_sent
            &&& na.complete_sent == oa.complete_sent
        }
    }
}

impl AnnounceEntry {
    /// A fresh tracker entry with no endpoints yet.
    pub fn new(url: String, tier: u8, source: u8) -> (r: AnnounceEntry)
        ensures
            r.url@ == url@,
            r.trackerid@.len() == 0,
            r.endpoints@.len() == 0,
            r.tier == tier,
            r.fail_limit == 0,
            r.source == source,
            !r.verified,
    {
        AnnounceEntry {
            url,
            trackerid: String::new(),
            endpoints: Vec::new(),
            tier,
            fail_limit: 0,
            source,
            verified: false,
        }
    }

    /// A tracker entry for a tracker added programmatically.
    pub fn from_client(url: String, tier: u8) -> (r: AnnounceEntry)
        ensures
            r.url@ == url@,
            r.tier == tier,
            r.source == flags::TRACKER_SOURCE_CLIENT,
            r.endpoints@.len() == 0,
            r.fail_limit == 0,
            !r.verified,
    {
        AnnounceEntry::new(url, tier, flags::TRACKER_SOURCE_CLIENT)
    }

    /// This entry may announce now from some enabled endpoint.
    pub open spec fn announceable_spec(self, now: i64) -> bool {
        exists|e: int, i: int|
            0 <= e < self.endpoints@.len() && 0 <= i < self.endpoints@[e].info_hashes@.len()
                && self.endpoints@[e].enabled && #[trigger] can_announce(
                self.endpoints@[e].info_hashes@[i],
                now,
                self.fail_limit,
            )
    }

    /// True when this entry may announce now from some enabled endpoint.
    pub fn announceable(&self, now: i64) -> (r: bool)
        ensures
            r == self.announceable_spec(now),
    {
        let mut e: usize = 0;
        while e < self.endpoints.len()
            invariant
                e <= self.endpoints@.len(),
                forall|e2: int, i2: int|
                    0 <= e2 < e && 0 <= i2 < self.endpoints@[e2].info_hashes@.len()
                        ==> !(self.endpoints@[e2].enabled && can_announce(
                        #[trigger] self.endpoints@[e2].info_hashes@[i2],
                        now,
                        self.fail_limit,
                    )),
            decreases self.endpoints@.len() - e,
        {
            if self.endpoints[e].enabled {
                let ep = &self.endpoints[e];
                let mut i: usize = 0;
                while i < ep.info_hashes.len()
                    invariant
                        i <= ep.info_hashes@.len(),
                        ep == self.endpoints@[e as int],
                        e < self.endpoints@.len(),
                        ep.enabled,
                        forall|i2: int| 0 <= i2 < i ==> !can_announce(
                            #[trigger] ep.info_hashes@[i2],
                            now,
                            self.fail_limit,
                        ),
                    decreases ep.info_hashes@.len() - i,
                {
                    let a = &ep.info_hashes[i];
                    let not_parked = self.fail_limit == 0 || a.fails < self.fail_limit
                        || a.triggered_manually;
                    if !a.updating && now >= a.next_announce && now >= a.min_announce
                        && not_parked {
                        proof {
                            assert(can_announce(ep.info_hashes@[i as int], now, self.fail_limit));
                            assert(self.announceable_spec(now));
                        }
                        return true;
                    }
                    i = i + 1;
                }
            }
            e = e + 1;
        }
        proof {
            if self.announceable_spec(now) {
                let (e2, i2) = choose|e2: int, i2: int|
                    0 <= e2 < self.endpoints@.len() && 0 <= i2
                        < self.endpoints@[e2].info_hashes@.len() && self.endpoints@[e2].enabled
                        && #[trigger] can_announce(
                        self.endpoints@[e2].info_hashes@[i2],
                        now,
                        self.fail_limit,
                    );
                assert(false);
            }
        }
        false
    }

    /// Forces the next announce of every info-hash of every endpoint: each
    /// becomes due now with its manual trigger set, un-parking the tracker
    /// regardless of its failure streak.
    pub fn force_reannounce_all(&mut self, now: i64)
        ensures
            entry_forced(*old(self), *final(self), now),
    {
        let ne = self.endpoints.len();
        let mut e: usize = 0;
        while e < ne
            invariant
                e <= ne,
                self.endpoints@.len() == ne,
                ne == old(self).endpoints@.len(),
                self.url@ == old(self).url@,
                self.trackerid@ == old(self).trackerid@,
                self.tier == old(self).tier,
                self.fail_limit == old(self).fail_limit,
                self.source == old(self).source,
                self.verified == old(self).verified,
                forall|e2: int| e <= e2 < ne
                    ==> #[trigger] self.endpoints@[e2] == old(self).endpoints@[e2],
                forall|e2: int| 0 <= e2 < e ==> {
                    &&& (#[trigger] self.endpoints@[e2]).local_endpoint@
                        == old(self).endpoints@[e2].local_endpoint@
                    &&& self.endpoints@[e2].enabled == old(self).endpoints@[e2].enabled
                    &&& self.endpoints@[e2].info_hashes@.len()
                        == old(self).endpoints@[e2].info_hashes@.len()
                    &&& forall|i: int| 0 <= i < old(self).endpoints@[e2].info_hashes@.len() ==> {
                        let oa = old(self).endpoints@[e2].info_hashes@[i];
                        let na = #[trigger] self.endpoints@[e2].info_hashes@[i];
                        &&& na.next_announce == now
                        &&& na.min_announce == now
                        &&& na.triggered_manually
                        &&& na.fails == oa.fails
                        &&& na.updating == oa.updating
                        &&& na.start_sent == oa.start_sent
                        &&& na.complete_sent == oa.complete_sent
                    }
                },
            decreases ne - e,
        {
            let ghost pre = *self;
            let ep = &mut self.endpoints[e];
            let ghost ep0 = *ep;
            let ni = ep.info_hashes.len();
            let mut i: usize = 0;
            while i < ni
                invariant
                    i <= ni,
                    ep.info_hashes@.len() == ni,
                    ep.local_endpoint@ == ep0.local_endpoint@,
                    ep.enabled == ep0.enabled,
                    ni == ep0.info_hashes@.len(),
                    forall|i2: int| i <= i2 < ni
                        ==> #[trigger] ep.info_hashes@[i2] == ep0.info_hashes@[i2],
                    forall|i2: int| 0 <= i2 < i ==> {
                        let oa = ep0.info_hashes@[i2];
                        let na = #[trigger] ep.info_hashes@[i2];
                        &&& na.next_announce == now
                        &&& na.min_announce == now
                        &&& na.triggered_manually
                        &&& na.fails == oa.fails
                        &&& na.updating == oa.updating
                        &&& na.start_sent == oa.start_sent
                        &&& na.complete_sent == oa.complete_sent
                    },
                decreases ni - i,
            {
                let a = &mut ep.info_hashes[i];
                a.force_reannounce(now);
                i = i + 1;
            }
            proof {
                assert forall|e2: int| 0 <= e2 < e + 1 implies {
                    &&& (#[trigger] self.endpoints@[e2]).local_endpoint@
                        == old(self).endpoints@[e2].local_endpoint@
                    &&& self.endpoints@[e2].enabled == old(self).endpoints@[e2].enabled
                    &&& self.endpoints@[e2].info_hashes@.len()
                        == old(self).endpoints@[e2].info_hashes@.len()
                    &&& forall|i2: int| 0 <= i2 < old(self).endpoints@[e2].info_hashes@.len()
                        ==> {
                        let oa = old(self).endpoints@[e2].info_hashes@[i2];
                        let na = #[trigger] self.endpoints@[e2].info_hashes@[i2];
                        &&& na.next_announce == now
                        &&& na.min_announce == now
                        &&& na.triggered_manually
                        &&& na.fails == oa.fails
                        &&& na.updating == oa.updating
                        &&& na.start_sent == oa.start_sent
                        &&& na.complete_sent == oa.complete_sent
                    }
                } by {
                    if e2 < e as int {
                        assert(self.endpoints@[e2] == pre.endpoints@[e2]);
                    } else {
                        assert(pre.endpoints@[e2] == old(self).endpoints@[e2]);
                    }
                }
            }
            e = e + 1;
        }
    }
}

/// Law: the fail limit parks a tracker, and a forced re-announce un-parks
/// it regardless of the failure streak. With a nonzero limit, a tracker
/// whose streak has reached the limit and that has no manual trigger cannot
/// announce; once the manual trigger is set and the announce is due, it can
/// announce again, whatever `fails` holds.
pub proof fn lemma_fail_limit_parks_and_force_unparks(
    a: AnnounceInfoHash,
    f: AnnounceInfoHash,
    fail_limit: u8,
    now: i64,
)
    requires
        fail_limit > 0,
        a.fails >= fail_limit,
        !a.triggered_manually,
        f.triggered_manually,
        !f.updating,
        now >= f.next_announce,
        now >= f.min_announce,
    ensures
        parked(a, fail_limit),
        !can_announce(a, now, fail_limit),
        !parked(f, fail_limit),
        can_announce(f, now, fail_limit),
{
}

/// The tracker to try next: among the entries that may announce now, the
/// one of the lowest tier, and of those the first in list order — a torrent
/// advances tiers only after exhausting a tier.
pub fn next_tracker_to_announce(trackers: &Vec<AnnounceEntry>, now: i64) -> (r: Option<usize>)
    ensures
        match r {
            Some(k) => k < trackers@.len() && trackers@[k as int].announceable_spec(now)
                && forall|j: int| 0 <= j < trackers@.len()
                    && (#[trigger] trackers@[j]).announceable_spec(now)
                    ==> (trackers@[k as int].tier < trackers@[j].tier || (trackers@[k as int].tier
                        == trackers@[j].tier && k <= j)),
            None => forall|j: int| 0 <= j < trackers@.len()
                ==> !(#[trigger] trackers@[j]).announceable_spec(now),
        },
{
    let mut best: Option<usize> = None;
    let mut j: usize = 0;
    while j < trackers.len()
        invariant
            j <= trackers@.len(),
            match best {
                Some(k) => k < j && trackers@[k as int].announceable_spec(now)
                    && forall|j2: int| 0 <= j2 < j
                        && (#[trigger] trackers@[j2]).announceable_spec(now)
                        ==> (trackers@[k as int].tier < trackers@[j2].tier
                            || (trackers@[k as int].tier == trackers@[j2].tier && k <= j2)),
                None => forall|j2: int| 0 <= j2 < j
                    ==> !(#[trigger] trackers@[j2]).announceable_spec(now),
            },
        decreases trackers@.len() - j,
    {
        if trackers[j].announceable(now) {
            match best {
                Some(k) => {
                    if trackers[j].tier < trackers[k].tier {
                        best = Some(j);
                    }
                },
                None => {
                    best = Some(j);
                },
            }
        }
        j = j + 1;
    }
    best
}

} // verus!

verus! {

impl AnnounceInfoHash {
    /// Marks this announce state as manually triggered, as a scrape request
    /// does: a parked tracker becomes eligible again without changing its
    /// schedule.
    pub fn mark_scraped(&mut self)
        ensures
            final(self).triggered_manually,
            final(self).next_announce == old(self).next_announce,
            final(self).min_announce == old(self).min_announce,
            final(self).fails == old(self).fails,
            final(self).updating == old(self).updating,
            final(self).start_sent == old(self).start_sent,
            final(self).complete_sent == old(self).complete_sent,
            final(self).scrape_incomplete == old(self).scrape_incomplete,
            final(self).scrape_complete == old(self).scrape_complete,
            final(self).scrape_downloaded == old(self).scrape_downloaded,
            final(self).message@ == old(self).message@,
            final(self).last_error@ == old(self).last_error@,
    {
        self.triggered_manually = true;
    }
}

/// What a scrape request does to one tracker entry: every info-hash of
/// every endpoint gets its manual trigger set — un-parking the tracker —
/// with its schedule untouched.
pub open spec fn entry_scraped(o: AnnounceEntry, n: AnnounceEntry) -> bool {
    &&& n.url@ == o.url@
    &&& n.trackerid@ == o.trackerid@
    &&& n.tier == o.tier
    &&& n.fail_limit == o.fail_limit
    &&& n.source == o.source
    &&& n.verified == o.verified
    &&& n.endpoints@.len() == o.endpoints@.len()
    &&& forall|e: int| 0 <= e < o.endpoints@.len() ==> {
        &&& (#[trigger] n.endpoints@[e]).local_endpoint@ == o.endpoints@[e].local_endpoint@
        &&& n.endpoints@[e].enabled == o.endpoints@[e].enabled
        &&& n.endpoints@[e].info_hashes@.len() == o.endpoints@[e].info_hashes@.len()
        &&& forall|i: int| 0 <= i < o.endpoints@[e].info_hashes@.len() ==> {
            let oa = o.endpoints@[e].info_hashes@[i];
            let na = #[trigger] n.endpoints@[e].info_hashes@[i];
            &&& na.triggered_manually
            &&& na.next_announce == oa.next_announce
            &&& na.min_announce == oa.min_announce
            &&& na.fails == oa.fails
            &&& na.updating == oa.updating
            &&& na.start_sent == oa.start_sent
            &&& na.complete_sent == oa.complete_sent
        }
    }
}

impl AnnounceEntry {
    /// Requests a scrape of this tracker: every info-hash of every endpoint
    /// gets its manual trigger set, so a parked tracker becomes eligible
    /// again; the announce schedule itself is untouched.
    pub fn scrape_all(&mut self)
        ensures
            entry_scraped(*old(self), *final(self)),
    {
        let ne = self.endpoints.len();
        let mut e: usize = 0;
        while e < ne
            invariant
                e <= ne,
                self.endpoints@.len() == ne,
                ne == old(self).endpoints@.len(),
                self.url@ == old(self).url@,
                self.trackerid@ == old(self).trackerid@,
                self.tier == old(self).tier,
                self.fail_limit == old(self).fail_limit,
                self.source == old(self).source,
                self.verified == old(self).verified,
                forall|e2: int| e <= e2 < ne
                    ==> #[trigger] self.endpoints@[e2] == old(self).endpoints@[e2],
                forall|e2: int| 0 <= e2 < e ==> {
                    &&& (#[trigger] self.endpoints@[e2]).local_endpoint@
                        == old(self).endpoints@[e2].local_endpoint@
                    &&& self.endpoints@[e2].enabled == old(self).endpoints@[e2].enabled
                    &&& self.endpoints@[e2].info_hashes@.len()
                        == old(self).endpoints@[e2].info_hashes@.len()
                    &&& forall|i: int| 0 <= i < old(self).endpoints@[e2].info_hashes@.len() ==> {
                        let oa = old(self).endpoints@[e2].info_hashes@[i];
                        let na = #[trigger] self.endpoints@[e2].info_hashes@[i];
                        &&& na.triggered_manually
                        &&& na.next_announce == oa.next_announce
                        &&& na.min_announce == oa.min_announce
                        &&& na.fails == oa.fails
                        &&& na.updating == oa.updating
                        &&& na.start_sent == oa.start_sent
                        &&& na.complete_sent == oa.complete_sent
                    }
                },
            decreases ne - e,
        {
            let ghost pre = *self;
            let ep = &mut self.endpoints[e];
            let ghost ep0 = *ep;
            let ni = ep.info_hashes.len();
            let mut i: usize = 0;
            while i < ni
                invariant
                    i <= ni,
                    ep.info_hashes@.len() == ni,
                    ep.local_endpoint@ == ep0.local_endpoint@,
                    ep.enabled == ep0.enabled,
                    ni == ep0.info_hashes@.len(),
                    forall|i2: int| i <= i2 < ni
                        ==> #[trigger] ep.info_hashes@[i2] == ep0.info_hashes@[i2],
                    forall|i2: int| 0 <= i2 < i ==> {
                        let oa = ep0.info_hashes@[i2];
                        let na = #[trigger] ep.info_hashes@[i2];
                        &&& na.triggered_manually
                        &&& na.next_announce == oa.next_announce
                        &&& na.min_announce == oa.min_announce
                        &&& na.fails == oa.fails
                        &&& na.updating == oa.updating
                        &&& na.start_sent == oa.start_sent
                        &&& na.complete_sent == oa.complete_sent
                    },
                decreases ni - i,
            {
                let a = &mut ep.info_hashes[i];
                a.mark_scraped();
                i = i + 1;
            }
            proof {
                assert forall|e2: int| 0 <= e2 < e + 1 implies {
                    &&& (#[trigger] self.endpoints@[e2]).local_endpoint@
                        == old(self).endpoints@[e2].local_endpoint@
                    &&& self.endpoints@[e2].enabled == old(self).endpoints@[e2].enabled
                    &&& self.endpoints@[e2].info_hashes@.len()
                        == old(self).endpoints@[e2].info_hashes@.len()
                    &&& forall|i2: int| 0 <= i2 < old(self).endpoints@[e2].info_hashes@.len()
                        ==> {
                        let oa = old(self).endpoints@[e2].info_hashes@[i2];
                        let na = #[trigger] self.endpoints@[e2].info_hashes@[i2];
                        &&& na.triggered_manually
                        &&& na.next_announce == oa.next_announce
                        &&& na.min_announce == oa.min_announce
                        &&& na.fails == oa.fails
                        &&& na.updating == oa.updating
                        &&& na.start_sent == oa.start_sent
                        &&& na.complete_sent == oa.complete_sent
                    }
                } by {
                    if e2 < e as int {
                        assert(self.endpoints@[e2] == pre.endpoints@[e2]);
                    } else {
                        assert(pre.endpoints@[e2] == old(self).endpoints@[e2]);
                    }
                }
            }
            e = e + 1;
        }
    }
}

/// The two announce states carry the same content.
pub open spec fn info_hash_state_like(a: AnnounceInfoHash, b: AnnounceInfoHash) -> bool {
    &&& a.message@ == b.message@
    &&& a.last_error@ == b.last_error@
    &&& a.next_announce == b.next_announce
    &&& a.min_announce == b.min_announce
    &&& a.scrape_incomplete == b.scrape_incomplete
    &&& a.scrape_complete == b.scrape_complete
    &&& a.scrape_downloaded == b.scrape_downloaded
    &&& a.fails == b.fails
    &&& a.updating == b.updating
    &&& a.start_sent == b.start_sent
    &&& a.complete_sent == b.complete_sent
    &&& a.triggered_manually == b.triggered_manually
}

/// The two endpoints carry the same content.
pub open spec fn endpoint_like(a: AnnounceEndpoint, b: AnnounceEndpoint) -> bool {
    &&& a.local_endpoint@ == b.local_endpoint@
    &&& a.enabled == b.enabled
    &&& a.info_hashes@.len() == b.info_hashes@.len()
    &&& forall|i: int| 0 <= i < a.info_hashes@.len()
        ==> info_hash_state_like(#[trigger] a.info_hashes@[i], b.info_hashes@[i])
}

/// The two tracker entries carry the same content.
pub open spec fn entry_like(a: AnnounceEntry, b: AnnounceEntry) -> bool {
    &&& a.url@ == b.url@
    &&& a.trackerid@ == b.trackerid@
    &&& a.tier == b.tier
    &&& a.fail_limit == b.fail_limit
    &&& a.source == b.source
    &&& a.verified == b.verified
    &&& a.endpoints@.len() == b.endpoints@.len()
    &&& forall|e: int| 0 <= e < a.endpoints@.len()
        ==> endpoint_like(#[trigger] a.endpoints@[e], b.endpoints@[e])
}

/// A fresh copy of one announce state, carrying the same content.
pub fn copy_info_hash_state(a: &AnnounceInfoHash) -> (r: AnnounceInfoHash)
    ensures
        info_hash_state_like(r, *a),
{
    AnnounceInfoHash {
        message: a.message.clone(),
        last_error: a.last_error.clone(),
        next_announce: a.next_announce,
        min_announce: a.min_announce,
        scrape_incomplete: a.scrape_incomplete,
        scrape_complete: a.scrape_complete,
        scrape_downloaded: a.scrape_downloaded,
        fails: a.fails,
        updating: a.updating,
        start_sent: a.start_sent,
        complete_sent: a.complete_sent,
        triggered_manually: a.triggered_manually,
    }
}

/// A fresh copy of one endpoint, carrying the same content.
pub fn copy_endpoint(a: &AnnounceEndpoint) -> (r: AnnounceEndpoint)
    ensures
        endpoint_like(r, *a),
{
    let n = a.info_hashes.len();
    let mut info_hashes: Vec<AnnounceInfoHash> = Vec::new();
    let mut i: usize = 0;
    while i < n
        invariant
            i <= n,
            n == a.info_hashes@.len(),
            info_hashes@.len() == i,
            forall|j: int| 0 <= j < i ==> info_hash_state_like(
                #[trigger] info_hashes@[j],
                a.info_hashes@[j],
            ),
        decreases n - i,
    {
        info_hashes.push(copy_info_hash_state(&a.info_hashes[i]));
        i = i + 1;
    }
    AnnounceEndpoint {
        local_endpoint: a.local_endpoint.clone(),
        info_hashes,
        enabled: a.enabled,
    }
}

/// A fresh copy of one tracker entry, carrying the same content.
pub fn copy_entry(a: &AnnounceEntry) -> (r: AnnounceEntry)
    ensures
        entry_like(r, *a),
{
    let n = a.endpoints.len();
    let mut endpoints: Vec<AnnounceEndpoint> = Vec::new();
    let mut e: usize = 0;
    while e < n
        invariant
            e <= n,
            n == a.endpoints@.len(),
            endpoints@.len() == e,
            forall|j: int| 0 <= j < e ==> endpoint_like(
                #[trigger] endpoints@[j],
                a.endpoints@[j],
            ),
        decreases n - e,
    {
        endpoints.push(copy_endpoint(&a.endpoints[e]));
        e = e + 1;
    }
    AnnounceEntry {
        url: a.url.clone(),
        trackerid: a.trackerid.clone(),
        endpoints,
        tier: a.tier,
        fail_limit: a.fail_limit,
        source: a.source,
        verified: a.verified,
    }
}

} // verus!

verus! {

impl AnnounceEntry {
    /// The earliest scheduled announce among this entry's states, if any.
    pub fn min_next_announce(&self) -> (r: Option<i64>)
        ensures
            match r {
                Some(m) => {
                    &&& exists|e: int, i: int|
                        0 <= e < self.endpoints@.len() && 0 <= i
                            < self.endpoints@[e].info_hashes@.len()
                            && (#[trigger] self.endpoints@[e].info_hashes@[i]).next_announce == m
                    &&& forall|e: int, i: int|
                        0 <= e < self.endpoints@.len() && 0 <= i
                            < self.endpoints@[e].info_hashes@.len()
                            ==> m <= (
                            #[trigger] self.endpoints@[e].info_hashes@[i]).next_announce
                },
                None => forall|e: int| 0 <= e < self.endpoints@.len()
                    ==> (#[trigger] self.endpoints@[e]).info_hashes@.len() == 0,
            },
    {
        let mut best: Option<i64> = None;
        let ne = self.endpoints.len();
        let mut e: usize = 0;
        while e < ne
            invariant
                e <= ne,
                ne == self.endpoints@.len(),
                match best {
                    Some(m) => {
                        &&& exists|e2: int, i2: int|
                            0 <= e2 < e && 0 <= i2 < self.endpoints@[e2].info_hashes@.len()
                                && (#[trigger] self.endpoints@[e2].info_hashes@[i2]).next_announce
                                == m
                        &&& forall|e2: int, i2: int|
                            0 <= e2 < e && 0 <= i2 < self.endpoints@[e2].info_hashes@.len()
                                ==> m <= (
                                #[trigger] self.endpoints@[e2].info_hashes@[i2]).next_announce
                    },
                    None => forall|e2: int| 0 <= e2 < e
                        ==> (#[trigger] self.endpoints@[e2]).info_hashes@.len() == 0,
                },
            decreases ne - e,
        {
            let ep = &self.endpoints[e];
            let ni = ep.info_hashes.len();
            let mut i: usize = 0;
            while i < ni
                invariant
                    i <= ni,
                    e < ne,
                    ne == self.endpoints@.len(),
                    ep == self.endpoints@[e as int],
                    ni == ep.info_hashes@.len(),
                    match best {
                        Some(m) => {
                            &&& exists|e2: int, i2: int|
                                0 <= e2 <= e && 0 <= i2
                                    < self.endpoints@[e2].info_hashes@.len()
                                    && (#[trigger] self.endpoints@[e2].info_hashes@[i2]).next_announce
                                    == m
                            &&& forall|e2: int, i2: int|
                                0 <= e2 < e && 0 <= i2 < self.endpoints@[e2].info_hashes@.len()
                                    ==> m <= (
                                    #[trigger] self.endpoints@[e2].info_hashes@[i2]).next_announce
                            &&& forall|i2: int| 0 <= i2 < i
                                ==> m <= (#[trigger] ep.info_hashes@[i2]).next_announce
                        },
                        None => (forall|e2: int| 0 <= e2 < e
                            ==> (#[trigger] self.endpoints@[e2]).info_hashes@.len() == 0) && i
                            == 0 && (i < ni || ni == 0),
                    },
                decreases ni - i,
            {
                let v = ep.info_hashes[i].next_announce;
                match best {
                    Some(m) => {
                        if v < m {
                            best = Some(v);
                        }
                    },
                    None => {
                        best = Some(v);
                    },
                }
                i = i + 1;
            }
            proof {
                match best {
                    Some(m) => {
                        assert forall|e2: int, i2: int|
                            0 <= e2 < e + 1 && 0 <= i2 < self.endpoints@[e2].info_hashes@.len()
                                implies m <= (
                            #[trigger] self.endpoints@[e2].info_hashes@[i2]).next_announce by {
                            if e2 == e as int {
                                assert(m <= ep.info_hashes@[i2].next_announce);
                            }
                        }
                    },
                    None => {
                        assert forall|e2: int| 0 <= e2 < e + 1
                            implies (#[trigger] self.endpoints@[e2]).info_hashes@.len() == 0 by {
                            if e2 == e as int {
                                assert(ep.info_hashes@.len() == 0);
                            }
                        }
                    },
                }
            }
            e = e + 1;
        }
        best
    }
}

} // verus!

verus! {

impl AnnounceEntry {
    /// Scrape numbers reported by this tracker, if any announce state holds
    /// them: the current seed and downloader counts of some state whose
    /// scrape data is filled in (non-negative).
    pub fn first_scrape_numbers(&self) -> (r: Option<(i32, i32)>)
        ensures
            match r {
                Some(ci) => exists|e: int, i: int|
                    0 <= e < self.endpoints@.len() && 0 <= i
                        < self.endpoints@[e].info_hashes@.len() && (
                    #[trigger] self.endpoints@[e].info_hashes@[i]).scrape_complete >= 0
                        && ci.0 == self.endpoints@[e].info_hashes@[i].scrape_complete && ci.1
                        == self.endpoints@[e].info_hashes@[i].scrape_incomplete,
                None => forall|e: int, i: int|
                    0 <= e < self.endpoints@.len() && 0 <= i
                        < self.endpoints@[e].info_hashes@.len()
                        ==> (#[trigger] self.endpoints@[e].info_hashes@[i]).scrape_complete < 0,
            },
    {
        let ne = self.endpoints.len();
        let mut e: usize = 0;
        while e < ne
            invariant
                e <= ne,
                ne == self.endpoints@.len(),
                forall|e2: int, i2: int|
                    0 <= e2 < e && 0 <= i2 < self.endpoints@[e2].info_hashes@.len()
                        ==> (#[trigger] self.endpoints@[e2].info_hashes@[i2]).scrape_complete
                        < 0,
            decreases ne - e,
        {
            let ep = &self.endpoints[e];
            let ni = ep.info_hashes.len();
            let mut i: usize = 0;
            while i < ni
                invariant
                    i <= ni,
                    e < ne,
                    ne == self.endpoints@.len(),
                    ep == self.endpoints@[e as int],
                    ni == ep.info_hashes@.len(),
                    forall|i2: int| 0 <= i2 < i
                        ==> (#[trigger] ep.info_hashes@[i2]).scrape_complete < 0,
                decreases ni - i,
            {
                let a = &ep.info_hashes[i];
                if a.scrape_complete >= 0 {
                    return Some((a.scrape_complete, a.scrape_incomplete));
                }
                i = i + 1;
            }
            e = e + 1;
        }
        None
    }
}

} // verus!
