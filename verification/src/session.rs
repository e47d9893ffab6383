//! The session engine: the single entry point for commands over the set of
//! torrents, and the single producer of consistent status snapshots.

use vstd::prelude::*;

use crate::errors::EngineError;
use crate::flags;
use crate::log::Log;
use crate::metrics::Metrics;
use crate::session_stats::saturating_add_i64;
use crate::session_stats::CountersAggregator;
use crate::session_stats::SessionStats;
use crate::session_stats::pull_post;
use crate::session_stats::pull_snapshot;
use crate::torrent::TorrentController;
use crate::torrent_info::copy_torrent_info;
use crate::torrent_info::torrent_info_like;
use crate::torrent_info::TorrentInfo;

verus! {

/// The session: every torrent, the global pause switch, the counters, and
/// the rolling log. Commands mutate it; queries copy immutable snapshots
/// out and never fail — an unknown info-hash yields an explicit error value
/// or an empty result.
pub struct SessionEngine {
    /// The torrents of this session.
    pub torrents: Vec<TorrentController>,
    /// The performance counters.
    pub counters: CountersAggregator,
    /// The global pause switch.
    pub paused: bool,
    /// The rolling session log.
    pub logs: Vec<Log>,
    /// The identity the next added torrent will get; identities are never
    /// reused, so a stale handle resolves to nothing instead of aliasing a
    /// later torrent.
    pub next_torrent_id: u64,
}

impl SessionEngine {
    /// Every torrent is sound; identities are unique and below the next one
    /// to be handed out; and no two torrents carry the same info-hash, so a
    /// lookup by info-hash is unambiguous and a removed torrent no longer
    /// appears.
    pub open spec fn wf(self) -> bool {
        &&& self.counters.wf()
        &&& forall|i: int| 0 <= i < self.torrents@.len()
            ==> (#[trigger] self.torrents@[i]).wf()
        &&& forall|i: int| 0 <= i < self.torrents@.len()
            ==> (#[trigger] self.torrents@[i]).id < self.next_torrent_id
        &&& forall|i: int, j: int|
            0 <= i < j < self.torrents@.len()
            ==> (#[trigger] self.torrents@[i]).id != (#[trigger] self.torrents@[j]).id
        &&& forall|i: int, j: int|
            0 <= i < j < self.torrents@.len()
            ==> (#[trigger] self.torrents@[i]).info.info_hash@ != (
            #[trigger] self.torrents@[j]).info.info_hash@
    }

    /// Some torrent of the session carries this info-hash.
    pub open spec fn has_info_hash(self, h: Seq<char>) -> bool {
        exists|i: int|
            0 <= i < self.torrents@.len()
                && (#[trigger] self.torrents@[i]).info.info_hash@ == h
    }

    /// A fresh, empty, unpaused session.
    pub fn new() -> (r: SessionEngine)
        ensures
            r.wf(),
            r.torrents@.len() == 0,
            !r.paused,
            r.logs@.len() == 0,
            r.next_torrent_id == 1,
            forall|i: int| 0 <= i < crate::metrics::NUM_METRICS ==> r.counters@.cur[i] == 0,
    {
        SessionEngine {
            torrents: Vec::new(),
            counters: CountersAggregator::new(),
            paused: false,
            logs: Vec::new(),
            next_torrent_id: 1,
        }
    }

    /// The index of the first torrent carrying this info-hash, if any.
    pub fn find_torrent(&self, info_hash: &String) -> (r: Option<usize>)
        ensures
            match r {
                Some(i) => i < self.torrents@.len() && self.torrents@[i as int].info.info_hash@
                    == info_hash@ && forall|j: int| 0 <= j < i
                    ==> (#[trigger] self.torrents@[j]).info.info_hash@ != info_hash@,
                None => !self.has_info_hash(info_hash@),
            },
    {
        let n = self.torrents.len();
        let mut i: usize = 0;
        while i < n
            invariant
                i <= n,
                n == self.torrents@.len(),
                forall|j: int| 0 <= j < i
                    ==> (#[trigger] self.torrents@[j]).info.info_hash@ != info_hash@,
            decreases n - i,
        {
            if self.torrents[i].info.info_hash == *info_hash {
                return Some(i);
            }
            i = i + 1;
        }
        proof {
            if self.has_info_hash(info_hash@) {
                let j = choose|j: int|
                    0 <= j < self.torrents@.len()
                        && (#[trigger] self.torrents@[j]).info.info_hash@ == info_hash@;
                assert(false);
            }
        }
        None
    }

    /// The index of the torrent with this handle identity, if it is still in
    /// the session; a removed torrent's handle resolves to nothing.
    pub fn find_by_id(&self, id: u64) -> (r: Option<usize>)
        ensures
            match r {
                Some(i) => i < self.torrents@.len() && self.torrents@[i as int].id == id,
                None => forall|j: int| 0 <= j < self.torrents@.len()
                    ==> (#[trigger] self.torrents@[j]).id != id,
            },
    {
        let n = self.torrents.len();
        let mut i: usize = 0;
        while i < n
            invariant
                i <= n,
                n == self.torrents@.len(),
                forall|j: int| 0 <= j < i ==> (#[trigger] self.torrents@[j]).id != id,
            decreases n - i,
        {
            if self.torrents[i].id == id {
                return Some(i);
            }
            i = i + 1;
        }
        None
    }

    /// True when the handle identity still resolves to a torrent.
    pub fn is_valid_handle(&self, id: u64) -> (r: bool)
        ensures
            r == exists|j: int|
                0 <= j < self.torrents@.len() && (#[trigger] self.torrents@[j]).id == id,
    {
        match self.find_by_id(id) {
            Some(i) => {
                proof {
                    assert(self.torrents@[i as int].id == id);
                }
                true
            },
            None => false,
        }
    }

    /// Adds a torrent from its metadata and returns its handle identity.
    ///
    /// Adding an info-hash already present is an error exactly when the add
    /// flags declare duplicates errors; otherwise the existing torrent's
    /// handle is returned and nothing changes. A new torrent is appended
    /// with a fresh identity, and the total-pieces-added count grows by its
    /// piece count.
    pub fn add_torrent(
        &mut self,
        info: TorrentInfo,
        save_path: String,
        torrent_flags: u64,
        added_time: i64,
        last_piece_blocks: usize,
    ) -> (r: Result<u64, EngineError>)
        requires
            old(self).wf(),
            old(self).next_torrent_id < u64::MAX,
            info.num_pieces as int <= i32::MAX,
            info.blocks_per_piece as int <= i32::MAX,
            crate::torrent_info::torrent_info_wf(info),
            info.num_pieces > 0 ==> 0 < last_piece_blocks <= info.blocks_per_piece,
        ensures
            final(self).wf(),
            old(self).has_info_hash(info.info_hash@) && torrent_flags
                & flags::DUPLICATE_IS_ERROR != 0 ==> (r
                == Result::<u64, EngineError>::Err(EngineError::DuplicateTorrent) && *final(self)
                == *old(self)),
            old(self).has_info_hash(info.info_hash@) && torrent_flags
                & flags::DUPLICATE_IS_ERROR == 0 ==> (r is Ok && *final(self) == *old(self)
                && exists|i: int|
                0 <= i < old(self).torrents@.len()
                    && (#[trigger] old(self).torrents@[i]).info.info_hash@ == info.info_hash@
                    && old(self).torrents@[i].id == r.unwrap()),
            !old(self).has_info_hash(info.info_hash@) ==> {
                &&& r is Ok
                &&& r.unwrap() == old(self).next_torrent_id
                &&& final(self).next_torrent_id == old(self).next_torrent_id + 1
                &&& final(self).torrents@.len() == old(self).torrents@.len() + 1
                &&& forall|i: int| 0 <= i < old(self).torrents@.len()
                    ==> #[trigger] final(self).torrents@[i] == old(self).torrents@[i]
                &&& final(self).torrents@[old(self).torrents@.len() as int].id == r.unwrap()
                &&& final(self).torrents@[old(self).torrents@.len() as int].info == info
                &&& final(self).torrents@[old(self).torrents@.len() as int].flags == torrent_flags
                &&& final(self).torrents@[old(self).torrents@.len() as int].has_metadata == (
                info.num_pieces > 0)
                &&& final(self).torrents@[old(self).torrents@.len() as int].state == (
                if info.num_pieces > 0 {
                    crate::torrent_status::State::checking_resume_data
                } else {
                    crate::torrent_status::State::downloading_metadata
                })
                &&& final(self).torrents@[old(self).torrents@.len() as int].save_path@
                    == save_path@
                &&& final(self).counters@.cur == old(self).counters@.cur.update(
                    Metrics::ses_num_total_pieces_added.index_spec() as int,
                    saturating_add_i64(
                        old(self).counters@.cur[
                            Metrics::ses_num_total_pieces_added.index_spec() as int
                        ],
                        info.num_pieces as i64,
                    ),
                )
            },
            final(self).paused == old(self).paused,
    {
        match self.find_torrent(&info.info_hash) {
            Some(i) => {
                if torrent_flags & flags::DUPLICATE_IS_ERROR != 0 {
                    Err(EngineError::DuplicateTorrent)
                } else {
                    proof {
                        assert(self.torrents@[i as int].info.info_hash@ == info.info_hash@);
                    }
                    Ok(self.torrents[i].id)
                }
            },
            None => {
                let id = self.next_torrent_id;
                self.next_torrent_id = id + 1;
                let num_pieces = info.num_pieces;
                let t = TorrentController::new(
                    id,
                    info,
                    save_path,
                    torrent_flags,
                    added_time,
                    last_piece_blocks,
                );
                self.torrents.push(t);
                self.counters.inc(Metrics::ses_num_total_pieces_added, num_pieces as i64);
                proof {
                    let ns = *self;
                    let os = *old(self);
                    assert forall|a: int, b: int| 0 <= a < b < ns.torrents@.len()
                        implies (#[trigger] ns.torrents@[a]).id != (
                        #[trigger] ns.torrents@[b]).id by {
                        if b < os.torrents@.len() {
                        } else {
                            assert(ns.torrents@[a].id < id);
                        }
                    }
                }
                Ok(id)
            },
        }
    }

    /// Adds a torrent known only by its info-hash, as from a magnet link:
    /// it starts without metadata, downloading it from peers. Duplicate
    /// handling is as for a full add.
    pub fn add_magnet(
        &mut self,
        info_hash: String,
        name: String,
        save_path: String,
        torrent_flags: u64,
        added_time: i64,
    ) -> (r: Result<u64, EngineError>)
        requires
            old(self).wf(),
            old(self).next_torrent_id < u64::MAX,
        ensures
            final(self).wf(),
            old(self).has_info_hash(info_hash@) && torrent_flags & flags::DUPLICATE_IS_ERROR != 0
                ==> (r == Result::<u64, EngineError>::Err(EngineError::DuplicateTorrent) && *final(self) == *old(self)),
            old(self).has_info_hash(info_hash@) && torrent_flags & flags::DUPLICATE_IS_ERROR == 0
                ==> (r is Ok && *final(self) == *old(self)),
            !old(self).has_info_hash(info_hash@) ==> {
                &&& r is Ok
                &&& r.unwrap() == old(self).next_torrent_id
                &&& final(self).torrents@.len() == old(self).torrents@.len() + 1
                &&& forall|i: int| 0 <= i < old(self).torrents@.len()
                    ==> #[trigger] final(self).torrents@[i] == old(self).torrents@[i]
                &&& final(self).torrents@[old(self).torrents@.len() as int].info.info_hash@
                    == info_hash@
                &&& final(self).torrents@[old(self).torrents@.len() as int].info.name@ == name@
                &&& !final(self).torrents@[old(self).torrents@.len() as int].has_metadata
                &&& final(self).torrents@[old(self).torrents@.len() as int].state
                    == crate::torrent_status::State::downloading_metadata
            },
            final(self).paused == old(self).paused,
    {
        let info = TorrentInfo::from_magnet(info_hash, name);
        let r = self.add_torrent(info, save_path, torrent_flags, added_time, 1);
        r
    }

    /// Removes the torrent carrying this info-hash, returning whether one
    /// was there. Its handle is invalidated: late completions keyed by the
    /// removed identity resolve to nothing and are dropped, not acted upon.
    /// Deleting the data on disk is the caller's I/O, signalled by the flag.
    pub fn remove_torrent(&mut self, info_hash: &String, delete_files: bool) -> (r: bool)
        requires
            old(self).wf(),
        ensures
            final(self).wf(),
            r == old(self).has_info_hash(info_hash@),
            !r ==> *final(self) == *old(self),
            r ==> exists|i: int|
                0 <= i < old(self).torrents@.len()
                    && (#[trigger] old(self).torrents@[i]).info.info_hash@ == info_hash@
                    && final(self).torrents@ == old(self).torrents@.remove(i),
            final(self).paused == old(self).paused,
            final(self).next_torrent_id == old(self).next_torrent_id,
    {
        match self.find_torrent(info_hash) {
            Some(i) => {
                let ghost pre = self.torrents@;
                self.torrents.remove(i);
                proof {
                    assert(self.torrents@ == pre.remove(i as int));
                    assert forall|a: int| 0 <= a < self.torrents@.len()
                        implies (#[trigger] self.torrents@[a]).wf()
                            && self.torrents@[a].id < self.next_torrent_id by {
                        if a < i as int {
                            assert(self.torrents@[a] == pre[a]);
                        } else {
                            assert(self.torrents@[a] == pre[a + 1]);
                        }
                    }
                    assert forall|a: int, b: int| 0 <= a < b < self.torrents@.len()
                        implies (#[trigger] self.torrents@[a]).id != (
                        #[trigger] self.torrents@[b]).id by {
                        let a2 = if a < i as int { a } else { a + 1 };
                        let b2 = if b < i as int { b } else { b + 1 };
                        assert(self.torrents@[a] == pre[a2]);
                        assert(self.torrents@[b] == pre[b2]);
                    }
                }
                true
            },
            None => false,
        }
    }

    /// Pauses the whole session.
    pub fn pause(&mut self)
        requires
            old(self).wf(),
        ensures
            final(self).wf(),
            final(self).paused,
            final(self).torrents@ == old(self).torrents@,
            final(self).counters@ == old(self).counters@,
            final(self).logs@ == old(self).logs@,
            final(self).next_torrent_id == old(self).next_torrent_id,
    {
        self.paused = true;
    }

    /// Resumes the whole session.
    pub fn resume(&mut self)
        requires
            old(self).wf(),
        ensures
            final(self).wf(),
            !final(self).paused,
            final(self).torrents@ == old(self).torrents@,
            final(self).counters@ == old(self).counters@,
            final(self).logs@ == old(self).logs@,
            final(self).next_torrent_id == old(self).next_torrent_id,
    {
        self.paused = false;
    }

    /// True while the session is paused.
    pub fn is_paused(&self) -> (r: bool)
        ensures
            r == self.paused,
    {
        self.paused
    }

    /// The handle identity of the torrent carrying this info-hash, if any.
    pub fn get_torrent_handle(&self, info_hash: &String) -> (r: Option<u64>)
        ensures
            match r {
                Some(id) => exists|i: int|
                    0 <= i < self.torrents@.len()
                        && (#[trigger] self.torrents@[i]).info.info_hash@ == info_hash@
                        && self.torrents@[i].id == id,
                None => !self.has_info_hash(info_hash@),
            },
    {
        match self.find_torrent(info_hash) {
            Some(i) => {
                proof {
                    assert(self.torrents@[i as int].info.info_hash@ == info_hash@);
                }
                Some(self.torrents[i].id)
            },
            None => None,
        }
    }

    /// A metadata snapshot of every torrent in the session, in order. Each
    /// copy carries the same content as the stored metadata and is itself
    /// sound: the file count matches its file list and the piece geometry
    /// covers its total size.
    pub fn get_torrents(&self) -> (r: Vec<TorrentInfo>)
        requires
            self.wf(),
        ensures
            r@.len() == self.torrents@.len(),
            forall|i: int| 0 <= i < self.torrents@.len() ==> torrent_info_like(
                #[trigger] r@[i],
                self.torrents@[i].info,
            ) && crate::torrent_info::torrent_info_wf(r@[i]),
    {
        let n = self.torrents.len();
        let mut r: Vec<TorrentInfo> = Vec::new();
        let mut i: usize = 0;
        while i < n
            invariant
                i <= n,
                self.wf(),
                n == self.torrents@.len(),
                r@.len() == i,
                forall|j: int| 0 <= j < i ==> torrent_info_like(
                    #[trigger] r@[j],
                    self.torrents@[j].info,
                ) && crate::torrent_info::torrent_info_wf(r@[j]),
            decreases n - i,
        {
            let snap = copy_torrent_info(&self.torrents[i].info);
            proof {
                crate::torrent_info::lemma_info_like_preserves_wf(
                    snap,
                    self.torrents@[i as int].info,
                );
            }
            r.push(snap);
            i = i + 1;
        }
        r
    }

    /// A status snapshot of every torrent in the session, in order; each
    /// element pins its torrent's full tracked state (`status_matches`).
    pub fn get_all_torrent_status(&self) -> (r: Vec<crate::torrent_status::TorrentStatus>)
        requires
            self.wf(),
        ensures
            r@.len() == self.torrents@.len(),
            forall|i: int| 0 <= i < self.torrents@.len() ==> crate::torrent::status_matches(
                #[trigger] r@[i],
                self.torrents@[i],
            ),
    {
        let n = self.torrents.len();
        let mut r: Vec<crate::torrent_status::TorrentStatus> = Vec::new();
        let mut i: usize = 0;
        while i < n
            invariant
                i <= n,
                n == self.torrents@.len(),
                self.wf(),
                r@.len() == i,
                forall|j: int| 0 <= j < i ==> crate::torrent::status_matches(
                    #[trigger] r@[j],
                    self.torrents@[j],
                ),
            decreases n - i,
        {
            r.push(self.torrents[i].status());
            i = i + 1;
        }
        r
    }

    /// Serves the session-stats snapshot: the counter array at this pull,
    /// the array of the previous pull, and both timestamps, so the caller
    /// can compute rates itself.
    pub fn get_stats(&mut self, now: i64) -> (r: SessionStats)
        requires
            old(self).wf(),
        ensures
            final(self).wf(),
            r.two_session_stats@ == pull_snapshot(old(self).counters@, now as int),
            final(self).counters@ == pull_post(old(self).counters@, now as int),
            final(self).torrents@ == old(self).torrents@,
            final(self).paused == old(self).paused,
    {
        let two_session_stats = self.counters.pull(now);
        SessionStats { two_session_stats }
    }

    /// Appends one line to the rolling session log.
    pub fn push_log(&mut self, message: String, timestamp: i64)
        requires
            old(self).wf(),
        ensures
            final(self).wf(),
            final(self).logs@.len() == old(self).logs@.len() + 1,
            final(self).logs@[old(self).logs@.len() as int].message@ == message@,
            final(self).logs@[old(self).logs@.len() as int].timestamp == timestamp,
            forall|i: int| 0 <= i < old(self).logs@.len()
                ==> #[trigger] final(self).logs@[i] == old(self).logs@[i],
            final(self).torrents@ == old(self).torrents@,
            final(self).counters@ == old(self).counters@,
    {
        self.logs.push(Log { message, timestamp });
    }

    /// Drains the rolling session log: returns every line gathered since the
    /// previous drain, oldest first, and leaves the log empty.
    pub fn get_logs(&mut self) -> (r: Vec<Log>)
        requires
            old(self).wf(),
        ensures
            final(self).wf(),
            r@ == old(self).logs@,
            final(self).logs@.len() == 0,
            final(self).torrents@ == old(self).torrents@,
            final(self).counters@ == old(self).counters@,
            final(self).paused == old(self).paused,
    {
        let mut out: Vec<Log> = Vec::new();
        core::mem::swap(&mut self.logs, &mut out);
        out
    }
}

} // verus!

verus! {

impl SessionEngine {
    /// The torrents other than the one carrying `id` are exactly as before.
    pub open spec fn others_unchanged(self, other: SessionEngine, id: u64) -> bool {
        &&& self.torrents@.len() == other.torrents@.len()
        &&& forall|j: int| 0 <= j < other.torrents@.len() && (#[trigger] other.torrents@[j]).id
            != id ==> self.torrents@[j] == other.torrents@[j]
    }

    /// The session around the torrents is exactly as before.
    pub open spec fn surroundings_unchanged(self, other: SessionEngine) -> bool {
        &&& self.paused == other.paused
        &&& self.logs@ == other.logs@
        &&& self.next_torrent_id == other.next_torrent_id
        &&& self.counters@ == other.counters@
    }

    /// Pauses one torrent by handle: auto-management off, paused on, and
    /// with a graceful pause its established peers drain their requests
    /// before closing. Fails exactly when the handle resolves to nothing,
    /// and then changes nothing.
    pub fn pause_torrent(&mut self, id: u64, graceful: bool) -> (r: Result<(), EngineError>)
        requires
            old(self).wf(),
        ensures
            final(self).wf(),
            r is Ok <==> exists|j: int|
                0 <= j < old(self).torrents@.len() && (#[trigger] old(self).torrents@[j]).id == id,
            r is Err ==> *final(self) == *old(self) && r == Result::<(), EngineError>::Err(
                EngineError::UnknownTorrent,
            ),
            final(self).others_unchanged(*old(self), id),
            final(self).surroundings_unchanged(*old(self)),
            forall|j: int|
                0 <= j < old(self).torrents@.len() && (#[trigger] old(self).torrents@[j]).id == id
                    ==> final(self).torrents@[j].flags == flags::with_flags_set(
                    flags::with_flags_cleared(old(self).torrents@[j].flags, flags::AUTO_MANAGED),
                    flags::PAUSED,
                ) && final(self).torrents@[j].same_identity(old(self).torrents@[j])
                    && final(self).torrents@[j].state == old(self).torrents@[j].state,
    {
        match self.find_by_id(id) {
            Some(i) => {
                let ghost pre = self.torrents@;
                let t = &mut self.torrents[i];
                t.pause(graceful);
                proof {
                    self.lemma_one_torrent_updated(*old(self), pre, i as int, id);
                }
                Ok(())
            },
            None => Err(EngineError::UnknownTorrent),
        }
    }

    /// After updating torrent `i` in place, the session is well formed and
    /// every other torrent is untouched.
    proof fn lemma_one_torrent_updated(
        self,
        os: SessionEngine,
        pre: Seq<TorrentController>,
        i: int,
        id: u64,
    )
        requires
            os.wf(),
            pre == os.torrents@,
            0 <= i < pre.len(),
            pre[i].id == id,
            self.torrents@.len() == pre.len(),
            forall|j: int| 0 <= j < pre.len() && j != i
                ==> #[trigger] self.torrents@[j] == pre[j],
            self.torrents@[i].wf(),
            self.torrents@[i].id == pre[i].id,
            self.torrents@[i].info == pre[i].info,
            self.counters@ == os.counters@,
            self.counters.wf(),
            self.next_torrent_id == os.next_torrent_id,
        ensures
            self.wf(),
            self.others_unchanged(os, id),
            forall|j: int| 0 <= j < os.torrents@.len() && (#[trigger] os.torrents@[j]).id == id
                ==> j == i,
    {
        assert forall|j: int| 0 <= j < self.torrents@.len()
            implies (#[trigger] self.torrents@[j]).wf() && self.torrents@[j].id
                < self.next_torrent_id by {
            if j != i {
                assert(self.torrents@[j] == pre[j]);
            }
            assert(os.torrents@[j].wf() || j == i);
        }
        assert forall|a: int, b: int| 0 <= a < b < self.torrents@.len()
            implies (#[trigger] self.torrents@[a]).id != (#[trigger] self.torrents@[b]).id by {
            assert(self.torrents@[a].id == pre[a].id);
            assert(self.torrents@[b].id == pre[b].id);
        }
        assert forall|a: int, b: int| 0 <= a < b < self.torrents@.len()
            implies (#[trigger] self.torrents@[a]).info.info_hash@ != (
            #[trigger] self.torrents@[b]).info.info_hash@ by {
            assert(self.torrents@[a].info == pre[a].info);
            assert(self.torrents@[b].info == pre[b].info);
        }
        assert forall|j: int| 0 <= j < os.torrents@.len() && (#[trigger] os.torrents@[j]).id == id
            implies j == i by {
            if j != i {
                assert(pre[j].id != pre[i].id);
            }
        }
        assert forall|j: int| 0 <= j < os.torrents@.len() && (#[trigger] os.torrents@[j]).id != id
            implies self.torrents@[j] == os.torrents@[j] by {
            if j == i {
                assert(pre[i].id == id);
            }
        }
    }

    /// Resumes one torrent by handle: it is handed back to the auto manager.
    /// Fails exactly when the handle resolves to nothing.
    pub fn resume_torrent(&mut self, id: u64) -> (r: Result<(), EngineError>)
        requires
            old(self).wf(),
        ensures
            final(self).wf(),
            r is Ok <==> exists|j: int|
                0 <= j < old(self).torrents@.len() && (#[trigger] old(self).torrents@[j]).id == id,
            r is Err ==> *final(self) == *old(self) && r == Result::<(), EngineError>::Err(
                EngineError::UnknownTorrent,
            ),
            final(self).others_unchanged(*old(self), id),
            final(self).surroundings_unchanged(*old(self)),
            forall|j: int|
                0 <= j < old(self).torrents@.len() && (#[trigger] old(self).torrents@[j]).id == id
                    ==> final(self).torrents@[j].flags == flags::with_flags_set(
                    old(self).torrents@[j].flags,
                    flags::AUTO_MANAGED,
                ) && final(self).torrents@[j].only_flags_changed(old(self).torrents@[j]),
    {
        match self.find_by_id(id) {
            Some(i) => {
                let ghost pre = self.torrents@;
                let t = &mut self.torrents[i];
                t.resume();
                proof {
                    self.lemma_one_torrent_updated(*old(self), pre, i as int, id);
                }
                Ok(())
            },
            None => Err(EngineError::UnknownTorrent),
        }
    }

    /// Sets flags on one torrent by handle; seed mode cannot be set here.
    /// Setting stop-when-ready while the torrent is already in a
    /// data-transferring state fires the trigger at once: auto-management
    /// off, paused on, the one-shot flag clearing itself.
    pub fn set_torrent_flags(&mut self, id: u64, f: u64) -> (r: Result<(), EngineError>)
        requires
            old(self).wf(),
        ensures
            final(self).wf(),
            r is Ok <==> exists|j: int|
                0 <= j < old(self).torrents@.len() && (#[trigger] old(self).torrents@[j]).id == id,
            r is Err ==> *final(self) == *old(self) && r == Result::<(), EngineError>::Err(
                EngineError::UnknownTorrent,
            ),
            final(self).others_unchanged(*old(self), id),
            final(self).surroundings_unchanged(*old(self)),
            forall|j: int|
                0 <= j < old(self).torrents@.len() && (#[trigger] old(self).torrents@[j]).id == id
                    ==> final(self).torrents@[j].flags == ({
                    let w = flags::with_flags_set(old(self).torrents@[j].flags, f
                        & !flags::SEED_MODE);
                    if f & flags::STOP_WHEN_READY != 0
                        && old(self).torrents@[j].state.downloading_class_spec() {
                        TorrentController::stop_fired(w)
                    } else {
                        w
                    }
                }) && final(self).torrents@[j].only_flags_changed(old(self).torrents@[j]),
    {
        match self.find_by_id(id) {
            Some(i) => {
                let ghost pre = self.torrents@;
                let t = &mut self.torrents[i];
                t.set_flags(f);
                proof {
                    self.lemma_one_torrent_updated(*old(self), pre, i as int, id);
                    let ot = old(self).torrents@[i as int];
                    let w0 = flags::with_flags_set(ot.flags, f & !flags::SEED_MODE);
                    if f & flags::STOP_WHEN_READY != 0 && ot.state.downloading_class_spec() {
                        assert(self.torrents@[i as int].flags
                            == TorrentController::stop_fired(w0));
                    } else {
                        assert(self.torrents@[i as int].flags == w0);
                    }
                }
                Ok(())
            },
            None => Err(EngineError::UnknownTorrent),
        }
    }

    /// Clears flags on one torrent by handle; clearing seed mode is allowed.
    pub fn unset_torrent_flags(&mut self, id: u64, f: u64) -> (r: Result<(), EngineError>)
        requires
            old(self).wf(),
        ensures
            final(self).wf(),
            r is Ok <==> exists|j: int|
                0 <= j < old(self).torrents@.len() && (#[trigger] old(self).torrents@[j]).id == id,
            r is Err ==> *final(self) == *old(self) && r == Result::<(), EngineError>::Err(
                EngineError::UnknownTorrent,
            ),
            final(self).others_unchanged(*old(self), id),
            final(self).surroundings_unchanged(*old(self)),
            forall|j: int|
                0 <= j < old(self).torrents@.len() && (#[trigger] old(self).torrents@[j]).id == id
                    ==> final(self).torrents@[j].flags == flags::with_flags_cleared(
                    old(self).torrents@[j].flags,
                    f,
                ) && final(self).torrents@[j].only_flags_changed(old(self).torrents@[j]),
    {
        match self.find_by_id(id) {
            Some(i) => {
                let ghost pre = self.torrents@;
                let t = &mut self.torrents[i];
                t.unset_flags(f);
                proof {
                    self.lemma_one_torrent_updated(*old(self), pre, i as int, id);
                }
                Ok(())
            },
            None => Err(EngineError::UnknownTorrent),
        }
    }

    /// Replaces exactly the masked flag bits on one torrent by handle.
    pub fn set_torrent_flags_with_mask(&mut self, id: u64, f: u64, mask: u64) -> (r: Result<
        (),
        EngineError,
    >)
        requires
            old(self).wf(),
        ensures
            final(self).wf(),
            r is Ok <==> exists|j: int|
                0 <= j < old(self).torrents@.len() && (#[trigger] old(self).torrents@[j]).id == id,
            r is Err ==> *final(self) == *old(self) && r == Result::<(), EngineError>::Err(
                EngineError::UnknownTorrent,
            ),
            final(self).others_unchanged(*old(self), id),
            final(self).surroundings_unchanged(*old(self)),
            forall|j: int|
                0 <= j < old(self).torrents@.len() && (#[trigger] old(self).torrents@[j]).id == id
                    ==> final(self).torrents@[j].flags == ({
                    let w = flags::with_flags_masked(
                        old(self).torrents@[j].flags,
                        f,
                        if f & flags::SEED_MODE != 0 {
                            mask & !flags::SEED_MODE
                        } else {
                            mask
                        },
                    );
                    if f & mask & flags::STOP_WHEN_READY != 0
                        && old(self).torrents@[j].state.downloading_class_spec() {
                        TorrentController::stop_fired(w)
                    } else {
                        w
                    }
                }) && final(self).torrents@[j].only_flags_changed(old(self).torrents@[j]),
    {
        match self.find_by_id(id) {
            Some(i) => {
                let ghost pre = self.torrents@;
                let t = &mut self.torrents[i];
                t.set_flags_with_mask(f, mask);
                proof {
                    self.lemma_one_torrent_updated(*old(self), pre, i as int, id);
                    let ot = old(self).torrents@[i as int];
                    assert(self.torrents@[i as int].flags == ({
                        let w = flags::with_flags_masked(
                            ot.flags,
                            f,
                            if f & flags::SEED_MODE != 0 {
                                mask & !flags::SEED_MODE
                            } else {
                                mask
                            },
                        );
                        if f & mask & flags::STOP_WHEN_READY != 0
                            && ot.state.downloading_class_spec() {
                            TorrentController::stop_fired(w)
                        } else {
                            w
                        }
                    }));
                }
                Ok(())
            },
            None => Err(EngineError::UnknownTorrent),
        }
    }

    /// The flag word of one torrent by handle; `None` exactly when the
    /// handle resolves to nothing.
    pub fn get_torrent_flags(&self, id: u64) -> (r: Option<u64>)
        ensures
            match r {
                Some(w) => exists|j: int|
                    0 <= j < self.torrents@.len() && (#[trigger] self.torrents@[j]).id == id
                        && self.torrents@[j].flags == w,
                None => forall|j: int| 0 <= j < self.torrents@.len()
                    ==> (#[trigger] self.torrents@[j]).id != id,
            },
    {
        match self.find_by_id(id) {
            Some(i) => {
                proof {
                    assert(self.torrents@[i as int].id == id);
                }
                Some(self.torrents[i].get_flags())
            },
            None => None,
        }
    }

    /// Clears the error condition of one torrent by handle.
    pub fn clear_torrent_error(&mut self, id: u64) -> (r: Result<(), EngineError>)
        requires
            old(self).wf(),
        ensures
            final(self).wf(),
            r is Ok <==> exists|j: int|
                0 <= j < old(self).torrents@.len() && (#[trigger] old(self).torrents@[j]).id == id,
            r is Err ==> *final(self) == *old(self) && r == Result::<(), EngineError>::Err(
                EngineError::UnknownTorrent,
            ),
            final(self).others_unchanged(*old(self), id),
            final(self).surroundings_unchanged(*old(self)),
            forall|j: int|
                0 <= j < old(self).torrents@.len() && (#[trigger] old(self).torrents@[j]).id == id
                    ==> final(self).torrents@[j].errc@.len() == 0 && final(self).torrents@[j].error_file
                    == crate::torrent_status::ERROR_FILE_NONE
                    && final(self).torrents@[j].flags == old(self).torrents@[j].flags,
    {
        match self.find_by_id(id) {
            Some(i) => {
                let ghost pre = self.torrents@;
                let t = &mut self.torrents[i];
                t.clear_error();
                proof {
                    self.lemma_one_torrent_updated(*old(self), pre, i as int, id);
                }
                Ok(())
            },
            None => Err(EngineError::UnknownTorrent),
        }
    }

    /// Queues one torrent for a full recheck by handle.
    pub fn force_recheck(&mut self, id: u64) -> (r: Result<(), EngineError>)
        requires
            old(self).wf(),
        ensures
            final(self).wf(),
            r is Ok <==> exists|j: int|
                0 <= j < old(self).torrents@.len() && (#[trigger] old(self).torrents@[j]).id == id,
            r is Err ==> *final(self) == *old(self) && r == Result::<(), EngineError>::Err(
                EngineError::UnknownTorrent,
            ),
            final(self).others_unchanged(*old(self), id),
            final(self).surroundings_unchanged(*old(self)),
            forall|j: int|
                0 <= j < old(self).torrents@.len() && (#[trigger] old(self).torrents@[j]).id == id
                    ==> final(self).torrents@[j].state == crate::torrent_status::State::checking_files,
    {
        match self.find_by_id(id) {
            Some(i) => {
                let ghost pre = self.torrents@;
                let t = &mut self.torrents[i];
                t.force_recheck();
                proof {
                    self.lemma_one_torrent_updated(*old(self), pre, i as int, id);
                }
                Ok(())
            },
            None => Err(EngineError::UnknownTorrent),
        }
    }

    /// Forces a re-announce of every tracker of one torrent by handle.
    pub fn force_reannounce(&mut self, id: u64, now: i64) -> (r: Result<(), EngineError>)
        requires
            old(self).wf(),
        ensures
            final(self).wf(),
            r is Ok <==> exists|j: int|
                0 <= j < old(self).torrents@.len() && (#[trigger] old(self).torrents@[j]).id == id,
            r is Err ==> *final(self) == *old(self) && r == Result::<(), EngineError>::Err(
                EngineError::UnknownTorrent,
            ),
            final(self).others_unchanged(*old(self), id),
            final(self).surroundings_unchanged(*old(self)),
            forall|j: int|
                0 <= j < old(self).torrents@.len() && (#[trigger] old(self).torrents@[j]).id == id
                    ==> final(self).torrents@[j].trackers@.len()
                    == old(self).torrents@[j].trackers@.len() && forall|k: int|
                    0 <= k < old(self).torrents@[j].trackers@.len()
                        ==> crate::announce_entry::entry_forced(
                        old(self).torrents@[j].trackers@[k],
                        #[trigger] final(self).torrents@[j].trackers@[k],
                        now,
                    ),
    {
        match self.find_by_id(id) {
            Some(i) => {
                let ghost pre = self.torrents@;
                let t = &mut self.torrents[i];
                t.force_reannounce(now);
                proof {
                    self.lemma_one_torrent_updated(*old(self), pre, i as int, id);
                }
                Ok(())
            },
            None => Err(EngineError::UnknownTorrent),
        }
    }

    /// Requests a scrape of every tracker of one torrent by handle.
    pub fn scrape_tracker(&mut self, id: u64) -> (r: Result<(), EngineError>)
        requires
            old(self).wf(),
        ensures
            final(self).wf(),
            r is Ok <==> exists|j: int|
                0 <= j < old(self).torrents@.len() && (#[trigger] old(self).torrents@[j]).id == id,
            r is Err ==> *final(self) == *old(self) && r == Result::<(), EngineError>::Err(
                EngineError::UnknownTorrent,
            ),
            final(self).others_unchanged(*old(self), id),
            final(self).surroundings_unchanged(*old(self)),
            forall|j: int|
                0 <= j < old(self).torrents@.len() && (#[trigger] old(self).torrents@[j]).id == id
                    ==> final(self).torrents@[j].trackers@.len()
                    == old(self).torrents@[j].trackers@.len() && forall|k: int|
                    0 <= k < old(self).torrents@[j].trackers@.len()
                        ==> crate::announce_entry::entry_scraped(
                        old(self).torrents@[j].trackers@[k],
                        #[trigger] final(self).torrents@[j].trackers@[k],
                    ),
    {
        match self.find_by_id(id) {
            Some(i) => {
                let ghost pre = self.torrents@;
                let t = &mut self.torrents[i];
                t.scrape_tracker();
                proof {
                    self.lemma_one_torrent_updated(*old(self), pre, i as int, id);
                }
                Ok(())
            },
            None => Err(EngineError::UnknownTorrent),
        }
    }

    /// Adds a tracker to one torrent by handle.
    pub fn add_tracker(&mut self, id: u64, url: String, tier: u8) -> (r: Result<(), EngineError>)
        requires
            old(self).wf(),
        ensures
            final(self).wf(),
            r is Ok <==> exists|j: int|
                0 <= j < old(self).torrents@.len() && (#[trigger] old(self).torrents@[j]).id == id,
            r is Err ==> *final(self) == *old(self) && r == Result::<(), EngineError>::Err(
                EngineError::UnknownTorrent,
            ),
            final(self).others_unchanged(*old(self), id),
            final(self).surroundings_unchanged(*old(self)),
            forall|j: int|
                0 <= j < old(self).torrents@.len() && (#[trigger] old(self).torrents@[j]).id == id
                    ==> final(self).torrents@[j].trackers@.len() == old(self).torrents@[j].trackers@.len() + 1 && final(self).torrents@[j].trackers@[old(self).torrents@[j].trackers@.len() as int].url@ == url@ && final(self).torrents@[j].trackers@[old(self).torrents@[j].trackers@.len() as int].tier
                    == tier,
    {
        match self.find_by_id(id) {
            Some(i) => {
                let ghost pre = self.torrents@;
                let t = &mut self.torrents[i];
                t.add_tracker(url, tier);
                proof {
                    self.lemma_one_torrent_updated(*old(self), pre, i as int, id);
                }
                Ok(())
            },
            None => Err(EngineError::UnknownTorrent),
        }
    }

    /// The status snapshot of the torrent carrying this info-hash; `None`
    /// exactly when no torrent carries it — an invalid or removed info-hash
    /// yields an explicit empty result, never a fault. The snapshot pins the
    /// torrent's full tracked state (`status_matches`).
    pub fn get_torrent_status(&self, info_hash: &String) -> (r: Option<
        crate::torrent_status::TorrentStatus,
    >)
        requires
            self.wf(),
        ensures
            r is Some <==> self.has_info_hash(info_hash@),
            r is Some ==> exists|i: int|
                0 <= i < self.torrents@.len()
                    && (#[trigger] self.torrents@[i]).info.info_hash@ == info_hash@
                    && crate::torrent::status_matches(r.unwrap(), self.torrents@[i]),
    {
        match self.find_torrent(info_hash) {
            Some(i) => {
                let st = self.torrents[i].status();
                proof {
                    assert(self.torrents@[i as int].info.info_hash@ == info_hash@);
                }
                Some(st)
            },
            None => None,
        }
    }
}

} // verus!

verus! {

impl SessionEngine {
    /// The peer snapshots of the torrent carrying this info-hash; an unknown
    /// info-hash yields an empty list, never a fault.
    pub fn get_peers(&self, info_hash: &String) -> (r: Vec<crate::peer_info::PeerInfo>)
        requires
            self.wf(),
        ensures
            !self.has_info_hash(info_hash@) ==> r@.len() == 0,
            self.has_info_hash(info_hash@) ==> exists|i: int|
                0 <= i < self.torrents@.len()
                    && (#[trigger] self.torrents@[i]).info.info_hash@ == info_hash@
                    && r@.len() == self.torrents@[i].peers@.len() && forall|j: int|
                    0 <= j < self.torrents@[i].peers@.len()
                        ==> crate::peer_info::peer_info_matches(
                        #[trigger] r@[j],
                        self.torrents@[i].peers@[j],
                        self.torrents@[i].block_size_spec() as u32,
                        self.torrents@[i].request_timeout,
                    ),
    {
        match self.find_torrent(info_hash) {
            Some(i) => {
                let r = self.torrents[i].get_peers();
                proof {
                    assert(self.torrents@[i as int].info.info_hash@ == info_hash@);
                }
                r
            },
            None => Vec::new(),
        }
    }

    /// The per-piece availability of the torrent carrying this info-hash; an
    /// unknown info-hash yields an empty list.
    pub fn get_piece_availability(&self, info_hash: &String) -> (r: Vec<i32>)
        requires
            self.wf(),
        ensures
            !self.has_info_hash(info_hash@) ==> r@.len() == 0,
            self.has_info_hash(info_hash@) ==> exists|i: int|
                0 <= i < self.torrents@.len()
                    && (#[trigger] self.torrents@[i]).info.info_hash@ == info_hash@
                    && r@.len() == self.torrents@[i].tracker.num_pieces() && forall|p: int|
                    0 <= p < self.torrents@[i].tracker.num_pieces()
                        ==> r@[p] == crate::torrent::TorrentController::cap_i32(
                        self.torrents@[i].tracker.avail@[p] as int,
                    ),
    {
        match self.find_torrent(info_hash) {
            Some(i) => {
                let r = self.torrents[i].get_piece_availability();
                proof {
                    assert(self.torrents@[i as int].info.info_hash@ == info_hash@);
                }
                r
            },
            None => Vec::new(),
        }
    }

    /// The per-file progress of the torrent carrying this info-hash; an
    /// unknown info-hash yields an empty list.
    pub fn get_file_progress(&self, info_hash: &String, piece_granularity: bool) -> (r: Vec<i64>)
        requires
            self.wf(),
        ensures
            !self.has_info_hash(info_hash@) ==> r@.len() == 0,
            self.has_info_hash(info_hash@) ==> exists|i: int|
                0 <= i < self.torrents@.len()
                    && (#[trigger] self.torrents@[i]).info.info_hash@ == info_hash@
                    && r@.len() == self.torrents@[i].info.files@.len() && forall|f: int|
                    0 <= f < self.torrents@[i].info.files@.len()
                        ==> r@[f] as int == crate::torrent::TorrentController::cap_i64(
                        crate::torrent::cap_u64_int(
                            crate::torrent::file_progress_of(
                                self.torrents@[i].info.files@,
                                self.torrents@[i].tracker.have@,
                                self.torrents@[i].info.piece_length as int,
                                f,
                            ),
                        ),
                    ),
    {
        match self.find_torrent(info_hash) {
            Some(i) => {
                let r = self.torrents[i].get_file_progress(piece_granularity);
                proof {
                    assert(self.torrents@[i as int].info.info_hash@ == info_hash@);
                }
                r
            },
            None => Vec::new(),
        }
    }

    /// The tracker snapshots of the torrent carrying this info-hash; an
    /// unknown info-hash yields an empty list.
    pub fn get_trackers(&self, info_hash: &String) -> (r: Vec<
        crate::announce_entry::AnnounceEntry,
    >)
        requires
            self.wf(),
        ensures
            !self.has_info_hash(info_hash@) ==> r@.len() == 0,
            self.has_info_hash(info_hash@) ==> exists|i: int|
                0 <= i < self.torrents@.len()
                    && (#[trigger] self.torrents@[i]).info.info_hash@ == info_hash@
                    && r@.len() == self.torrents@[i].trackers@.len() && forall|k: int|
                    0 <= k < self.torrents@[i].trackers@.len()
                        ==> crate::announce_entry::entry_like(
                        #[trigger] r@[k],
                        self.torrents@[i].trackers@[k],
                    ),
    {
        match self.find_torrent(info_hash) {
            Some(i) => {
                let r = self.torrents[i].get_trackers();
                proof {
                    assert(self.torrents@[i as int].info.info_hash@ == info_hash@);
                }
                r
            },
            None => Vec::new(),
        }
    }

    /// The download-queue snapshot of the torrent carrying this info-hash;
    /// an unknown info-hash yields an empty snapshot.
    pub fn get_piece_info(&self, info_hash: &String) -> (r: crate::piece_info::PieceInfo)
        requires
            self.wf(),
        ensures
            !self.has_info_hash(info_hash@) ==> r.partial_pieces@.len() == 0,
            self.has_info_hash(info_hash@) ==> exists|i: int|
                0 <= i < self.torrents@.len()
                    && (#[trigger] self.torrents@[i]).info.info_hash@ == info_hash@
                    && (forall|k: int| 0 <= k < r.partial_pieces@.len()
                        ==> crate::piece_info::piece_open(
                        self.torrents@[i].tracker,
                        (#[trigger] r.partial_pieces@[k]).piece_index as int,
                    )) && (forall|p: int|
                    crate::piece_info::piece_open(self.torrents@[i].tracker, p) ==> exists|k: int|
                        0 <= k < r.partial_pieces@.len()
                            && (#[trigger] r.partial_pieces@[k]).piece_index == p),
    {
        match self.find_torrent(info_hash) {
            Some(i) => {
                let r = self.torrents[i].get_piece_info();
                proof {
                    assert(self.torrents@[i as int].info.info_hash@ == info_hash@);
                }
                r
            },
            None => crate::piece_info::PieceInfo { partial_pieces: Vec::new(), blocks: Vec::new() },
        }
    }
}

} // verus!

verus! {

/// The one gauge bucket a torrent belongs to. A torrent with an error is an
/// error-torrent regardless of its other state; a stopped torrent is paused
/// and not auto-managed; upload-only comes next; then the checking states;
/// then seeding (a finished torrent seeds what it has); everything else is
/// downloading.
pub open spec fn gauge_class_spec(t: TorrentController) -> Metrics {
    if t.errc@.len() > 0 {
        Metrics::ses_num_error_torrents
    } else if t.flags & flags::PAUSED != 0 && t.flags & flags::AUTO_MANAGED == 0 {
        Metrics::ses_num_stopped_torrents
    } else if t.flags & flags::UPLOAD_MODE != 0 {
        Metrics::ses_num_upload_only_torrents
    } else if t.state == crate::torrent_status::State::checking_files || t.state
        == crate::torrent_status::State::checking_resume_data {
        Metrics::ses_num_checking_torrents
    } else if t.state == crate::torrent_status::State::seeding || t.state
        == crate::torrent_status::State::finished {
        Metrics::ses_num_seeding_torrents
    } else {
        Metrics::ses_num_downloading_torrents
    }
}

/// How many of the first `k` torrents fall into bucket `m`.
pub open spec fn count_gauge_class(ts: Seq<TorrentController>, m: Metrics, k: int) -> int
    decreases k,
{
    if k <= 0 {
        0
    } else {
        count_gauge_class(ts, m, k - 1) + (if gauge_class_spec(ts[k - 1]) == m {
            1int
        } else {
            0int
        })
    }
}

/// The class counts never exceed the number of torrents counted.
pub proof fn lemma_count_gauge_class_bounds(ts: Seq<TorrentController>, m: Metrics, k: int)
    ensures
        0 <= count_gauge_class(ts, m, k) <= (if k >= 0 {
            k
        } else {
            0
        }),
    decreases (if k >= 0 {
        k
    } else {
        0
    }),
{
    if k > 0 {
        lemma_count_gauge_class_bounds(ts, m, k - 1);
    }
}

/// Returns the bucket of one torrent.
fn gauge_class(t: &TorrentController) -> (r: Metrics)
    ensures
        r == gauge_class_spec(*t),
{
    let empty = String::new();
    let has_error = !(t.errc == empty);
    proof {
        if t.errc@.len() == 0 {
            assert(t.errc@ =~= Seq::<char>::empty());
        }
    }
    if has_error {
        Metrics::ses_num_error_torrents
    } else if t.flags & flags::PAUSED != 0 && t.flags & flags::AUTO_MANAGED == 0 {
        Metrics::ses_num_stopped_torrents
    } else if t.flags & flags::UPLOAD_MODE != 0 {
        Metrics::ses_num_upload_only_torrents
    } else if t.state == crate::torrent_status::State::checking_files || t.state
        == crate::torrent_status::State::checking_resume_data {
        Metrics::ses_num_checking_torrents
    } else if t.state == crate::torrent_status::State::seeding || t.state
        == crate::torrent_status::State::finished {
        Metrics::ses_num_seeding_torrents
    } else {
        Metrics::ses_num_downloading_torrents
    }
}

impl SessionEngine {
    /// Folds the torrents' states into the gauge counters: each of the six
    /// per-state gauges is overwritten with how many torrents fall into that
    /// bucket right now; every other counter slot and the previous sample
    /// are untouched.
    pub fn refresh_state_gauges(&mut self)
        requires
            old(self).wf(),
        ensures
            final(self).wf(),
            final(self).torrents@ == old(self).torrents@,
            final(self).paused == old(self).paused,
            final(self).logs@ == old(self).logs@,
            final(self).next_torrent_id == old(self).next_torrent_id,
            final(self).counters@.prev == old(self).counters@.prev,
            final(self).counters@.prev_timestamp == old(self).counters@.prev_timestamp,
            final(self).counters@.cur.len() == old(self).counters@.cur.len(),
            forall|m: Metrics| (m == Metrics::ses_num_error_torrents
                || m == Metrics::ses_num_stopped_torrents
                || m == Metrics::ses_num_upload_only_torrents
                || m == Metrics::ses_num_checking_torrents
                || m == Metrics::ses_num_seeding_torrents
                || m == Metrics::ses_num_downloading_torrents)
                ==> final(self).counters@.cur[(#[trigger] m.index_spec()) as int]
                == crate::torrent::TorrentController::cap_i64(
                count_gauge_class(old(self).torrents@, m, old(self).torrents@.len() as int),
            ),
            forall|j: int| 0 <= j < old(self).counters@.cur.len()
                && j != Metrics::ses_num_error_torrents.index_spec()
                && j != Metrics::ses_num_stopped_torrents.index_spec()
                && j != Metrics::ses_num_upload_only_torrents.index_spec()
                && j != Metrics::ses_num_checking_torrents.index_spec()
                && j != Metrics::ses_num_seeding_torrents.index_spec()
                && j != Metrics::ses_num_downloading_torrents.index_spec()
                ==> final(self).counters@.cur[j] == old(self).counters@.cur[j],
    {
        let n = self.torrents.len();
        let mut n_err: usize = 0;
        let mut n_stop: usize = 0;
        let mut n_upload: usize = 0;
        let mut n_check: usize = 0;
        let mut n_seed: usize = 0;
        let mut n_down: usize = 0;
        let mut i: usize = 0;
        while i < n
            invariant
                i <= n,
                n == self.torrents@.len(),
                self.torrents@ == old(self).torrents@,
                self.counters == old(self).counters,
                self.counters.wf(),
                self.paused == old(self).paused,
                self.logs@ == old(self).logs@,
                self.next_torrent_id == old(self).next_torrent_id,
                n_err as int == count_gauge_class(
                    self.torrents@,
                    Metrics::ses_num_error_torrents,
                    i as int,
                ),
                n_stop as int == count_gauge_class(
                    self.torrents@,
                    Metrics::ses_num_stopped_torrents,
                    i as int,
                ),
                n_upload as int == count_gauge_class(
                    self.torrents@,
                    Metrics::ses_num_upload_only_torrents,
                    i as int,
                ),
                n_check as int == count_gauge_class(
                    self.torrents@,
                    Metrics::ses_num_checking_torrents,
                    i as int,
                ),
                n_seed as int == count_gauge_class(
                    self.torrents@,
                    Metrics::ses_num_seeding_torrents,
                    i as int,
                ),
                n_down as int == count_gauge_class(
                    self.torrents@,
                    Metrics::ses_num_downloading_torrents,
                    i as int,
                ),
                n_err <= i,
                n_stop <= i,
                n_upload <= i,
                n_check <= i,
                n_seed <= i,
                n_down <= i,
            decreases n - i,
        {
            let class = gauge_class(&self.torrents[i]);
            match class {
                Metrics::ses_num_error_torrents => {
                    n_err = n_err + 1;
                },
                Metrics::ses_num_stopped_torrents => {
                    n_stop = n_stop + 1;
                },
                Metrics::ses_num_upload_only_torrents => {
                    n_upload = n_upload + 1;
                },
                Metrics::ses_num_checking_torrents => {
                    n_check = n_check + 1;
                },
                Metrics::ses_num_seeding_torrents => {
                    n_seed = n_seed + 1;
                },
                _ => {
                    n_down = n_down + 1;
                },
            }
            i = i + 1;
        }
        proof {
            lemma_count_gauge_class_bounds(
                self.torrents@,
                Metrics::ses_num_error_torrents,
                n as int,
            );
            lemma_count_gauge_class_bounds(
                self.torrents@,
                Metrics::ses_num_stopped_torrents,
                n as int,
            );
            lemma_count_gauge_class_bounds(
                self.torrents@,
                Metrics::ses_num_upload_only_torrents,
                n as int,
            );
            lemma_count_gauge_class_bounds(
                self.torrents@,
                Metrics::ses_num_checking_torrents,
                n as int,
            );
            lemma_count_gauge_class_bounds(
                self.torrents@,
                Metrics::ses_num_seeding_torrents,
                n as int,
            );
            lemma_count_gauge_class_bounds(
                self.torrents@,
                Metrics::ses_num_downloading_torrents,
                n as int,
            );
        }
        proof {
            old(self).counters.lemma_wf_len();
            self.counters.lemma_wf_len();
        }
        self.counters.set_gauge(Metrics::ses_num_error_torrents, clamp_count(n_err));
        self.counters.set_gauge(Metrics::ses_num_stopped_torrents, clamp_count(n_stop));
        self.counters.set_gauge(Metrics::ses_num_upload_only_torrents, clamp_count(n_upload));
        self.counters.set_gauge(Metrics::ses_num_checking_torrents, clamp_count(n_check));
        self.counters.set_gauge(Metrics::ses_num_seeding_torrents, clamp_count(n_seed));
        self.counters.set_gauge(Metrics::ses_num_downloading_torrents, clamp_count(n_down));
    }
}

/// A count as a signed counter value, clamped at the top.
fn clamp_count(x: usize) -> (r: i64)
    ensures
        r as int == crate::torrent::TorrentController::cap_i64(x as int),
{
    if (x as u64) > (i64::MAX as u64) {
        i64::MAX
    } else {
        x as i64
    }
}

} // verus!

verus! {

impl SessionEngine {
    /// The periodic tick of the queuing logic that retries auto-managed
    /// torrents out of upload mode: every auto-managed torrent in upload
    /// mode leaves it; every other torrent's flags are untouched.
    pub fn retry_upload_mode_torrents(&mut self)
        requires
            old(self).wf(),
        ensures
            final(self).wf(),
            final(self).torrents@.len() == old(self).torrents@.len(),
            forall|j: int| 0 <= j < old(self).torrents@.len() ==> {
                &&& (#[trigger] final(self).torrents@[j]).flags == (if old(
                    self,
                ).torrents@[j].flags & flags::AUTO_MANAGED != 0 && old(self).torrents@[j].flags
                    & flags::UPLOAD_MODE != 0 {
                    flags::with_flags_cleared(old(self).torrents@[j].flags, flags::UPLOAD_MODE)
                } else {
                    old(self).torrents@[j].flags
                })
                &&& final(self).torrents@[j].only_flags_changed(old(self).torrents@[j])
            },
            final(self).surroundings_unchanged(*old(self)),
    {
        let n = self.torrents.len();
        let mut i: usize = 0;
        while i < n
            invariant
                i <= n,
                old(self).wf(),
                self.torrents@.len() == n,
                n == old(self).torrents@.len(),
                self.counters == old(self).counters,
                self.counters.wf(),
                self.paused == old(self).paused,
                self.logs@ == old(self).logs@,
                self.next_torrent_id == old(self).next_torrent_id,
                forall|j: int| i <= j < n
                    ==> #[trigger] self.torrents@[j] == old(self).torrents@[j],
                forall|j: int| 0 <= j < i ==> {
                    &&& (#[trigger] self.torrents@[j]).flags == (if old(
                        self,
                    ).torrents@[j].flags & flags::AUTO_MANAGED != 0 && old(
                        self,
                    ).torrents@[j].flags & flags::UPLOAD_MODE != 0 {
                        flags::with_flags_cleared(
                            old(self).torrents@[j].flags,
                            flags::UPLOAD_MODE,
                        )
                    } else {
                        old(self).torrents@[j].flags
                    })
                    &&& self.torrents@[j].only_flags_changed(old(self).torrents@[j])
                    &&& self.torrents@[j].wf()
                },
            decreases n - i,
        {
            let ghost pre = self.torrents@;
            proof {
                assert(self.torrents@[i as int] == old(self).torrents@[i as int]);
                assert(old(self).torrents@[i as int].wf());
            }
            let t = &mut self.torrents[i];
            t.retry_upload_mode();
            proof {
                assert forall|j: int| 0 <= j < n && j != i
                    implies #[trigger] self.torrents@[j] == pre[j] by {}
            }
            i = i + 1;
        }
        proof {
            assert forall|a: int| 0 <= a < self.torrents@.len()
                implies (#[trigger] self.torrents@[a]).wf() && self.torrents@[a].id
                    < self.next_torrent_id by {
                assert(self.torrents@[a].only_flags_changed(old(self).torrents@[a]));
                assert(old(self).torrents@[a].wf());
            }
            assert forall|a: int, b: int| 0 <= a < b < self.torrents@.len()
                implies (#[trigger] self.torrents@[a]).id != (#[trigger] self.torrents@[b]).id
                    && (#[trigger] self.torrents@[a]).info.info_hash@ != (
                #[trigger] self.torrents@[b]).info.info_hash@ by {
                assert(self.torrents@[a].same_identity(old(self).torrents@[a]));
                assert(self.torrents@[b].same_identity(old(self).torrents@[b]));
            }
        }
    }
}

} // verus!
