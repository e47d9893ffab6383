//! One torrent's aggregate state: status, flags and priorities, composed
//! with its piece tracker, peer connections and tracker entries.

use vstd::prelude::*;

use crate::announce_entry::entry_forced;
use crate::announce_entry::AnnounceEntry;
use crate::errors::EngineError;
use crate::flags;
use crate::peer::PeerConnection;
use crate::peer::PeerState;
use crate::peer::DisconnectReason;
use crate::picker;
use crate::piece_tracker::block_released;
use crate::piece_tracker::block_weakened;
use crate::piece_tracker::lemma_released_weakens;
use crate::piece_tracker::BlockState;
use crate::piece_tracker::PieceBlockTracker;
use crate::session_stats::saturating_add_i64;
use crate::session_stats::CountersAggregator;
use crate::metrics::Metrics;
use crate::torrent_info::files_size_upto;
use crate::torrent_info::lemma_files_size_upto_mono;
use crate::torrent_info::torrent_info_wf;
use crate::torrent_info::TorrentInfo;
use crate::torrent_status::State;
use crate::torrent_status::ERROR_FILE_NONE;

verus! {

/// One torrent: its identity and metadata, flag word, public state, error
/// condition, per-file priorities, block tracker, peers and trackers.
pub struct TorrentController {
    /// The generation-tagged identity of this torrent within the session;
    /// never reused, so stale handles fail to resolve instead of aliasing.
    pub id: u64,
    pub info: TorrentInfo,
    pub save_path: String,
    /// The torrent's 64-bit flag word.
    pub flags: u64,
    /// The public state of the torrent.
    pub state: State,
    /// The error that paused the torrent, or empty.
    pub errc: String,
    /// The file an error is attributed to, or `ERROR_FILE_NONE`.
    pub error_file: i8,
    /// One download priority per file.
    pub file_priorities: Vec<u8>,
    /// Piece and block download state.
    pub tracker: PieceBlockTracker,
    /// The peer connections of this torrent.
    pub peers: Vec<PeerConnection>,
    /// The trackers of this torrent.
    pub trackers: Vec<AnnounceEntry>,
    /// The identity the next peer connection will get.
    pub next_peer_id: u64,
    /// The configured per-request timeout in seconds, a policy input from
    /// the settings surface.
    pub request_timeout: i32,
    /// Bytes downloaded that failed the piece hash test, at exact piece
    /// sizes, clamped at the top of the counter's range.
    pub total_failed_bytes: i64,
    /// Bytes downloaded more than once — the losers of endgame races —
    /// counted at the nominal block size, clamped at the top of the range.
    pub total_redundant_bytes: i64,
    /// When the torrent was added, as posix time.
    pub added_time: i64,
    /// When the torrent finished, or 0.
    pub completed_time: i64,
    /// False while the torrent has only an info-hash (magnet add).
    pub has_metadata: bool,
}

impl TorrentController {
    /// The tracker is sound, its geometry matches the metadata and fits the
    /// snapshot types, there is one file priority per file, and every peer's
    /// piece bitmap spans the torrent.
    pub open spec fn wf(self) -> bool {
        &&& self.tracker.wf()
        &&& self.tracker.num_pieces() == self.info.num_pieces as int
        &&& self.info.num_pieces as int <= i32::MAX
        &&& forall|p: int| 0 <= p < self.tracker.num_pieces()
            ==> self.tracker.blocks_in(p) <= i32::MAX
        &&& self.file_priorities@.len() == self.info.files@.len()
        &&& torrent_info_wf(self.info)
        &&& forall|i: int| 0 <= i < self.peers@.len()
            ==> (#[trigger] self.peers@[i]).pieces@.len() == self.tracker.num_pieces()
    }

    /// Everything not named by an operation's contract is unchanged.
    pub open spec fn same_identity(self, other: TorrentController) -> bool {
        &&& self.id == other.id
        &&& self.info == other.info
        &&& self.save_path@ == other.save_path@
        &&& self.added_time == other.added_time
    }

    /// A fresh torrent. With metadata it starts by checking resume data;
    /// added from a magnet link it starts by downloading metadata. Its
    /// tracker entries come from the metadata's URLs, all at tier 0; every
    /// file starts at the default priority; no peers are connected yet.
    pub fn new(
        id: u64,
        info: TorrentInfo,
        save_path: String,
        torrent_flags: u64,
        added_time: i64,
        last_piece_blocks: usize,
    ) -> (r: TorrentController)
        requires
            info.num_pieces as int <= i32::MAX,
            info.blocks_per_piece as int <= i32::MAX,
            torrent_info_wf(info),
            info.num_pieces > 0 ==> 0 < last_piece_blocks <= info.blocks_per_piece,
        ensures
            r.wf(),
            r.id == id,
            r.info == info,
            r.save_path@ == save_path@,
            r.flags == torrent_flags,
            r.has_metadata == (info.num_pieces > 0),
            r.state == (if info.num_pieces > 0 {
                State::checking_resume_data
            } else {
                State::downloading_metadata
            }),
            r.errc@.len() == 0,
            r.error_file == ERROR_FILE_NONE,
            r.added_time == added_time,
            r.completed_time == 0,
            r.peers@.len() == 0,
            r.next_peer_id == 1,
            r.request_timeout == 60,
            r.total_failed_bytes == 0,
            r.total_redundant_bytes == 0,
            r.tracker.num_pieces() == info.num_pieces as int,
            forall|p: int, b: int|
                0 <= p < r.tracker.num_pieces() && 0 <= b < r.tracker.blocks_in(p)
                    ==> r.tracker.state_of(p, b) == BlockState::Empty,
            forall|p: int| 0 <= p < r.tracker.num_pieces()
                ==> !r.tracker.piece_have(p) && r.tracker.priority_of(p) == 4
                    && r.tracker.avail@[p] == 0,
            r.tracker.fail_count == 0,
            r.file_priorities@.len() == info.files@.len(),
            forall|i: int| 0 <= i < info.files@.len() ==> r.file_priorities@[i] == 4,
            r.trackers@.len() == info.trackers@.len(),
            forall|i: int| 0 <= i < info.trackers@.len() ==> {
                &&& (#[trigger] r.trackers@[i]).url@ == info.trackers@[i]@
                &&& r.trackers@[i].tier == 0
                &&& r.trackers@[i].source == flags::TRACKER_SOURCE_TORRENT
            },
    {
        let num_pieces = info.num_pieces as usize;
        let bpp = if info.blocks_per_piece == 0 {
            1
        } else {
            info.blocks_per_piece as usize
        };
        let lpb = if info.num_pieces == 0 {
            1
        } else {
            last_piece_blocks
        };
        let tracker = PieceBlockTracker::new(num_pieces, bpp, lpb);
        let mut file_priorities: Vec<u8> = Vec::new();
        let mut i: usize = 0;
        let nf = info.files.len();
        while i < nf
            invariant
                i <= nf,
                file_priorities@.len() == i,
                forall|j: int| 0 <= j < i ==> file_priorities@[j] == 4,
            decreases nf - i,
        {
            file_priorities.push(4);
            i = i + 1;
        }
        let mut trackers: Vec<AnnounceEntry> = Vec::new();
        let mut k: usize = 0;
        let nt = info.trackers.len();
        while k < nt
            invariant
                k <= nt,
                nt == info.trackers@.len(),
                trackers@.len() == k,
                forall|j: int| 0 <= j < k ==> {
                    &&& (#[trigger] trackers@[j]).url@ == info.trackers@[j]@
                    &&& trackers@[j].tier == 0
                    &&& trackers@[j].source == flags::TRACKER_SOURCE_TORRENT
                },
            decreases nt - k,
        {
            let url = info.trackers[k].clone();
            trackers.push(AnnounceEntry::new(url, 0, flags::TRACKER_SOURCE_TORRENT));
            k = k + 1;
        }
        let has_metadata = info.num_pieces > 0;
        TorrentController {
            id,
            info,
            save_path,
            flags: torrent_flags,
            state: if has_metadata {
                State::checking_resume_data
            } else {
                State::downloading_metadata
            },
            errc: String::new(),
            error_file: ERROR_FILE_NONE,
            file_priorities,
            tracker,
            peers: Vec::new(),
            trackers,
            next_peer_id: 1,
            request_timeout: 60,
            total_failed_bytes: 0,
            total_redundant_bytes: 0,
            added_time,
            completed_time: 0,
            has_metadata,
        }
    }

    /// The torrent's flag word.
    pub fn get_flags(&self) -> (r: u64)
        ensures
            r == self.flags,
    {
        self.flags
    }

    /// Everything but the flag word is unchanged.
    pub open spec fn only_flags_changed(self, other: TorrentController) -> bool {
        &&& self.same_identity(other)
        &&& self.state == other.state
        &&& self.errc@ == other.errc@
        &&& self.error_file == other.error_file
        &&& self.file_priorities@ == other.file_priorities@
        &&& self.tracker == other.tracker
        &&& self.peers@ == other.peers@
        &&& self.trackers@ == other.trackers@
        &&& self.next_peer_id == other.next_peer_id
        &&& self.completed_time == other.completed_time
        &&& self.has_metadata == other.has_metadata
    }

    /// Sets the given flags, leaving every other bit unchanged. Seed mode
    /// can only be set when the torrent is added, so an attempt to set it
    /// here is ignored. Setting the stop-when-ready flag arms its
    /// edge-sensitive trigger: while the torrent is already in a
    /// data-transferring state it fires at once — auto-management cleared,
    /// the torrent paused, the one-shot trigger clearing itself — instead of
    /// waiting for an edge that would never come.
    pub fn set_flags(&mut self, f: u64)
        requires
            old(self).wf(),
        ensures
            final(self).wf(),
            final(self).flags == ({
                let w = flags::with_flags_set(old(self).flags, f & !flags::SEED_MODE);
                if f & flags::STOP_WHEN_READY != 0 && old(self).state.downloading_class_spec() {
                    Self::stop_fired(w)
                } else {
                    w
                }
            }),
            final(self).only_flags_changed(*old(self)),
    {
        self.flags = flags::set_flags_word(self.flags, f & !flags::SEED_MODE);
        if f & flags::STOP_WHEN_READY != 0 && self.state.downloading_class() {
            self.flags = flags::set_flags_word(
                flags::unset_flags_word(
                    self.flags,
                    flags::AUTO_MANAGED | flags::STOP_WHEN_READY,
                ),
                flags::PAUSED,
            );
        }
    }

    /// Clears the given flags, leaving every other bit unchanged. Seed mode
    /// may be cleared at any time.
    pub fn unset_flags(&mut self, f: u64)
        requires
            old(self).wf(),
        ensures
            final(self).wf(),
            final(self).flags == flags::with_flags_cleared(old(self).flags, f),
            final(self).only_flags_changed(*old(self)),
    {
        self.flags = flags::unset_flags_word(self.flags, f);
    }

    /// Replaces exactly the masked bits of the flag word with the
    /// corresponding bits of `f`; bits outside the mask are untouched. An
    /// attempt to set seed mode through the mask is ignored, while clearing
    /// it is allowed.
    pub fn set_flags_with_mask(&mut self, f: u64, mask: u64)
        requires
            old(self).wf(),
        ensures
            final(self).wf(),
            final(self).flags == ({
                let w = flags::with_flags_masked(
                    old(self).flags,
                    f,
                    if f & flags::SEED_MODE != 0 {
                        mask & !flags::SEED_MODE
                    } else {
                        mask
                    },
                );
                if f & mask & flags::STOP_WHEN_READY != 0
                    && old(self).state.downloading_class_spec() {
                    Self::stop_fired(w)
                } else {
                    w
                }
            }),
            final(self).only_flags_changed(*old(self)),
    {
        let m_eff = if f & flags::SEED_MODE != 0 {
            mask & !flags::SEED_MODE
        } else {
            mask
        };
        self.flags = flags::set_flags_with_mask_word(self.flags, f, m_eff);
        if f & mask & flags::STOP_WHEN_READY != 0 && self.state.downloading_class() {
            self.flags = flags::set_flags_word(
                flags::unset_flags_word(
                    self.flags,
                    flags::AUTO_MANAGED | flags::STOP_WHEN_READY,
                ),
                flags::PAUSED,
            );
        }
    }

    /// Pauses the torrent: auto-management is cleared and the paused flag is
    /// set, so no new requests are issued. A graceful pause drains in-flight
    /// requests — established peers move to the closing state and keep their
    /// queues, and the block tracker is untouched. A non-graceful pause
    /// disconnects and destroys every peer at once: the peer list empties,
    /// each block either keeps its state or falls back to unrequested, no
    /// block gains a requester, and no piece's availability grows.
    pub fn pause(&mut self, graceful: bool)
        requires
            old(self).wf(),
        ensures
            final(self).wf(),
            final(self).flags == flags::with_flags_set(
                flags::with_flags_cleared(old(self).flags, flags::AUTO_MANAGED),
                flags::PAUSED,
            ),
            final(self).same_identity(*old(self)),
            final(self).state == old(self).state,
            graceful ==> final(self).tracker == old(self).tracker,
            graceful ==> final(self).peers@.len() == old(self).peers@.len(),
            graceful ==> forall|i: int| 0 <= i < old(self).peers@.len() ==> {
                &&& (#[trigger] final(self).peers@[i]).state == (if old(self).peers@[i].state
                    == PeerState::Established {
                    PeerState::Closing
                } else {
                    old(self).peers@[i].state
                })
                &&& final(self).peers@[i].queue@ == old(self).peers@[i].queue@
                &&& final(self).peers@[i].only_state_and_queue_changed(old(self).peers@[i])
            },
            !graceful ==> {
                &&& final(self).peers@.len() == 0
                &&& final(self).tracker.num_pieces() == old(self).tracker.num_pieces()
                &&& final(self).tracker.same_dims(old(self).tracker)
                &&& final(self).tracker.have@ == old(self).tracker.have@
                &&& final(self).tracker.priorities@ == old(self).tracker.priorities@
                &&& final(self).tracker.fail_count == old(self).tracker.fail_count
                &&& final(self).tracker.avail@.len() == old(self).tracker.avail@.len()
                &&& forall|p: int| 0 <= p < old(self).tracker.num_pieces()
                    ==> final(self).tracker.avail@[p] <= old(self).tracker.avail@[p]
                &&& forall|p: int, b: int|
                    0 <= p < old(self).tracker.num_pieces() && 0 <= b < old(self).tracker.blocks_in(p) ==> block_weakened(
                        old(self).tracker.block_at(p, b),
                        #[trigger] final(self).tracker.block_at(p, b),
                    )
            },
    {
        self.flags = flags::set_flags_word(
            flags::unset_flags_word(self.flags, flags::AUTO_MANAGED),
            flags::PAUSED,
        );
        if graceful {
            let n = self.peers.len();
            let mut i: usize = 0;
            while i < n
                invariant
                    i <= n,
                    self.peers@.len() == n,
                    n == old(self).peers@.len(),
                    self.same_identity(*old(self)),
                    self.state == old(self).state,
                    self.flags == flags::with_flags_set(
                        flags::with_flags_cleared(old(self).flags, flags::AUTO_MANAGED),
                        flags::PAUSED,
                    ),
                    self.tracker == old(self).tracker,
                    self.errc@ == old(self).errc@,
                    self.error_file == old(self).error_file,
                    self.file_priorities@ == old(self).file_priorities@,
                    self.trackers@ == old(self).trackers@,
                    self.next_peer_id == old(self).next_peer_id,
                    self.completed_time == old(self).completed_time,
                    self.has_metadata == old(self).has_metadata,
                    self.info == old(self).info,
                    forall|j: int| i <= j < n
                        ==> #[trigger] self.peers@[j] == old(self).peers@[j],
                    forall|j: int| 0 <= j < i ==> {
                        &&& (#[trigger] self.peers@[j]).state == (if old(self).peers@[j].state
                            == PeerState::Established {
                            PeerState::Closing
                        } else {
                            old(self).peers@[j].state
                        })
                        &&& self.peers@[j].queue@ == old(self).peers@[j].queue@
                        &&& self.peers@[j].only_state_and_queue_changed(old(self).peers@[j])
                    },
                decreases n - i,
            {
                let ghost pre = self.peers@;
                if self.peers[i].state == PeerState::Established {
                    let peer = &mut self.peers[i];
                    peer.begin_graceful_close();
                }
                proof {
                    assert forall|j: int| 0 <= j < n && j != i
                        implies #[trigger] self.peers@[j] == pre[j] by {}
                }
                i = i + 1;
            }
        } else {
            while self.peers.len() > 0
                invariant
                    self.wf(),
                    self.same_identity(*old(self)),
                    self.state == old(self).state,
                    self.flags == flags::with_flags_set(
                        flags::with_flags_cleared(old(self).flags, flags::AUTO_MANAGED),
                        flags::PAUSED,
                    ),
                    self.errc@ == old(self).errc@,
                    self.error_file == old(self).error_file,
                    self.file_priorities@ == old(self).file_priorities@,
                    self.trackers@ == old(self).trackers@,
                    self.next_peer_id == old(self).next_peer_id,
                    self.completed_time == old(self).completed_time,
                    self.has_metadata == old(self).has_metadata,
                    self.info == old(self).info,
                    self.tracker.num_pieces() == old(self).tracker.num_pieces(),
                    self.tracker.same_dims(old(self).tracker),
                    self.tracker.have@ == old(self).tracker.have@,
                    self.tracker.priorities@ == old(self).tracker.priorities@,
                    self.tracker.fail_count == old(self).tracker.fail_count,
                    self.tracker.avail@.len() == old(self).tracker.avail@.len(),
                    forall|p: int| 0 <= p < old(self).tracker.num_pieces()
                        ==> self.tracker.avail@[p] <= old(self).tracker.avail@[p],
                    forall|p: int, b: int|
                        0 <= p < old(self).tracker.num_pieces() && 0 <= b < old(self).tracker.blocks_in(p) ==> block_weakened(
                            old(self).tracker.block_at(p, b),
                            #[trigger] self.tracker.block_at(p, b),
                        ),
                decreases self.peers@.len(),
            {
                let ghost pre = *self;
                let last = self.peers.len() - 1;
                let peer = self.peers.remove(last);
                let peer_id = peer.id;
                let np = self.tracker.avail.len();
                proof {
                    assert(pre.peers@[last as int].pieces@.len() == pre.tracker.num_pieces());
                    assert(np == self.tracker.num_pieces());
                }
                let mut p: usize = 0;
                while p < np
                    invariant
                        p <= np,
                        self.tracker.avail@.len() == np,
                        np == pre.tracker.num_pieces(),
                        peer.pieces@.len() == np,
                        self.tracker.wf(),
                        self.tracker.blocks@ == pre.tracker.blocks@,
                        self.tracker.have@ == pre.tracker.have@,
                        self.tracker.priorities@ == pre.tracker.priorities@,
                        self.tracker.fail_count == pre.tracker.fail_count,
                        self.peers@ == pre.peers@.subrange(0, pre.peers@.len() - 1),
                        self.same_identity(pre),
                        self.flags == pre.flags,
                        self.state == pre.state,
                        self.trackers@ == pre.trackers@,
                        self.next_peer_id == pre.next_peer_id,
                        self.errc@ == pre.errc@,
                        self.error_file == pre.error_file,
                        self.file_priorities@ == pre.file_priorities@,
                        self.completed_time == pre.completed_time,
                        self.has_metadata == pre.has_metadata,
                        forall|q: int| 0 <= q < np
                            ==> self.tracker.avail@[q] <= pre.tracker.avail@[q],
                    decreases np - p,
                {
                    if peer.pieces[p] && self.tracker.avail[p] > 0 {
                        self.tracker.peer_lost_piece(p);
                    }
                    p = p + 1;
                }
                let ghost mid = self.tracker;
                self.tracker.on_peer_closed(peer_id);
                proof {
                    assert forall|j: int| 0 <= j < self.peers@.len()
                        implies (#[trigger] self.peers@[j]).pieces@.len()
                            == self.tracker.num_pieces() by {
                        assert(self.peers@[j] == pre.peers@[j]);
                        assert(pre.peers@[j].pieces@.len() == pre.tracker.num_pieces());
                    }
                    assert forall|p2: int| 0 <= p2 < self.tracker.num_pieces()
                        implies #[trigger] self.tracker.blocks_in(p2) <= i32::MAX by {
                        assert(mid.blocks_in(p2) == self.tracker.blocks_in(p2));
                        assert(mid.blocks@ == pre.tracker.blocks@);
                        assert(mid.blocks_in(p2) == pre.tracker.blocks_in(p2));
                        assert(pre.tracker.blocks_in(p2) <= i32::MAX);
                    }
                    assert forall|p2: int| 0 <= p2 < self.tracker.num_pieces()
                        implies self.tracker.blocks_in(p2) == #[trigger] old(self).tracker.blocks_in(p2) by {
                        assert(mid.blocks_in(p2) == self.tracker.blocks_in(p2));
                        assert(mid.blocks@ == pre.tracker.blocks@);
                        assert(mid.blocks_in(p2) == pre.tracker.blocks_in(p2));
                        assert(pre.tracker.blocks_in(p2) == old(self).tracker.blocks_in(p2));
                    }
                    assert(self.tracker.same_dims(old(self).tracker));
                    assert forall|p2: int, b: int|
                        0 <= p2 < old(self).tracker.num_pieces() && 0 <= b < old(self).tracker.blocks_in(p2) implies block_weakened(
                        old(self).tracker.block_at(p2, b),
                        #[trigger] self.tracker.block_at(p2, b),
                    ) by {
                        assert(mid.block_at(p2, b) == pre.tracker.block_at(p2, b));
                        assert(block_released(
                            mid.block_at(p2, b),
                            self.tracker.block_at(p2, b),
                            peer_id,
                        ));
                        lemma_released_weakens(
                            mid.block_at(p2, b),
                            self.tracker.block_at(p2, b),
                            peer_id,
                        );
                        assert(block_weakened(
                            old(self).tracker.block_at(p2, b),
                            pre.tracker.block_at(p2, b),
                        ));
                    }
                }
            }
        }
    }

    /// Resumes the torrent by handing it back to the auto manager: the
    /// auto-managed flag is set and every other bit is left unchanged.
    pub fn resume(&mut self)
        requires
            old(self).wf(),
        ensures
            final(self).wf(),
            final(self).flags == flags::with_flags_set(old(self).flags, flags::AUTO_MANAGED),
            final(self).only_flags_changed(*old(self)),
    {
        self.flags = flags::set_flags_word(self.flags, flags::AUTO_MANAGED);
    }

    /// What firing stop-when-ready does to the flag word: auto-management
    /// off, paused on, and the one-shot trigger cleared.
    pub open spec fn stop_fired(w: u64) -> u64 {
        flags::with_flags_set(
            flags::with_flags_cleared(w, flags::AUTO_MANAGED | flags::STOP_WHEN_READY),
            flags::PAUSED,
        )
    }

    /// Arms stop-when-ready. The trigger is edge-sensitive, so arming it
    /// while the torrent is already in a data-transferring state fires it at
    /// once — auto-management is cleared and the torrent is paused — instead
    /// of waiting for an edge that would never come. Arming it earlier only
    /// sets the flag; the effect fires on the next edge into a
    /// data-transferring state.
    pub fn arm_stop_when_ready(&mut self)
        requires
            old(self).wf(),
        ensures
            final(self).wf(),
            final(self).only_flags_changed(*old(self)),
            final(self).flags == (if old(self).state.downloading_class_spec() {
                Self::stop_fired(old(self).flags)
            } else {
                flags::with_flags_set(old(self).flags, flags::STOP_WHEN_READY)
            }),
    {
        if self.state.downloading_class() {
            self.flags = flags::set_flags_word(
                flags::unset_flags_word(
                    self.flags,
                    flags::AUTO_MANAGED | flags::STOP_WHEN_READY,
                ),
                flags::PAUSED,
            );
        } else {
            self.flags = flags::set_flags_word(self.flags, flags::STOP_WHEN_READY);
        }
    }

    /// Moves the torrent to a new public state. On the edge from a
    /// non-transferring into a data-transferring state, an armed
    /// stop-when-ready fires: auto-management is cleared, the torrent is
    /// paused, and the one-shot trigger clears itself.
    pub fn enter_state(&mut self, s: State)
        requires
            old(self).wf(),
        ensures
            final(self).wf(),
            final(self).state == s,
            final(self).same_identity(*old(self)),
            final(self).tracker == old(self).tracker,
            final(self).peers@ == old(self).peers@,
            final(self).trackers@ == old(self).trackers@,
            final(self).errc@ == old(self).errc@,
            final(self).flags == (if old(self).flags & flags::STOP_WHEN_READY != 0
                && s.downloading_class_spec()
                && !old(self).state.downloading_class_spec() {
                Self::stop_fired(old(self).flags)
            } else {
                old(self).flags
            }),
    {
        let fire = self.flags & flags::STOP_WHEN_READY != 0 && s.downloading_class()
            && !self.state.downloading_class();
        self.state = s;
        if fire {
            self.flags = flags::set_flags_word(
                flags::unset_flags_word(
                    self.flags,
                    flags::AUTO_MANAGED | flags::STOP_WHEN_READY,
                ),
                flags::PAUSED,
            );
        }
    }

    /// Clears the torrent's error condition.
    pub fn clear_error(&mut self)
        requires
            old(self).wf(),
        ensures
            final(self).wf(),
            final(self).errc@.len() == 0,
            final(self).error_file == ERROR_FILE_NONE,
            final(self).same_identity(*old(self)),
            final(self).flags == old(self).flags,
            final(self).state == old(self).state,
            final(self).tracker == old(self).tracker,
            final(self).peers@ == old(self).peers@,
            final(self).trackers@ == old(self).trackers@,
    {
        self.errc = String::new();
        self.error_file = ERROR_FILE_NONE;
    }

    /// Records a storage error: the torrent escalates into upload mode so no
    /// new requests are issued, and the error and the file it is attributed
    /// to are surfaced through the status. Auto-managed torrents are retried
    /// out of upload mode periodically by the session's queuing logic.
    pub fn on_storage_error(&mut self, error_file: i8, message: String)
        requires
            old(self).wf(),
        ensures
            final(self).wf(),
            final(self).flags == flags::with_flags_set(old(self).flags, flags::UPLOAD_MODE),
            final(self).errc@ == message@,
            final(self).error_file == error_file,
            final(self).same_identity(*old(self)),
            final(self).state == old(self).state,
            final(self).tracker == old(self).tracker,
            final(self).peers@ == old(self).peers@,
    {
        self.flags = flags::set_flags_word(self.flags, flags::UPLOAD_MODE);
        self.errc = message;
        self.error_file = error_file;
    }

    /// Queues the torrent for a full recheck: every piece goes back to
    /// unverified — its block data stays, awaiting the hash verdicts of the
    /// recheck — and the public state moves to checking files.
    pub fn force_recheck(&mut self)
        requires
            old(self).wf(),
        ensures
            final(self).wf(),
            final(self).state == State::checking_files,
            final(self).tracker.have@.len() == old(self).tracker.have@.len(),
            forall|p: int| 0 <= p < old(self).tracker.num_pieces()
                ==> !final(self).tracker.piece_have(p),
            final(self).tracker.blocks@ == old(self).tracker.blocks@,
            final(self).tracker.avail@ == old(self).tracker.avail@,
            final(self).tracker.priorities@ == old(self).tracker.priorities@,
            final(self).tracker.fail_count == old(self).tracker.fail_count,
            final(self).same_identity(*old(self)),
            final(self).flags == old(self).flags,
            final(self).peers@ == old(self).peers@,
            final(self).trackers@ == old(self).trackers@,
    {
        self.state = State::checking_files;
        let n = self.tracker.have.len();
        let mut p: usize = 0;
        while p < n
            invariant
                p <= n,
                self.tracker.have@.len() == n,
                forall|q: int| 0 <= q < p ==> !self.tracker.have@[q],
                forall|q: int| p <= q < n
                    ==> self.tracker.have@[q] == old(self).tracker.have@[q],
                self.tracker.blocks@ == old(self).tracker.blocks@,
                self.tracker.avail@ == old(self).tracker.avail@,
                self.tracker.priorities@ == old(self).tracker.priorities@,
                self.tracker.fail_count == old(self).tracker.fail_count,
                self.same_identity(*old(self)),
                self.state == State::checking_files,
                self.flags == old(self).flags,
                self.peers@ == old(self).peers@,
                self.trackers@ == old(self).trackers@,
                self.errc@ == old(self).errc@,
                self.error_file == old(self).error_file,
                self.file_priorities@ == old(self).file_priorities@,
                self.next_peer_id == old(self).next_peer_id,
                self.completed_time == old(self).completed_time,
                self.has_metadata == old(self).has_metadata,
            decreases n - p,
        {
            self.tracker.have[p] = false;
            p = p + 1;
        }
        proof {
            let ns = *self;
            assert forall|q: int| 0 <= q < ns.tracker.num_pieces() && ns.tracker.piece_have(q)
                implies ns.tracker.all_blocks_finished(q) by {
                assert(!ns.tracker.piece_have(q));
            }
            assert forall|q: int| 0 <= q < ns.tracker.num_pieces()
                implies ns.tracker.blocks_in(q) <= i32::MAX by {
                assert(ns.tracker.blocks@ == old(self).tracker.blocks@);
                assert(ns.tracker.blocks_in(q) == old(self).tracker.blocks_in(q));
                assert(old(self).tracker.blocks_in(q) <= i32::MAX);
            }
            assert forall|j: int| 0 <= j < ns.peers@.len()
                implies (#[trigger] ns.peers@[j]).pieces@.len() == ns.tracker.num_pieces() by {
                assert(ns.peers@[j] == old(self).peers@[j]);
            }
        }
    }

    /// Applies a piece-hash verdict and folds the outcome into the derived
    /// state. A failed hash resets that piece's blocks, counts one failure
    /// and — when the torrent was in seed mode — leaves seed mode and queues
    /// a full recheck. A passed hash marks the piece; once every wanted
    /// piece is verified the torrent becomes finished, or seeding when every
    /// piece of the torrent is verified.
    pub fn on_piece_hash_result(&mut self, piece: usize, ok: bool, c: &mut CountersAggregator)
        requires
            old(self).wf(),
            old(c).wf(),
            piece < old(self).tracker.num_pieces(),
            !old(self).tracker.piece_have(piece as int),
            ok ==> old(self).tracker.all_blocks_finished(piece as int),
            old(self).tracker.fail_count < u64::MAX,
        ensures
            final(self).wf(),
            final(c).wf(),
            final(self).same_identity(*old(self)),
            final(self).tracker.have@ == old(self).tracker.have@.update(piece as int, ok),
            final(self).tracker.other_pieces_unchanged(old(self).tracker, piece as int),
            !ok ==> {
                &&& forall|b: int| 0 <= b < old(self).tracker.blocks_in(piece as int)
                    ==> final(self).tracker.state_of(piece as int, b) == BlockState::Empty
                &&& final(self).tracker.fail_count == old(self).tracker.fail_count + 1
                &&& final(self).total_failed_bytes == saturating_add_i64(
                    old(self).total_failed_bytes,
                    piece_byte_size(old(self).info, piece as int) as i64,
                )
                &&& (old(self).flags & flags::SEED_MODE != 0 ==> final(self).flags == old(self).flags & !flags::SEED_MODE && final(self).state == State::checking_files)
                &&& (old(self).flags & flags::SEED_MODE == 0 ==> final(self).flags == old(self).flags && final(self).state == old(self).state)
            },
            final(self).total_redundant_bytes == old(self).total_redundant_bytes,
            ok ==> {
                &&& final(self).total_failed_bytes == old(self).total_failed_bytes
                &&& final(self).tracker.fail_count == old(self).tracker.fail_count
                &&& final(self).flags == old(self).flags
                &&& final(self).state == (if final(self).tracker.all_wanted_done() {
                    if final(self).tracker.all_done() {
                        State::seeding
                    } else {
                        State::finished
                    }
                } else {
                    old(self).state
                })
            },
            final(self).peers@ == old(self).peers@,
            final(self).trackers@ == old(self).trackers@,
    {
        self.tracker.on_piece_hash_result(piece, ok, c);
        if ok {
            if self.tracker.check_all_wanted_done() {
                if self.tracker.check_all_done() {
                    self.state = State::seeding;
                } else {
                    self.state = State::finished;
                }
            }
        } else {
            if self.flags & flags::SEED_MODE != 0 {
                self.flags = flags::unset_flags_word(self.flags, flags::SEED_MODE);
                self.state = State::checking_files;
            }
            proof {
                lemma_piece_byte_size_bounds(self.info, piece as int);
                let ni = self.info.num_pieces as int;
                let li = self.info.piece_length as int;
                assert((ni - 1) * li <= 0x7fff_ffff_ffff_ffff) by (nonlinear_arith)
                    requires
                        0 <= ni,
                        ni <= 0x8000_0000,
                        0 <= li,
                        li < 0x1_0000_0000,
                ;
            }
            let num_pieces = self.info.num_pieces as usize;
            let size: u64 = if (piece + 1) < num_pieces {
                self.info.piece_length as u64
            } else {
                self.info.total_size - (num_pieces as u64 - 1) * (self.info.piece_length as u64)
            };
            proof {
                assert(size as int == piece_byte_size(self.info, piece as int));
            }
            let add = size as i64;
            if self.total_failed_bytes <= i64::MAX - add {
                self.total_failed_bytes = self.total_failed_bytes + add;
            } else {
                self.total_failed_bytes = i64::MAX;
            }
        }
        proof {
            let ns = *self;
            let os = *old(self);
            assert forall|p: int| 0 <= p < ns.tracker.num_pieces()
                implies ns.tracker.blocks_in(p) <= i32::MAX by {
                assert(os.tracker.blocks_in(p) <= i32::MAX);
                if p != piece as int {
                    assert(ns.tracker.blocks@[p] == os.tracker.blocks@[p]);
                    assert(ns.tracker.blocks_in(p) == os.tracker.blocks_in(p));
                } else {
                    assert(ns.tracker.blocks_in(piece as int) == os.tracker.blocks_in(
                        piece as int,
                    ));
                }
            }
            assert forall|j: int| 0 <= j < ns.peers@.len()
                implies (#[trigger] ns.peers@[j]).pieces@.len() == ns.tracker.num_pieces() by {
                assert(ns.peers@[j] == os.peers@[j]);
                assert(os.peers@[j].pieces@.len() == os.tracker.num_pieces());
            }
        }
    }

    /// Adds a tracker with the given URL at the given tier, learned from the
    /// client.
    pub fn add_tracker(&mut self, url: String, tier: u8)
        requires
            old(self).wf(),
        ensures
            final(self).wf(),
            final(self).trackers@.len() == old(self).trackers@.len() + 1,
            forall|i: int| 0 <= i < old(self).trackers@.len()
                ==> #[trigger] final(self).trackers@[i] == old(self).trackers@[i],
            final(self).trackers@[old(self).trackers@.len() as int].url@ == url@,
            final(self).trackers@[old(self).trackers@.len() as int].tier == tier,
            final(self).trackers@[old(self).trackers@.len() as int].source
                == flags::TRACKER_SOURCE_CLIENT,
            final(self).same_identity(*old(self)),
            final(self).flags == old(self).flags,
            final(self).state == old(self).state,
            final(self).tracker == old(self).tracker,
            final(self).peers@ == old(self).peers@,
    {
        let entry = AnnounceEntry::from_client(url, tier);
        self.trackers.push(entry);
    }

    /// Forces a re-announce of every tracker: every endpoint's announce
    /// state becomes due now with its manual trigger set, un-parking parked
    /// trackers regardless of their failure streaks.
    pub fn force_reannounce(&mut self, now: i64)
        requires
            old(self).wf(),
        ensures
            final(self).wf(),
            final(self).trackers@.len() == old(self).trackers@.len(),
            forall|i: int| 0 <= i < old(self).trackers@.len() ==> entry_forced(
                old(self).trackers@[i],
                #[trigger] final(self).trackers@[i],
                now,
            ),
            final(self).same_identity(*old(self)),
            final(self).flags == old(self).flags,
            final(self).state == old(self).state,
            final(self).tracker == old(self).tracker,
            final(self).peers@ == old(self).peers@,
    {
        let n = self.trackers.len();
        let mut i: usize = 0;
        while i < n
            invariant
                i <= n,
                self.trackers@.len() == n,
                n == old(self).trackers@.len(),
                self.same_identity(*old(self)),
                self.flags == old(self).flags,
                self.state == old(self).state,
                self.tracker == old(self).tracker,
                self.peers@ == old(self).peers@,
                self.errc@ == old(self).errc@,
                self.error_file == old(self).error_file,
                self.file_priorities@ == old(self).file_priorities@,
                self.next_peer_id == old(self).next_peer_id,
                self.completed_time == old(self).completed_time,
                self.has_metadata == old(self).has_metadata,
                forall|j: int| i <= j < n
                    ==> #[trigger] self.trackers@[j] == old(self).trackers@[j],
                forall|j: int| 0 <= j < i ==> entry_forced(
                    old(self).trackers@[j],
                    #[trigger] self.trackers@[j],
                    now,
                ),
            decreases n - i,
        {
            let ghost pre = self.trackers@;
            let entry = &mut self.trackers[i];
            entry.force_reannounce_all(now);
            proof {
                assert forall|j: int| 0 <= j < n && j != i
                    implies #[trigger] self.trackers@[j] == pre[j] by {}
            }
            i = i + 1;
        }
    }

    /// Opens a new half-open peer connection and returns its identity.
    pub fn add_peer(&mut self, source: u8, outgoing: bool) -> (r: u64)
        requires
            old(self).wf(),
            old(self).next_peer_id < u64::MAX,
        ensures
            final(self).wf(),
            r == old(self).next_peer_id,
            final(self).next_peer_id == old(self).next_peer_id + 1,
            final(self).peers@.len() == old(self).peers@.len() + 1,
            forall|i: int| 0 <= i < old(self).peers@.len()
                ==> #[trigger] final(self).peers@[i] == old(self).peers@[i],
            final(self).peers@[old(self).peers@.len() as int].id == r,
            final(self).peers@[old(self).peers@.len() as int].state == PeerState::Connecting,
            final(self).peers@[old(self).peers@.len() as int].source == source,
            final(self).peers@[old(self).peers@.len() as int].queue@.len() == 0,
            final(self).same_identity(*old(self)),
            final(self).flags == old(self).flags,
            final(self).state == old(self).state,
            final(self).tracker == old(self).tracker,
            final(self).trackers@ == old(self).trackers@,
    {
        let id = self.next_peer_id;
        self.next_peer_id = id + 1;
        let num_pieces = self.tracker.blocks.len();
        let peer = PeerConnection::new(id, num_pieces, source, outgoing);
        self.peers.push(peer);
        id
    }

    /// Closes one peer connection for the given reason. Every block that was
    /// outstanding to that peer alone — requested or already queued for
    /// writing — goes back to unrequested so other peers may pick it up;
    /// blocks also requested from other peers only lose this peer from their
    /// requester lists, and blocks the peer was not involved in are exactly
    /// as they were. The reason's counter bucket grows by one. Once closed,
    /// no further requests are ever issued to this peer.
    /// Closes and destroys one peer connection for the given reason,
    /// completing the peer lifecycle: the connection leaves the peer list,
    /// so it appears in no later snapshot and no further requests are ever
    /// issued to it. Every block that was outstanding to that peer alone —
    /// requested or already queued for writing — goes back to unrequested so
    /// other peers may pick it up; blocks also requested from other peers
    /// only lose this peer from their requester lists; blocks the peer was
    /// not involved in are exactly as they were. The availability of every
    /// piece the peer claimed drops by one, since availability counts
    /// connected peers only, and the reason's counter bucket grows by one.
    pub fn close_peer(&mut self, peer_index: usize, reason: DisconnectReason, c: &mut CountersAggregator)
        requires
            old(self).wf(),
            old(c).wf(),
            peer_index < old(self).peers@.len(),
        ensures
            final(self).wf(),
            final(c).wf(),
            final(self).peers@ == old(self).peers@.remove(peer_index as int),
            final(self).tracker.num_pieces() == old(self).tracker.num_pieces(),
            final(self).tracker.same_dims(old(self).tracker),
            final(self).tracker.have@ == old(self).tracker.have@,
            final(self).tracker.priorities@ == old(self).tracker.priorities@,
            final(self).tracker.fail_count == old(self).tracker.fail_count,
            final(self).tracker.avail@.len() == old(self).tracker.avail@.len(),
            forall|p: int| 0 <= p < old(self).tracker.num_pieces()
                ==> final(self).tracker.avail@[p] == (if old(self).peers@[peer_index as int].pieces@[p] && old(self).tracker.avail@[p] > 0 {
                    (old(self).tracker.avail@[p] - 1) as u32
                } else {
                    old(self).tracker.avail@[p]
                }),
            forall|p: int, b: int|
                0 <= p < old(self).tracker.num_pieces() && 0 <= b < old(self).tracker.blocks_in(p)
                    ==> block_released(
                    old(self).tracker.block_at(p, b),
                    #[trigger] final(self).tracker.block_at(p, b),
                    old(self).peers@[peer_index as int].id,
                ),
            final(c)@.cur == old(c)@.cur.update(
                reason.metric_spec().index_spec() as int,
                saturating_add_i64(
                    old(c)@.cur[reason.metric_spec().index_spec() as int],
                    1,
                ),
            ),
            final(c)@.prev == old(c)@.prev,
            final(self).same_identity(*old(self)),
            final(self).flags == old(self).flags,
            final(self).state == old(self).state,
            final(self).trackers@ == old(self).trackers@,
            final(self).next_peer_id == old(self).next_peer_id,
    {
        let peer = self.peers.remove(peer_index);
        let peer_id = peer.id;
        proof {
            assert(peer.pieces@.len() == self.tracker.num_pieces());
        }
        let n = self.tracker.avail.len();
        proof {
            assert(n == self.tracker.num_pieces());
        }
        let mut p: usize = 0;
        while p < n
            invariant
                p <= n,
                self.tracker.avail@.len() == n,
                n == old(self).tracker.num_pieces(),
                peer.pieces@.len() == n,
                peer == old(self).peers@[peer_index as int],
                self.tracker.blocks@ == old(self).tracker.blocks@,
                self.tracker.have@ == old(self).tracker.have@,
                self.tracker.priorities@ == old(self).tracker.priorities@,
                self.tracker.fail_count == old(self).tracker.fail_count,
                self.tracker.wf(),
                self.peers@ == old(self).peers@.remove(peer_index as int),
                self.same_identity(*old(self)),
                self.flags == old(self).flags,
                self.state == old(self).state,
                self.trackers@ == old(self).trackers@,
                self.next_peer_id == old(self).next_peer_id,
                self.errc@ == old(self).errc@,
                self.error_file == old(self).error_file,
                self.file_priorities@ == old(self).file_priorities@,
                self.completed_time == old(self).completed_time,
                self.has_metadata == old(self).has_metadata,
                forall|q: int| p <= q < n
                    ==> self.tracker.avail@[q] == old(self).tracker.avail@[q],
                forall|q: int| 0 <= q < p
                    ==> self.tracker.avail@[q] == (if old(self).peers@[peer_index as int].pieces@[q] && old(self).tracker.avail@[q] > 0 {
                        (old(self).tracker.avail@[q] - 1) as u32
                    } else {
                        old(self).tracker.avail@[q]
                    }),
            decreases n - p,
        {
            if peer.pieces[p] && self.tracker.avail[p] > 0 {
                self.tracker.peer_lost_piece(p);
            }
            p = p + 1;
        }
        let ghost mid_tracker = self.tracker;
        self.tracker.on_peer_closed(peer_id);
        c.inc(reason.metric(), 1);
        proof {
            assert forall|j: int| 0 <= j < self.peers@.len()
                implies (#[trigger] self.peers@[j]).pieces@.len() == self.tracker.num_pieces() by {
                let j2 = if j < peer_index as int { j } else { j + 1 };
                assert(self.peers@[j] == old(self).peers@[j2]);
                assert(old(self).peers@[j2].pieces@.len() == old(self).tracker.num_pieces());
            }
            assert forall|p2: int| 0 <= p2 < self.tracker.num_pieces()
                implies #[trigger] self.tracker.blocks_in(p2) <= i32::MAX by {
                assert(mid_tracker.blocks_in(p2) == self.tracker.blocks_in(p2));
                assert(mid_tracker.blocks@ == old(self).tracker.blocks@);
                assert(mid_tracker.blocks_in(p2) == old(self).tracker.blocks_in(p2));
                assert(old(self).tracker.blocks_in(p2) <= i32::MAX);
            }
            assert forall|p2: int| 0 <= p2 < self.tracker.num_pieces()
                implies self.tracker.blocks_in(p2) == #[trigger] old(self).tracker.blocks_in(
                p2,
            ) by {
                assert(mid_tracker.blocks_in(p2) == self.tracker.blocks_in(p2));
                assert(mid_tracker.blocks@ == old(self).tracker.blocks@);
            }
            assert(self.tracker.same_dims(old(self).tracker));
            assert forall|p2: int, b: int|
                0 <= p2 < old(self).tracker.num_pieces() && 0 <= b < old(self).tracker.blocks_in(p2) implies block_released(
                old(self).tracker.block_at(p2, b),
                #[trigger] self.tracker.block_at(p2, b),
                old(self).peers@[peer_index as int].id,
            ) by {
                assert(mid_tracker.block_at(p2, b) == old(self).tracker.block_at(p2, b));
                assert(block_released(
                    mid_tracker.block_at(p2, b),
                    self.tracker.block_at(p2, b),
                    peer_id,
                ));
            }
        }
    }

    /// The transport of one half-open peer connected; its handshake begins.
    pub fn peer_connected(&mut self, peer_index: usize)
        requires
            old(self).wf(),
            peer_index < old(self).peers@.len(),
            old(self).peers@[peer_index as int].state == PeerState::Connecting,
        ensures
            final(self).wf(),
            final(self).peers@.len() == old(self).peers@.len(),
            final(self).peers@[peer_index as int].state == PeerState::Handshaking,
            final(self).peers@[peer_index as int].only_state_and_queue_changed(
                old(self).peers@[peer_index as int],
            ),
            final(self).peers@[peer_index as int].queue@
                == old(self).peers@[peer_index as int].queue@,
            forall|i: int| 0 <= i < old(self).peers@.len() && i != peer_index
                ==> #[trigger] final(self).peers@[i] == old(self).peers@[i],
            final(self).same_identity(*old(self)),
            final(self).flags == old(self).flags,
            final(self).state == old(self).state,
            final(self).tracker == old(self).tracker,
            final(self).trackers@ == old(self).trackers@,
    {
        let ghost pre_peers = self.peers@;
        let peer = &mut self.peers[peer_index];
        peer.on_transport_connect();
        proof {
            assert forall|j: int| 0 <= j < self.peers@.len()
                implies (#[trigger] self.peers@[j]).pieces@.len() == self.tracker.num_pieces() by {
                assert(pre_peers[j].pieces@.len() == old(self).tracker.num_pieces());
                if j == peer_index as int {
                    assert(self.peers@[j].pieces@ == pre_peers[j].pieces@);
                } else {
                    assert(self.peers@[j] == pre_peers[j]);
                }
            }
        }
    }

    /// One peer's protocol handshake finished. A valid handshake establishes
    /// the connection. An invalid one closes and destroys the peer for good —
    /// it leaves the peer list, its blocks are released, the availability of
    /// the pieces it claimed drops, and one handshake-error count is added —
    /// and it is never retried from here; only the policy layer's own
    /// connection scheduling may try the address again.
    pub fn peer_handshake(&mut self, peer_index: usize, valid: bool, c: &mut CountersAggregator)
        requires
            old(self).wf(),
            old(c).wf(),
            peer_index < old(self).peers@.len(),
            old(self).peers@[peer_index as int].state == PeerState::Handshaking,
        ensures
            final(self).wf(),
            final(c).wf(),
            valid ==> {
                &&& final(self).peers@.len() == old(self).peers@.len()
                &&& final(self).peers@[peer_index as int].state == PeerState::Established
                &&& forall|i: int| 0 <= i < old(self).peers@.len() && i != peer_index
                    ==> #[trigger] final(self).peers@[i] == old(self).peers@[i]
                &&& final(self).tracker == old(self).tracker
                &&& final(c)@ == old(c)@
            },
            !valid ==> {
                &&& final(self).peers@ == old(self).peers@.remove(peer_index as int)
                &&& forall|p: int, b: int|
                    0 <= p < old(self).tracker.num_pieces() && 0 <= b < old(self).tracker.blocks_in(p) ==> block_released(
                        old(self).tracker.block_at(p, b),
                        #[trigger] final(self).tracker.block_at(p, b),
                        old(self).peers@[peer_index as int].id,
                    )
                &&& forall|p: int| 0 <= p < old(self).tracker.num_pieces()
                    ==> final(self).tracker.avail@[p] == (if old(self).peers@[peer_index as int].pieces@[p] && old(self).tracker.avail@[p] > 0 {
                        (old(self).tracker.avail@[p] - 1) as u32
                    } else {
                        old(self).tracker.avail@[p]
                    })
                &&& final(self).tracker.have@ == old(self).tracker.have@
                &&& final(c)@.cur == old(c)@.cur.update(
                    Metrics::peer_error_peers.index_spec() as int,
                    saturating_add_i64(
                        old(c)@.cur[Metrics::peer_error_peers.index_spec() as int],
                        1,
                    ),
                )
            },
            final(self).same_identity(*old(self)),
            final(self).flags == old(self).flags,
            final(self).state == old(self).state,
            final(self).trackers@ == old(self).trackers@,
    {
        if valid {
            let ghost pre_peers = self.peers@;
            let peer = &mut self.peers[peer_index];
            peer.on_handshake(true);
            proof {
                assert forall|j: int| 0 <= j < self.peers@.len()
                    implies (#[trigger] self.peers@[j]).pieces@.len()
                        == self.tracker.num_pieces() by {
                    assert(pre_peers[j].pieces@.len() == old(self).tracker.num_pieces());
                    if j == peer_index as int {
                        assert(self.peers@[j].pieces@ == pre_peers[j].pieces@);
                    } else {
                        assert(self.peers@[j] == pre_peers[j]);
                    }
                }
            }
        } else {
            self.close_peer(peer_index, DisconnectReason::HandshakeFailed, c);
        }
    }

    /// Records that one peer holds one more piece: the peer's bitmap gains
    /// the piece and the piece's availability count grows by one.
    pub fn on_peer_has_piece(&mut self, peer_index: usize, piece: usize)
        requires
            old(self).wf(),
            peer_index < old(self).peers@.len(),
            piece < old(self).tracker.num_pieces(),
            old(self).tracker.avail@[piece as int] < u32::MAX,
        ensures
            final(self).wf(),
            final(self).peers@.len() == old(self).peers@.len(),
            final(self).peers@[peer_index as int].pieces@
                == old(self).peers@[peer_index as int].pieces@.update(piece as int, true),
            forall|i: int| 0 <= i < old(self).peers@.len() && i != peer_index
                ==> #[trigger] final(self).peers@[i] == old(self).peers@[i],
            final(self).tracker.avail@ == old(self).tracker.avail@.update(
                piece as int,
                (old(self).tracker.avail@[piece as int] + 1) as u32,
            ),
            final(self).tracker.blocks@ == old(self).tracker.blocks@,
            final(self).tracker.have@ == old(self).tracker.have@,
            final(self).tracker.priorities@ == old(self).tracker.priorities@,
            final(self).same_identity(*old(self)),
            final(self).flags == old(self).flags,
            final(self).state == old(self).state,
    {
        let ghost pre_peers = self.peers@;
        let peer = &mut self.peers[peer_index];
        peer.set_has_piece(piece);
        self.tracker.peer_has_piece(piece);
        proof {
            assert forall|j: int| 0 <= j < self.peers@.len()
                implies (#[trigger] self.peers@[j]).pieces@.len() == self.tracker.num_pieces() by {
                assert(pre_peers[j].pieces@.len() == old(self).tracker.num_pieces());
                if j == peer_index as int {
                    assert(self.peers@[j].pieces@
                        == pre_peers[j].pieces@.update(piece as int, true));
                } else {
                    assert(self.peers@[j] == pre_peers[j]);
                }
            }
            assert forall|p: int| 0 <= p < self.tracker.num_pieces()
                implies self.tracker.blocks_in(p) <= i32::MAX by {
                assert(self.tracker.blocks@ == old(self).tracker.blocks@);
                assert(self.tracker.blocks_in(p) == old(self).tracker.blocks_in(p));
                assert(old(self).tracker.blocks_in(p) <= i32::MAX);
            }
        }
    }

    /// Whether the torrent picks pieces in ascending order.
    pub open spec fn sequential_spec(self) -> bool {
        self.flags & flags::SEQUENTIAL_DOWNLOAD != 0
    }

    /// No payload requests leave a paused or upload-mode torrent.
    pub open spec fn requests_halted_spec(self) -> bool {
        self.flags & flags::PAUSED != 0 || self.flags & flags::UPLOAD_MODE != 0
    }

    /// Picks and records the next block request for one peer.
    ///
    /// Nothing is requested — and nothing changes — when the torrent is
    /// paused or in upload mode, when the peer cannot take requests (not
    /// established, choking us, or not interesting), when the peer's request
    /// queue has no spare capacity below its target, or when the picker
    /// finds nothing: no candidate piece with a free block and, in endgame,
    /// no block eligible for a duplicate request either. Otherwise the
    /// picker's choice — policy order, endgame duplicates included — is
    /// recorded in the tracker and on the peer's queue, and returned.
    pub fn request_next_block(&mut self, peer_index: usize) -> (r: Option<(usize, usize)>)
        requires
            old(self).wf(),
            peer_index < old(self).peers@.len(),
        ensures
            final(self).wf(),
            final(self).peers@.len() == old(self).peers@.len(),
            final(self).same_identity(*old(self)),
            final(self).flags == old(self).flags,
            final(self).state == old(self).state,
            (old(self).requests_halted_spec()
                || !old(self).peers@[peer_index as int].can_request_spec()
                || !old(self).peers@[peer_index as int].has_spare_capacity_spec()) ==> (r is None
                && *final(self) == *old(self)),
            (!old(self).requests_halted_spec()
                && old(self).peers@[peer_index as int].can_request_spec()
                && old(self).peers@[peer_index as int].has_spare_capacity_spec()) ==> {
                &&& picker::pick_ok(
                    old(self).tracker,
                    old(self).peers@[peer_index as int].pieces@,
                    old(self).peers@[peer_index as int].id,
                    old(self).sequential_spec(),
                    old(self).peers@[peer_index as int].on_parole,
                    cap_endgame(old(self).tracker),
                    r,
                )
                &&& (r is None ==> *final(self) == *old(self))
                &&& (r is Some ==> final(self).tracker.state_of(
                    r.unwrap().0 as int,
                    r.unwrap().1 as int,
                ) == BlockState::Requested)
                &&& (r is Some ==> final(self).tracker.requesters_of(
                    r.unwrap().0 as int,
                    r.unwrap().1 as int,
                ) == old(self).tracker.requesters_of(
                    r.unwrap().0 as int,
                    r.unwrap().1 as int,
                ).push(old(self).peers@[peer_index as int].id))
                &&& (r is Some ==> forall|p: int, b: int|
                    0 <= p < old(self).tracker.num_pieces()
                        && 0 <= b < old(self).tracker.blocks_in(p)
                        && !(p == r.unwrap().0 as int && b == r.unwrap().1 as int)
                        ==> final(self).tracker.block_at(p, b)
                            == old(self).tracker.block_at(p, b))
                &&& (r is Some ==> final(self).tracker.only_blocks_changed(old(self).tracker))
                &&& (r is Some ==> final(self).peers@[peer_index as int].queue@
                    == old(self).peers@[peer_index as int].queue@.push(r.unwrap()))
                &&& (r is Some ==> forall|i: int|
                    0 <= i < old(self).peers@.len() && i != peer_index
                        ==> #[trigger] final(self).peers@[i] == old(self).peers@[i])
            },
    {
        if self.flags & flags::PAUSED != 0 || self.flags & flags::UPLOAD_MODE != 0 {
            return None;
        }
        if !self.peers[peer_index].can_request() {
            return None;
        }
        if !self.peers[peer_index].has_spare_capacity() {
            return None;
        }
        let endgame = self.tracker.in_endgame();
        let sequential = self.flags & flags::SEQUENTIAL_DOWNLOAD != 0;
        let peer_id = self.peers[peer_index].id;
        let on_parole = self.peers[peer_index].on_parole;
        let pick = picker::pick_block(
            &self.tracker,
            &self.peers[peer_index].pieces,
            peer_id,
            sequential,
            on_parole,
            endgame,
        );
        match pick {
            Some((piece, block)) => {
                let res = self.tracker.request_block(piece, block, peer_id, endgame);
                proof {
                    assert(res is Ok);
                }
                let ghost pre_peers = self.peers@;
                let peer = &mut self.peers[peer_index];
                peer.push_request(piece, block);
                proof {
                    assert forall|j: int| 0 <= j < self.peers@.len()
                        implies (#[trigger] self.peers@[j]).pieces@.len()
                            == self.tracker.num_pieces() by {
                        assert(pre_peers[j].pieces@.len() == old(self).tracker.num_pieces());
                        if j == peer_index as int {
                            assert(self.peers@[j].pieces@ == pre_peers[j].pieces@);
                        } else {
                            assert(self.peers@[j] == pre_peers[j]);
                        }
                    }
                    assert forall|p: int| 0 <= p < self.tracker.num_pieces()
                        implies self.tracker.blocks_in(p) <= i32::MAX by {
                        if p != piece as int {
                            assert(self.tracker.blocks@[p] == old(self).tracker.blocks@[p]);
                            assert(self.tracker.blocks_in(p) == old(self).tracker.blocks_in(p));
                        } else {
                            assert(self.tracker.blocks_in(piece as int) == old(self).tracker.blocks_in(piece as int));
                        }
                        assert(old(self).tracker.blocks_in(p) <= i32::MAX);
                    }
                }
                Some((piece, block))
            },
            None => None,
        }
    }
}

/// Whether the tracker's counts put the torrent in endgame, at the clamped
/// counts the engine can compute.
pub open spec fn cap_endgame(t: PieceBlockTracker) -> bool {
    crate::piece_tracker::cap_usize(t.outstanding_requests())
        > crate::piece_tracker::cap_usize(t.remaining_unfinished_blocks())
}

impl TorrentController {
    /// Forwards one arriving block of payload to the tracker: an accepted
    /// block moves to the writing state with the delivering peer as its only
    /// holder; a duplicate of an endgame race or an unsolicited block is
    /// discarded and counted as wasted, never written twice. A duplicate
    /// also grows the torrent's redundant-bytes total by one nominal block.
    pub fn on_block_arrival(
        &mut self,
        piece: usize,
        block: usize,
        peer_id: u64,
        c: &mut CountersAggregator,
    ) -> (r: crate::piece_tracker::ArrivalOutcome)
        requires
            old(self).wf(),
            old(c).wf(),
            piece < old(self).tracker.num_pieces(),
            block < old(self).tracker.blocks_in(piece as int),
        ensures
            final(self).wf(),
            final(c).wf(),
            r == (if old(self).tracker.state_of(piece as int, block as int)
                == BlockState::Requested && old(self).tracker.requesters_of(
                piece as int,
                block as int,
            ).contains(peer_id) {
                crate::piece_tracker::ArrivalOutcome::Accepted
            } else if old(self).tracker.state_of(piece as int, block as int)
                == BlockState::Writing || old(self).tracker.state_of(piece as int, block as int)
                == BlockState::Finished {
                crate::piece_tracker::ArrivalOutcome::RedundantEndgame
            } else {
                crate::piece_tracker::ArrivalOutcome::Unsolicited
            }),
            r == crate::piece_tracker::ArrivalOutcome::Accepted ==> {
                &&& final(self).tracker.state_of(piece as int, block as int)
                    == BlockState::Writing
                &&& final(self).tracker.requesters_of(piece as int, block as int) == seq![peer_id]
            },
            r != crate::piece_tracker::ArrivalOutcome::Accepted ==> final(self).tracker.block_at(
                piece as int,
                block as int,
            ) == old(self).tracker.block_at(piece as int, block as int),
            r == crate::piece_tracker::ArrivalOutcome::RedundantEndgame ==> final(self).total_redundant_bytes == saturating_add_i64(
                old(self).total_redundant_bytes,
                old(self).block_size_spec() as i64,
            ),
            r != crate::piece_tracker::ArrivalOutcome::RedundantEndgame ==> final(self).total_redundant_bytes == old(self).total_redundant_bytes,
            final(self).total_failed_bytes == old(self).total_failed_bytes,
            forall|p2: int, b2: int|
                0 <= p2 < old(self).tracker.num_pieces() && 0 <= b2 < old(self).tracker.blocks_in(
                    p2,
                ) && !(p2 == piece as int && b2 == block as int)
                    ==> final(self).tracker.block_at(p2, b2) == old(self).tracker.block_at(p2, b2),
            final(self).peers@ == old(self).peers@,
            final(self).same_identity(*old(self)),
            final(self).flags == old(self).flags,
            final(self).state == old(self).state,
    {
        let r = self.tracker.on_block_arrival(piece, block, peer_id, c);
        if r == crate::piece_tracker::ArrivalOutcome::RedundantEndgame {
            let add: i64 = if self.info.piece_length > 0 && self.info.piece_length < 16384 {
                self.info.piece_length as i64
            } else {
                16384
            };
            if self.total_redundant_bytes <= i64::MAX - add {
                self.total_redundant_bytes = self.total_redundant_bytes + add;
            } else {
                self.total_redundant_bytes = i64::MAX;
            }
        }
        proof {
            assert forall|p2: int| 0 <= p2 < self.tracker.num_pieces()
                implies self.tracker.blocks_in(p2) <= i32::MAX by {
                if p2 != piece as int {
                    assert(self.tracker.blocks@[p2] == old(self).tracker.blocks@[p2]);
                    assert(self.tracker.blocks_in(p2) == old(self).tracker.blocks_in(p2));
                }
                assert(old(self).tracker.blocks_in(p2) <= i32::MAX);
            }
            assert forall|j: int| 0 <= j < self.peers@.len()
                implies (#[trigger] self.peers@[j]).pieces@.len() == self.tracker.num_pieces() by {
                assert(self.peers@[j] == old(self).peers@[j]);
            }
        }
        r
    }

    /// Completes the disk write of one block: it moves from writing to
    /// written and one written-block count is added. Fails exactly where the
    /// block is not in the writing state, and then changes nothing.
    pub fn on_write_complete(&mut self, piece: usize, block: usize, c: &mut CountersAggregator)
        -> (r: Result<(), EngineError>)
        requires
            old(self).wf(),
            old(c).wf(),
        ensures
            final(self).wf(),
            final(c).wf(),
            r is Ok <==> (piece < old(self).tracker.num_pieces()
                && block < old(self).tracker.blocks_in(piece as int)
                && !old(self).tracker.piece_have(piece as int)
                && old(self).tracker.state_of(piece as int, block as int) == BlockState::Writing),
            r is Ok ==> final(self).tracker.state_of(piece as int, block as int)
                == BlockState::Finished,
            r is Err ==> final(self).tracker == old(self).tracker,
            final(self).peers@ == old(self).peers@,
            final(self).same_identity(*old(self)),
            final(self).flags == old(self).flags,
            final(self).state == old(self).state,
    {
        let r = self.tracker.on_write_complete(piece, block, c);
        proof {
            if r is Ok {
                assert forall|p2: int| 0 <= p2 < self.tracker.num_pieces()
                    implies self.tracker.blocks_in(p2) <= i32::MAX by {
                    if p2 != piece as int {
                        assert(self.tracker.blocks@[p2] == old(self).tracker.blocks@[p2]);
                        assert(self.tracker.blocks_in(p2) == old(self).tracker.blocks_in(p2));
                    } else {
                        assert(self.tracker.blocks_in(piece as int)
                            == old(self).tracker.blocks_in(piece as int));
                    }
                    assert(old(self).tracker.blocks_in(p2) <= i32::MAX);
                }
            }
            assert forall|j: int| 0 <= j < self.peers@.len()
                implies (#[trigger] self.peers@[j]).pieces@.len() == self.tracker.num_pieces() by {
                assert(self.peers@[j] == old(self).peers@[j]);
            }
        }
        r
    }

    /// The size of a block in bytes: the usual fixed block size, or the
    /// piece length where pieces are smaller than that.
    pub open spec fn block_size_spec(self) -> i32 {
        if self.info.piece_length > 0 && self.info.piece_length < 16384 {
            self.info.piece_length as i32
        } else {
            16384
        }
    }

    /// `x` clamped into the `i32` range from above.
    pub open spec fn cap_i32(x: int) -> int {
        if x > i32::MAX {
            i32::MAX as int
        } else {
            x
        }
    }

    /// The per-piece availability among connected peers, each count clamped
    /// into the `i32` range.
    pub fn get_piece_availability(&self) -> (r: Vec<i32>)
        requires
            self.wf(),
        ensures
            r@.len() == self.tracker.num_pieces(),
            forall|p: int| 0 <= p < self.tracker.num_pieces()
                ==> r@[p] == Self::cap_i32(self.tracker.avail@[p] as int),
    {
        let n = self.tracker.avail.len();
        let mut r: Vec<i32> = Vec::new();
        let mut p: usize = 0;
        while p < n
            invariant
                p <= n,
                n == self.tracker.avail@.len(),
                self.wf(),
                r@.len() == p,
                forall|q: int| 0 <= q < p ==> r@[q] == Self::cap_i32(self.tracker.avail@[q] as int),
            decreases n - p,
        {
            let a = self.tracker.avail[p];
            let v: i32 = if a > i32::MAX as u32 {
                i32::MAX
            } else {
                a as i32
            };
            r.push(v);
            p = p + 1;
        }
        proof {
            assert(self.tracker.avail@.len() == self.tracker.num_pieces());
        }
        r
    }

    /// A snapshot of every peer connection of this torrent. Only live
    /// connections appear: a destroyed peer left the list when it closed.
    pub fn get_peers(&self) -> (r: Vec<crate::peer_info::PeerInfo>)
        requires
            self.wf(),
        ensures
            r@.len() == self.peers@.len(),
            forall|i: int| 0 <= i < self.peers@.len() ==> crate::peer_info::peer_info_matches(
                #[trigger] r@[i],
                self.peers@[i],
                self.block_size_spec() as u32,
                self.request_timeout,
            ),
    {
        let n = self.peers.len();
        let block_size: u32 = if self.info.piece_length > 0 && self.info.piece_length < 16384 {
            self.info.piece_length
        } else {
            16384
        };
        let mut r: Vec<crate::peer_info::PeerInfo> = Vec::new();
        let mut i: usize = 0;
        while i < n
            invariant
                i <= n,
                n == self.peers@.len(),
                self.wf(),
                block_size == self.block_size_spec() as u32,
                r@.len() == i,
                forall|j: int| 0 <= j < i ==> crate::peer_info::peer_info_matches(
                    #[trigger] r@[j],
                    self.peers@[j],
                    self.block_size_spec() as u32,
                    self.request_timeout,
                ),
            decreases n - i,
        {
            r.push(crate::peer_info::peer_info_of(
                &self.peers[i],
                block_size,
                self.request_timeout,
            ));
            i = i + 1;
        }
        r
    }

    /// The periodic retry that takes an auto-managed torrent back out of
    /// upload mode, run by the session's queuing logic: upload mode is
    /// cleared exactly when the torrent is auto-managed and in upload mode;
    /// a torrent managed by hand stays in upload mode until told otherwise.
    pub fn retry_upload_mode(&mut self)
        requires
            old(self).wf(),
        ensures
            final(self).wf(),
            final(self).flags == (if old(self).flags & flags::AUTO_MANAGED != 0 && old(self).flags & flags::UPLOAD_MODE != 0 {
                flags::with_flags_cleared(old(self).flags, flags::UPLOAD_MODE)
            } else {
                old(self).flags
            }),
            final(self).only_flags_changed(*old(self)),
    {
        if self.flags & flags::AUTO_MANAGED != 0 && self.flags & flags::UPLOAD_MODE != 0 {
            self.flags = flags::unset_flags_word(self.flags, flags::UPLOAD_MODE);
        }
    }

    /// Replaces the whole tracker list, as an add-time tracker override
    /// does: the given URLs become the torrent's trackers, all at tier 0,
    /// with fresh announce state — failure streaks and the one-shot
    /// started/completed latches reset.
    pub fn override_trackers(&mut self, urls: &Vec<String>)
        requires
            old(self).wf(),
        ensures
            final(self).wf(),
            final(self).trackers@.len() == urls@.len(),
            forall|k: int| 0 <= k < urls@.len() ==> {
                &&& (#[trigger] final(self).trackers@[k]).url@ == urls@[k]@
                &&& final(self).trackers@[k].tier == 0
                &&& final(self).trackers@[k].source == flags::TRACKER_SOURCE_CLIENT
                &&& final(self).trackers@[k].endpoints@.len() == 0
                &&& !final(self).trackers@[k].verified
            },
            final(self).same_identity(*old(self)),
            final(self).flags == old(self).flags,
            final(self).state == old(self).state,
            final(self).tracker == old(self).tracker,
            final(self).peers@ == old(self).peers@,
    {
        let mut trackers: Vec<AnnounceEntry> = Vec::new();
        let n = urls.len();
        let mut k: usize = 0;
        while k < n
            invariant
                k <= n,
                n == urls@.len(),
                trackers@.len() == k,
                forall|j: int| 0 <= j < k ==> {
                    &&& (#[trigger] trackers@[j]).url@ == urls@[j]@
                    &&& trackers@[j].tier == 0
                    &&& trackers@[j].source == flags::TRACKER_SOURCE_CLIENT
                    &&& trackers@[j].endpoints@.len() == 0
                    &&& !trackers@[j].verified
                },
            decreases n - k,
        {
            trackers.push(AnnounceEntry::from_client(urls[k].clone(), 0));
            k = k + 1;
        }
        self.trackers = trackers;
    }

    /// Sets the configured per-request timeout, a policy input from the
    /// settings surface.
    pub fn set_request_timeout(&mut self, seconds: i32)
        requires
            old(self).wf(),
        ensures
            final(self).wf(),
            final(self).request_timeout == seconds,
            final(self).same_identity(*old(self)),
            final(self).flags == old(self).flags,
            final(self).state == old(self).state,
            final(self).tracker == old(self).tracker,
            final(self).peers@ == old(self).peers@,
            final(self).trackers@ == old(self).trackers@,
    {
        self.request_timeout = seconds;
    }

    /// The download-queue snapshot: every open piece with block detail.
    pub fn get_piece_info(&self) -> (r: crate::piece_info::PieceInfo)
        requires
            self.wf(),
        ensures
            forall|k: int| 0 <= k < r.partial_pieces@.len() ==> crate::piece_info::piece_open(
                self.tracker,
                (#[trigger] r.partial_pieces@[k]).piece_index as int,
            ) && crate::piece_info::entry_describes(
                self.tracker,
                r.partial_pieces@[k],
                r.partial_pieces@[k].piece_index as int,
                self.block_size_spec() as u32,
            ),
            forall|p: int| crate::piece_info::piece_open(self.tracker, p) ==> exists|k: int|
                0 <= k < r.partial_pieces@.len() && (#[trigger] r.partial_pieces@[k]).piece_index
                    == p,
    {
        let block_size: u32 = if self.info.piece_length > 0 && self.info.piece_length < 16384 {
            self.info.piece_length
        } else {
            16384
        };
        crate::piece_info::piece_info_of(&self.tracker, block_size)
    }

    /// How many of the first `k` peers are connected — the handshake done,
    /// established or draining — as opposed to half-open.
    pub open spec fn connected_peers_upto(peers: Seq<PeerConnection>, k: int) -> int
        decreases k,
    {
        if k <= 0 {
            0
        } else {
            Self::connected_peers_upto(peers, k - 1) + (if peers[k - 1].state
                == PeerState::Established || peers[k - 1].state == PeerState::Closing {
                1int
            } else {
                0int
            })
        }
    }

    /// Counts the connected peers; always at most the total connection count.
    fn count_connected_peers(&self) -> (r: usize)
        ensures
            r as int == Self::connected_peers_upto(self.peers@, self.peers@.len() as int),
            r <= self.peers@.len(),
    {
        let n = self.peers.len();
        let mut r: usize = 0;
        let mut i: usize = 0;
        while i < n
            invariant
                i <= n,
                n == self.peers@.len(),
                r as int == Self::connected_peers_upto(self.peers@, i as int),
                r <= i,
            decreases n - i,
        {
            let st = self.peers[i].state;
            if st == PeerState::Established || st == PeerState::Closing {
                r = r + 1;
            }
            i = i + 1;
        }
        r
    }

    /// The status snapshot of this torrent; `status_matches` pins every
    /// field the engine tracks. Transfer-rate statistics the engine does not
    /// measure are zero.
    pub fn status(&self) -> (r: crate::torrent_status::TorrentStatus)
        requires
            self.wf(),
        ensures
            status_matches(r, *self),
    {
        let have_count = crate::bitfield::count_true_vec(&self.tracker.have);
        proof {
            crate::bitfield::lemma_count_true_bounds(self.tracker.have@);
            assert(self.tracker.have@.len() == self.tracker.num_pieces());
        }
        let total_pieces = self.tracker.have.len();
        let progress_ppm: i32 = if total_pieces > 0 {
            ((have_count as u64 * 1000000u64) / (total_pieces as u64)) as i32
        } else {
            0
        };
        proof {
            if total_pieces > 0 {
                assert(have_count as int * 1000000 / (total_pieces as int) <= 1000000)
                    by (nonlinear_arith)
                    requires
                        0 < total_pieces as int,
                        have_count as int <= total_pieces as int,
                ;
                assert(have_count as int * 1000000 / (total_pieces as int) >= 0)
                    by (nonlinear_arith)
                    requires
                        0 < total_pieces as int,
                        0 <= have_count as int,
                ;
            }
        }
        let is_finished = self.tracker.check_all_wanted_done();
        let is_seeding = self.tracker.check_all_done();
        let connected = self.count_connected_peers();
        let num_peers: i32 = if connected > i32::MAX as usize {
            i32::MAX
        } else {
            connected as i32
        };
        let num_connections: i32 = if self.peers.len() > i32::MAX as usize {
            i32::MAX
        } else {
            self.peers.len() as i32
        };
        let total: i64 = if self.info.total_size > i64::MAX as u64 {
            i64::MAX
        } else {
            self.info.total_size as i64
        };
        let (done_u, wanted_u, wanted_done_u) = self.count_byte_progress();
        let total_done: i64 = if done_u > i64::MAX as u64 {
            i64::MAX
        } else {
            done_u as i64
        };
        let total_wanted: i64 = if wanted_u > i64::MAX as u64 {
            i64::MAX
        } else {
            wanted_u as i64
        };
        let total_wanted_done: i64 = if wanted_done_u > i64::MAX as u64 {
            i64::MAX
        } else {
            wanted_done_u as i64
        };
        let scrape = self.first_scrape_counts();
        let (num_complete, num_incomplete) = match scrape {
            Some(ci) => ci,
            None => (-1, -1),
        };
        let block_size: i32 = if self.info.piece_length > 0 && self.info.piece_length < 16384 {
            self.info.piece_length as i32
        } else {
            16384
        };
        crate::torrent_status::TorrentStatus {
            errc: self.errc.clone(),
            error_file: self.error_file,
            save_path: self.save_path.clone(),
            name: self.info.name.clone(),
            next_announce: self.next_announce_time(),
            current_tracker: String::new(),
            total_download: 0,
            total_upload: 0,
            total_payload_download: 0,
            total_payload_upload: 0,
            total_failed_bytes: self.total_failed_bytes,
            total_redundant_bytes: self.total_redundant_bytes,
            pieces: crate::bitfield::copy_bitmap(&self.tracker.have),
            verified_pieces: Vec::new(),
            total_done,
            total,
            total_wanted_done,
            total_wanted,
            all_time_upload: 0,
            all_time_download: 0,
            added_time: self.added_time,
            completed_time: self.completed_time,
            last_seen_complete: 0,
            storage_mode: 0,
            progress_ppm,
            queue_position: if is_finished {
                -1
            } else {
                0
            },
            download_rate: 0,
            upload_rate: 0,
            download_payload_rate: 0,
            upload_payload_rate: 0,
            num_seeds: 0,
            num_peers,
            num_complete,
            num_incomplete,
            list_seeds: 0,
            list_peers: 0,
            connect_candidates: 0,
            num_pieces: have_count as i32,
            distributed_full_copies: 0,
            distributed_fraction: 0,
            block_size,
            num_uploads: 0,
            num_connections,
            uploads_limit: 0,
            connections_limit: 0,
            up_bandwidth_queue: 0,
            down_bandwidth_queue: 0,
            seed_rank: 0,
            state: self.state.code(),
            need_save_resume: self.flags & flags::NEED_SAVE_RESUME != 0,
            is_seeding,
            is_finished,
            has_metadata: self.has_metadata,
            has_incoming: false,
            moving_storage: false,
            announcing_to_trackers: self.flags & flags::PAUSED == 0,
            announcing_to_lsd: self.flags & (flags::PAUSED | flags::DISABLE_LSD) == 0,
            announcing_to_dht: self.flags & (flags::PAUSED | flags::DISABLE_DHT) == 0,
            info_hash: self.info.info_hash.clone(),
            last_upload: 0,
            last_download: 0,
            active_duration: 0,
            finished_duration: 0,
            seeding_duration: 0,
            flags: self.flags,
        }
    }

    /// Scrape numbers reported by this torrent's trackers, if any announce
    /// state holds them: the seed and downloader counts of some state whose
    /// scrape data is filled in.
    pub fn first_scrape_counts(&self) -> (r: Option<(i32, i32)>)
        ensures
            match r {
                Some(ci) => exists|k: int, e: int, i: int|
                    0 <= k < self.trackers@.len() && 0 <= e < self.trackers@[k].endpoints@.len()
                        && 0 <= i < self.trackers@[k].endpoints@[e].info_hashes@.len() && (
                    #[trigger] self.trackers@[k].endpoints@[e].info_hashes@[i]).scrape_complete
                        >= 0 && ci.0
                        == self.trackers@[k].endpoints@[e].info_hashes@[i].scrape_complete && ci.1
                        == self.trackers@[k].endpoints@[e].info_hashes@[i].scrape_incomplete,
                None => forall|k: int, e: int, i: int|
                    0 <= k < self.trackers@.len() && 0 <= e < self.trackers@[k].endpoints@.len()
                        && 0 <= i < self.trackers@[k].endpoints@[e].info_hashes@.len()
                        ==> (#[trigger] self.trackers@[k].endpoints@[e].info_hashes@[i]).scrape_complete
                        < 0,
            },
    {
        let n = self.trackers.len();
        let mut k: usize = 0;
        while k < n
            invariant
                k <= n,
                n == self.trackers@.len(),
                forall|k2: int, e: int, i: int|
                    0 <= k2 < k && 0 <= e < self.trackers@[k2].endpoints@.len() && 0 <= i
                        < self.trackers@[k2].endpoints@[e].info_hashes@.len()
                        ==> (#[trigger] self.trackers@[k2].endpoints@[e].info_hashes@[i]).scrape_complete
                        < 0,
            decreases n - k,
        {
            match self.trackers[k].first_scrape_numbers() {
                Some(ci) => {
                    return Some(ci);
                },
                None => {},
            }
            k = k + 1;
        }
        None
    }

    /// `x` clamped into the `i64` range from above.
    pub open spec fn cap_i64(x: int) -> int {
        if x > i64::MAX {
            i64::MAX as int
        } else {
            x
        }
    }
}

} // verus!

verus! {

/// File `f` overlaps piece `p` of a torrent with piece length `len`.
pub open spec fn file_overlaps_piece(
    files: Seq<crate::torrent_info::FileEntry>,
    len: int,
    f: int,
    p: int,
) -> bool {
    &&& files[f].file_size > 0
    &&& files_size_upto(files, f) < (p + 1) * len
    &&& files_size_upto(files, f) + files[f].file_size as int > p * len
}

/// The highest priority among the first `f` files that overlap piece `p`;
/// 0 when none does.
pub open spec fn piece_prio_upto(
    files: Seq<crate::torrent_info::FileEntry>,
    prios: Seq<u8>,
    len: int,
    p: int,
    f: int,
) -> int
    decreases f,
{
    if f <= 0 {
        0
    } else {
        let rest = piece_prio_upto(files, prios, len, p, f - 1);
        let cur: int = if file_overlaps_piece(files, len, f - 1, p) {
            prios[f - 1] as int
        } else {
            0
        };
        if cur > rest {
            cur
        } else {
            rest
        }
    }
}

/// The download priority a piece derives from the file priorities: the
/// highest priority among the files overlapping it, or 0 when no file does.
pub open spec fn piece_priority_from_files(
    files: Seq<crate::torrent_info::FileEntry>,
    prios: Seq<u8>,
    len: int,
    p: int,
) -> int {
    piece_prio_upto(files, prios, len, p, files.len() as int)
}

} // verus!

verus! {

impl TorrentController {
    /// The cumulative start offsets of the files: one entry per file.
    fn file_starts(&self) -> (r: Vec<u64>)
        requires
            self.wf(),
        ensures
            r@.len() == self.info.files@.len(),
            forall|f: int| 0 <= f < self.info.files@.len()
                ==> r@[f] as int == files_size_upto(self.info.files@, f),
    {
        let files = &self.info.files;
        let n = files.len();
        let mut r: Vec<u64> = Vec::new();
        let mut acc: u64 = 0;
        let mut f: usize = 0;
        while f < n
            invariant
                f <= n,
                n == self.info.files@.len(),
                self.wf(),
                r@.len() == f,
                files@ == self.info.files@,
                acc as int == files_size_upto(self.info.files@, f as int),
                forall|g: int| 0 <= g < f
                    ==> r@[g] as int == files_size_upto(self.info.files@, g),
            decreases n - f,
        {
            r.push(acc);
            proof {
                lemma_files_size_upto_mono(self.info.files@, f + 1 as int, n as int);
            }
            acc = acc + files[f].file_size;
            f = f + 1;
        }
        r
    }

    /// Recomputes every piece's download priority from the file priorities:
    /// each piece takes the highest priority among the files overlapping it,
    /// and 0 — not wanted — when no file does. Torrents without metadata
    /// have no pieces and nothing changes.
    fn recompute_piece_priorities(&mut self)
        requires
            old(self).wf(),
        ensures
            final(self).wf(),
            final(self).tracker.num_pieces() == old(self).tracker.num_pieces(),
            final(self).tracker.blocks@ == old(self).tracker.blocks@,
            final(self).tracker.have@ == old(self).tracker.have@,
            final(self).tracker.avail@ == old(self).tracker.avail@,
            final(self).tracker.fail_count == old(self).tracker.fail_count,
            forall|p: int| 0 <= p < old(self).tracker.num_pieces()
                ==> final(self).tracker.priority_of(p) == piece_priority_from_files(
                old(self).info.files@,
                old(self).file_priorities@,
                old(self).info.piece_length as int,
                p,
            ),
            final(self).same_identity(*old(self)),
            final(self).flags == old(self).flags,
            final(self).state == old(self).state,
            final(self).peers@ == old(self).peers@,
            final(self).trackers@ == old(self).trackers@,
            final(self).file_priorities@ == old(self).file_priorities@,
            final(self).errc@ == old(self).errc@,
    {
        let starts = self.file_starts();
        let np = self.tracker.priorities.len();
        let nf = self.info.files.len();
        let len_u64 = self.info.piece_length as u64;
        let mut p: usize = 0;
        while p < np
            invariant
                p <= np,
                np == self.tracker.num_pieces(),
                self.wf(),
                self.info == old(self).info,
                len_u64 == self.info.piece_length as u64,
                nf == self.info.files@.len(),
                starts@.len() == nf,
                forall|g: int| 0 <= g < nf
                    ==> starts@[g] as int == files_size_upto(self.info.files@, g),
                self.file_priorities@ == old(self).file_priorities@,
                self.tracker.blocks@ == old(self).tracker.blocks@,
                self.tracker.have@ == old(self).tracker.have@,
                self.tracker.avail@ == old(self).tracker.avail@,
                self.tracker.fail_count == old(self).tracker.fail_count,
                self.same_identity(*old(self)),
                self.flags == old(self).flags,
                self.state == old(self).state,
                self.peers@ == old(self).peers@,
                self.trackers@ == old(self).trackers@,
                self.errc@ == old(self).errc@,
                self.error_file == old(self).error_file,
                self.completed_time == old(self).completed_time,
                self.has_metadata == old(self).has_metadata,
                self.next_peer_id == old(self).next_peer_id,
                forall|q: int| p <= q < np
                    ==> self.tracker.priority_of(q) == old(self).tracker.priority_of(q),
                forall|q: int| 0 <= q < p
                    ==> self.tracker.priority_of(q) == piece_priority_from_files(
                    old(self).info.files@,
                    old(self).file_priorities@,
                    old(self).info.piece_length as int,
                    q,
                ),
            decreases np - p,
        {
            let ghost pi: int = p as int;
            let ghost li: int = len_u64 as int;
            proof {
                assert((pi + 1) * li <= u64::MAX as int) by (nonlinear_arith)
                    requires
                        0 <= pi + 1,
                        pi + 1 <= 0x8000_0000,
                        0 <= li,
                        li < 0x1_0000_0000,
                ;
                assert(pi * li <= (pi + 1) * li) by (nonlinear_arith)
                    requires
                        0 <= pi,
                        0 <= li,
                ;
            }
            let piece_start: u64 = (p as u64) * len_u64;
            let piece_end: u64 = (p as u64 + 1) * len_u64;
            let mut m: u8 = 0;
            let mut f: usize = 0;
            while f < nf
                invariant
                    f <= nf,
                    nf == self.info.files@.len(),
                    self.wf(),
                    self.info == old(self).info,
                    len_u64 == self.info.piece_length as u64,
                    starts@.len() == nf,
                    forall|g: int| 0 <= g < nf
                        ==> starts@[g] as int == files_size_upto(self.info.files@, g),
                    self.file_priorities@ == old(self).file_priorities@,
                    piece_start as int == p as int * (len_u64 as int),
                    piece_end as int == (p as int + 1) * (len_u64 as int),
                    m as int == piece_prio_upto(
                        self.info.files@,
                        self.file_priorities@,
                        len_u64 as int,
                        p as int,
                        f as int,
                    ),
                decreases nf - f,
            {
                proof {
                    lemma_files_size_upto_mono(self.info.files@, f + 1 as int, nf as int);
                    lemma_files_size_upto_mono(self.info.files@, f as int, f + 1 as int);
                }
                let fsize = self.info.files[f].file_size;
                if fsize > 0 && starts[f] < piece_end && starts[f] + fsize > piece_start {
                    let fp = self.file_priorities[f];
                    if fp > m {
                        m = fp;
                    }
                } else {
                    proof {
                        assert(!file_overlaps_piece(
                            self.info.files@,
                            len_u64 as int,
                            f as int,
                            p as int,
                        ));
                    }
                }
                f = f + 1;
            }
            let ghost pre = *self;
            self.tracker.priorities[p] = m;
            proof {
                crate::piece_tracker::lemma_wf_preserved_blocks_have(pre.tracker, self.tracker);
                assert forall|q: int| 0 <= q < self.tracker.num_pieces()
                    implies self.tracker.blocks_in(q) <= i32::MAX by {
                    assert(self.tracker.blocks@ == pre.tracker.blocks@);
                    assert(self.tracker.blocks_in(q) == pre.tracker.blocks_in(q));
                    assert(pre.tracker.blocks_in(q) <= i32::MAX);
                }
                assert forall|j: int| 0 <= j < self.peers@.len()
                    implies (#[trigger] self.peers@[j]).pieces@.len()
                        == self.tracker.num_pieces() by {
                    assert(self.peers@[j] == pre.peers@[j]);
                    assert(pre.peers@[j].pieces@.len() == pre.tracker.num_pieces());
                }
                assert forall|q: int| 0 <= q < p + 1
                    implies self.tracker.priority_of(q) == piece_priority_from_files(
                    old(self).info.files@,
                    old(self).file_priorities@,
                    old(self).info.piece_length as int,
                    q,
                ) by {
                    if q < p as int {
                        assert(self.tracker.priority_of(q) == pre.tracker.priority_of(q));
                    }
                }
            }
            p = p + 1;
        }
    }

    /// Sets the priority of one file and re-derives every piece's priority
    /// from the file priorities. Fails on a priority outside the accepted
    /// codes or a file index out of range, changing nothing. On a torrent
    /// without metadata, or one that is already a pure seed, the call is
    /// accepted and does nothing, as the priorities of such a torrent cannot
    /// be meaningfully applied.
    pub fn set_file_priority(&mut self, index: usize, priority: u8) -> (r: Result<
        (),
        EngineError,
    >)
        requires
            old(self).wf(),
        ensures
            final(self).wf(),
            r == Result::<(), EngineError>::Err(EngineError::InvalidPriority) <==> !crate::download_priority::valid_priority_code(
                priority,
            ),
            r == Result::<(), EngineError>::Err(EngineError::InvalidIndex) <==> (crate::download_priority::valid_priority_code(
                priority,
            ) && old(self).has_metadata && !old(self).tracker.all_done() && index >= old(self).file_priorities@.len()),
            r is Ok <==> (crate::download_priority::valid_priority_code(priority) && !(old(self).has_metadata && !old(self).tracker.all_done() && index >= old(self).file_priorities@.len())),
            r is Err ==> *final(self) == *old(self),
            (r is Ok && (!old(self).has_metadata || old(self).tracker.all_done())) ==> *final(self)
                == *old(self),
            (r is Ok && old(self).has_metadata && !old(self).tracker.all_done()) ==> {
                &&& final(self).file_priorities@ == old(self).file_priorities@.update(
                    index as int,
                    priority,
                )
                &&& forall|p: int| 0 <= p < old(self).tracker.num_pieces()
                    ==> final(self).tracker.priority_of(p) == piece_priority_from_files(
                    old(self).info.files@,
                    old(self).file_priorities@.update(index as int, priority),
                    old(self).info.piece_length as int,
                    p,
                )
                &&& final(self).tracker.blocks@ == old(self).tracker.blocks@
                &&& final(self).tracker.have@ == old(self).tracker.have@
                &&& final(self).same_identity(*old(self))
                &&& final(self).flags == old(self).flags
                &&& final(self).state == old(self).state
                &&& final(self).peers@ == old(self).peers@
            },
    {
        if !(priority == 0 || priority == 1 || priority == 4 || priority == 7) {
            return Err(EngineError::InvalidPriority);
        }
        let is_seed = self.tracker.check_all_done();
        if !self.has_metadata || is_seed {
            return Ok(());
        }
        if index >= self.file_priorities.len() {
            return Err(EngineError::InvalidIndex);
        }
        self.file_priorities[index] = priority;
        self.recompute_piece_priorities();
        Ok(())
    }

    /// The priority of one file; `None` exactly on an index out of range.
    pub fn get_file_priority(&self, index: usize) -> (r: Option<u8>)
        ensures
            match r {
                Some(v) => index < self.file_priorities@.len() && v == self.file_priorities@[
                    index as int
                ],
                None => index >= self.file_priorities@.len(),
            },
    {
        if index < self.file_priorities.len() {
            Some(self.file_priorities[index])
        } else {
            None
        }
    }

    /// Sets the priorities of all files at once — entry `i` applies to file
    /// `i`; entries beyond the file count, entries carrying no accepted
    /// code, and files beyond the given list are left as they were — then
    /// re-derives every piece's priority. On a torrent without metadata, or
    /// one that is already a pure seed, the call does nothing.
    pub fn set_prioritize_files(&mut self, prios: &Vec<u8>)
        requires
            old(self).wf(),
        ensures
            final(self).wf(),
            (!old(self).has_metadata || old(self).tracker.all_done()) ==> *final(self) == *old(self),
            (old(self).has_metadata && !old(self).tracker.all_done()) ==> {
                &&& final(self).file_priorities@.len() == old(self).file_priorities@.len()
                &&& forall|i: int| 0 <= i < old(self).file_priorities@.len()
                    ==> final(self).file_priorities@[i] == (if i < prios@.len()
                        && crate::download_priority::valid_priority_code(prios@[i]) {
                        prios@[i]
                    } else {
                        old(self).file_priorities@[i]
                    })
                &&& forall|p: int| 0 <= p < old(self).tracker.num_pieces()
                    ==> final(self).tracker.priority_of(p) == piece_priority_from_files(
                    old(self).info.files@,
                    final(self).file_priorities@,
                    old(self).info.piece_length as int,
                    p,
                )
                &&& final(self).tracker.blocks@ == old(self).tracker.blocks@
                &&& final(self).tracker.have@ == old(self).tracker.have@
                &&& final(self).same_identity(*old(self))
                &&& final(self).flags == old(self).flags
                &&& final(self).state == old(self).state
                &&& final(self).peers@ == old(self).peers@
            },
    {
        let is_seed = self.tracker.check_all_done();
        if !self.has_metadata || is_seed {
            return ;
        }
        let n = self.file_priorities.len();
        let mut i: usize = 0;
        while i < n
            invariant
                i <= n,
                self.file_priorities@.len() == n,
                n == old(self).file_priorities@.len(),
                self.same_identity(*old(self)),
                self.flags == old(self).flags,
                self.state == old(self).state,
                self.errc@ == old(self).errc@,
                self.error_file == old(self).error_file,
                self.tracker == old(self).tracker,
                self.peers@ == old(self).peers@,
                self.trackers@ == old(self).trackers@,
                self.next_peer_id == old(self).next_peer_id,
                self.completed_time == old(self).completed_time,
                self.has_metadata == old(self).has_metadata,
                forall|j: int| i <= j < n
                    ==> self.file_priorities@[j] == old(self).file_priorities@[j],
                forall|j: int| 0 <= j < i
                    ==> self.file_priorities@[j] == (if j < prios@.len()
                        && crate::download_priority::valid_priority_code(prios@[j]) {
                        prios@[j]
                    } else {
                        old(self).file_priorities@[j]
                    }),
            decreases n - i,
        {
            if i < prios.len() {
                let v = prios[i];
                if v == 0 || v == 1 || v == 4 || v == 7 {
                    self.file_priorities[i] = v;
                }
            }
            i = i + 1;
        }
        self.recompute_piece_priorities();
    }

    /// The priorities of all files, in file order.
    pub fn get_file_priorities(&self) -> (r: Vec<u8>)
        ensures
            r@ == self.file_priorities@,
    {
        let n = self.file_priorities.len();
        let mut r: Vec<u8> = Vec::new();
        let mut i: usize = 0;
        while i < n
            invariant
                i <= n,
                n == self.file_priorities@.len(),
                r@ == self.file_priorities@.subrange(0, i as int),
            decreases n - i,
        {
            r.push(self.file_priorities[i]);
            assert(r@ =~= self.file_priorities@.subrange(0, i + 1 as int));
            i = i + 1;
        }
        proof {
            assert(self.file_priorities@.subrange(0, n as int) =~= self.file_priorities@);
        }
        r
    }
}

} // verus!

verus! {

/// How many bytes of file `f` fall inside piece `p`.
pub open spec fn overlap_len(
    files: Seq<crate::torrent_info::FileEntry>,
    len: int,
    f: int,
    p: int,
) -> int {
    let fs = files_size_upto(files, f);
    let fe = fs + files[f].file_size as int;
    let ps = p * len;
    let pe = (p + 1) * len;
    let lo = if fs > ps {
        fs
    } else {
        ps
    };
    let hi = if fe < pe {
        fe
    } else {
        pe
    };
    if hi > lo {
        hi - lo
    } else {
        0
    }
}

/// The bytes of file `f` covered by the verified pieces below `p`.
pub open spec fn file_progress_upto(
    files: Seq<crate::torrent_info::FileEntry>,
    have: Seq<bool>,
    len: int,
    f: int,
    p: int,
) -> int
    decreases p,
{
    if p <= 0 {
        0
    } else {
        file_progress_upto(files, have, len, f, p - 1) + (if have[p - 1] {
            overlap_len(files, len, f, p - 1)
        } else {
            0
        })
    }
}

/// The bytes of file `f` already downloaded and verified.
pub open spec fn file_progress_of(
    files: Seq<crate::torrent_info::FileEntry>,
    have: Seq<bool>,
    len: int,
    f: int,
) -> int {
    file_progress_upto(files, have, len, f, have.len() as int)
}

/// Progress prefixes never go negative and only grow.
pub proof fn lemma_file_progress_upto_nonneg(
    files: Seq<crate::torrent_info::FileEntry>,
    have: Seq<bool>,
    len: int,
    f: int,
    p: int,
)
    requires
        len >= 0,
    ensures
        0 <= file_progress_upto(files, have, len, f, p),
    decreases p,
{
    if p > 0 {
        lemma_file_progress_upto_nonneg(files, have, len, f, p - 1);
        assert(overlap_len(files, len, f, p - 1) >= 0);
    }
}

/// `x` clamped into the `u64` range from above.
pub open spec fn cap_u64_int(x: int) -> int {
    if x > u64::MAX {
        u64::MAX as int
    } else {
        x
    }
}

/// Saturating addition on `u64`.
fn sat_add_u64(a: u64, b: u64) -> (r: u64)
    ensures
        r as int == cap_u64_int(a + b),
{
    if a <= u64::MAX - b {
        a + b
    } else {
        u64::MAX
    }
}

impl TorrentController {
    /// The bytes of each file already downloaded and verified, in file
    /// order, clamped at the top of the `i64` range. The engine tracks
    /// completion per verified piece, so the byte-level and piece-level
    /// granularities coincide and the flag changes nothing.
    pub fn get_file_progress(&self, piece_granularity: bool) -> (r: Vec<i64>)
        requires
            self.wf(),
        ensures
            r@.len() == self.info.files@.len(),
            forall|f: int| 0 <= f < self.info.files@.len() ==> r@[f] as int == Self::cap_i64(
                cap_u64_int(
                    file_progress_of(
                        self.info.files@,
                        self.tracker.have@,
                        self.info.piece_length as int,
                        f,
                    ),
                ),
            ),
    {
        let starts = self.file_starts();
        let nf = self.info.files.len();
        let np = self.tracker.have.len();
        let len_u64 = self.info.piece_length as u64;
        proof {
            assert(self.tracker.have@.len() == self.tracker.num_pieces());
        }
        let mut r: Vec<i64> = Vec::new();
        let mut f: usize = 0;
        while f < nf
            invariant
                f <= nf,
                nf == self.info.files@.len(),
                np == self.tracker.have@.len(),
                np == self.tracker.num_pieces(),
                self.wf(),
                len_u64 == self.info.piece_length as u64,
                starts@.len() == nf,
                forall|g: int| 0 <= g < nf
                    ==> starts@[g] as int == files_size_upto(self.info.files@, g),
                r@.len() == f,
                forall|g: int| 0 <= g < f ==> r@[g] as int == Self::cap_i64(
                    cap_u64_int(
                        file_progress_of(
                            self.info.files@,
                            self.tracker.have@,
                            self.info.piece_length as int,
                            g,
                        ),
                    ),
                ),
            decreases nf - f,
        {
            let fstart = starts[f];
            let fsize = self.info.files[f].file_size;
            proof {
                lemma_files_size_upto_mono(self.info.files@, f + 1 as int, nf as int);
            }
            let fend = fstart + fsize;
            let mut acc: u64 = 0;
            let mut p: usize = 0;
            while p < np
                invariant
                    p <= np,
                    np == self.tracker.have@.len(),
                    np == self.tracker.num_pieces(),
                    self.wf(),
                    f < nf,
                    nf == self.info.files@.len(),
                    len_u64 == self.info.piece_length as u64,
                    fstart as int == files_size_upto(self.info.files@, f as int),
                    fend as int == files_size_upto(self.info.files@, f as int)
                        + self.info.files@[f as int].file_size as int,
                    acc as int == cap_u64_int(
                        file_progress_upto(
                            self.info.files@,
                            self.tracker.have@,
                            len_u64 as int,
                            f as int,
                            p as int,
                        ),
                    ),
                decreases np - p,
            {
                let ghost pi: int = p as int;
                let ghost li: int = len_u64 as int;
                proof {
                    assert((pi + 1) * li <= u64::MAX as int) by (nonlinear_arith)
                        requires
                            0 <= pi + 1,
                            pi + 1 <= 0x8000_0000,
                            0 <= li,
                            li < 0x1_0000_0000,
                    ;
                    assert(pi * li <= (pi + 1) * li) by (nonlinear_arith)
                        requires
                            0 <= pi,
                            0 <= li,
                    ;
                    lemma_file_progress_upto_nonneg(
                        self.info.files@,
                        self.tracker.have@,
                        li,
                        f as int,
                        pi,
                    );
                }
                if self.tracker.have[p] {
                    let ps = (p as u64) * len_u64;
                    let pe = (p as u64 + 1) * len_u64;
                    let lo = if fstart > ps {
                        fstart
                    } else {
                        ps
                    };
                    let hi = if fend < pe {
                        fend
                    } else {
                        pe
                    };
                    let add = if hi > lo {
                        hi - lo
                    } else {
                        0
                    };
                    proof {
                        assert(add as int == overlap_len(
                            self.info.files@,
                            li,
                            f as int,
                            pi,
                        ));
                    }
                    acc = sat_add_u64(acc, add);
                } else {
                    acc = sat_add_u64(acc, 0);
                }
                p = p + 1;
            }
            let v: i64 = if acc > i64::MAX as u64 {
                i64::MAX
            } else {
                acc as i64
            };
            r.push(v);
            f = f + 1;
        }
        r
    }
}

} // verus!

verus! {

impl TorrentController {
    /// Requests a scrape of every tracker: each becomes eligible again
    /// regardless of its failure streak, with its schedule untouched.
    pub fn scrape_tracker(&mut self)
        requires
            old(self).wf(),
        ensures
            final(self).wf(),
            final(self).trackers@.len() == old(self).trackers@.len(),
            forall|i: int| 0 <= i < old(self).trackers@.len()
                ==> crate::announce_entry::entry_scraped(
                old(self).trackers@[i],
                #[trigger] final(self).trackers@[i],
            ),
            final(self).same_identity(*old(self)),
            final(self).flags == old(self).flags,
            final(self).state == old(self).state,
            final(self).tracker == old(self).tracker,
            final(self).peers@ == old(self).peers@,
    {
        let n = self.trackers.len();
        let mut i: usize = 0;
        while i < n
            invariant
                i <= n,
                self.trackers@.len() == n,
                n == old(self).trackers@.len(),
                self.same_identity(*old(self)),
                self.flags == old(self).flags,
                self.state == old(self).state,
                self.tracker == old(self).tracker,
                self.peers@ == old(self).peers@,
                self.errc@ == old(self).errc@,
                self.error_file == old(self).error_file,
                self.file_priorities@ == old(self).file_priorities@,
                self.next_peer_id == old(self).next_peer_id,
                self.completed_time == old(self).completed_time,
                self.has_metadata == old(self).has_metadata,
                forall|j: int| i <= j < n
                    ==> #[trigger] self.trackers@[j] == old(self).trackers@[j],
                forall|j: int| 0 <= j < i ==> crate::announce_entry::entry_scraped(
                    old(self).trackers@[j],
                    #[trigger] self.trackers@[j],
                ),
            decreases n - i,
        {
            let ghost pre = self.trackers@;
            let entry = &mut self.trackers[i];
            entry.scrape_all();
            proof {
                assert forall|j: int| 0 <= j < n && j != i
                    implies #[trigger] self.trackers@[j] == pre[j] by {}
            }
            i = i + 1;
        }
    }

    /// A snapshot of every tracker of this torrent, in order, each carrying
    /// the same content as the live entry.
    pub fn get_trackers(&self) -> (r: Vec<AnnounceEntry>)
        ensures
            r@.len() == self.trackers@.len(),
            forall|i: int| 0 <= i < self.trackers@.len()
                ==> crate::announce_entry::entry_like(#[trigger] r@[i], self.trackers@[i]),
    {
        let n = self.trackers.len();
        let mut r: Vec<AnnounceEntry> = Vec::new();
        let mut i: usize = 0;
        while i < n
            invariant
                i <= n,
                n == self.trackers@.len(),
                r@.len() == i,
                forall|j: int| 0 <= j < i ==> crate::announce_entry::entry_like(
                    #[trigger] r@[j],
                    self.trackers@[j],
                ),
            decreases n - i,
        {
            r.push(crate::announce_entry::copy_entry(&self.trackers[i]));
            i = i + 1;
        }
        r
    }
}

} // verus!

verus! {

impl TorrentController {
    /// Some tracker of this torrent carries an announce state.
    pub open spec fn has_announce_state(self) -> bool {
        exists|k: int, e: int|
            0 <= k < self.trackers@.len() && 0 <= e < self.trackers@[k].endpoints@.len()
                && (#[trigger] self.trackers@[k].endpoints@[e]).info_hashes@.len() > 0
    }

    /// The time of the earliest scheduled announce among all trackers'
    /// states, or 0 when the torrent has no announce state at all.
    pub fn next_announce_time(&self) -> (r: i64)
        ensures
            !self.has_announce_state() ==> r == 0,
            self.has_announce_state() ==> {
                &&& exists|k: int, e: int, i: int|
                    0 <= k < self.trackers@.len() && 0 <= e < self.trackers@[k].endpoints@.len()
                        && 0 <= i < self.trackers@[k].endpoints@[e].info_hashes@.len()
                        && (#[trigger] self.trackers@[k].endpoints@[e].info_hashes@[i]).next_announce
                        == r
                &&& forall|k: int, e: int, i: int|
                    0 <= k < self.trackers@.len() && 0 <= e < self.trackers@[k].endpoints@.len()
                        && 0 <= i < self.trackers@[k].endpoints@[e].info_hashes@.len()
                        ==> r <= (
                        #[trigger] self.trackers@[k].endpoints@[e].info_hashes@[i]).next_announce
            },
    {
        let n = self.trackers.len();
        let mut best: Option<i64> = None;
        let mut k: usize = 0;
        while k < n
            invariant
                k <= n,
                n == self.trackers@.len(),
                match best {
                    Some(m) => {
                        &&& exists|k2: int, e: int, i: int|
                            0 <= k2 < k && 0 <= e < self.trackers@[k2].endpoints@.len() && 0 <= i
                                < self.trackers@[k2].endpoints@[e].info_hashes@.len()
                                && (#[trigger] self.trackers@[k2].endpoints@[e].info_hashes@[i]).next_announce
                                == m
                        &&& forall|k2: int, e: int, i: int|
                            0 <= k2 < k && 0 <= e < self.trackers@[k2].endpoints@.len() && 0 <= i
                                < self.trackers@[k2].endpoints@[e].info_hashes@.len()
                                ==> m <= (
                                #[trigger] self.trackers@[k2].endpoints@[e].info_hashes@[i]).next_announce
                    },
                    None => forall|k2: int, e: int|
                        0 <= k2 < k && 0 <= e < self.trackers@[k2].endpoints@.len()
                            ==> (#[trigger] self.trackers@[k2].endpoints@[e]).info_hashes@.len()
                            == 0,
                },
            decreases n - k,
        {
            let em = self.trackers[k].min_next_announce();
            proof {
                match em {
                    Some(v) => {
                        let (e2, i2) = choose|e2: int, i2: int|
                            0 <= e2 < self.trackers@[k as int].endpoints@.len() && 0 <= i2
                                < self.trackers@[k as int].endpoints@[e2].info_hashes@.len() && (
                            #[trigger] self.trackers@[k as int].endpoints@[e2].info_hashes@[i2]).next_announce
                                == v;
                        assert(self.trackers@[k as int].endpoints@[e2].info_hashes@[i2].next_announce
                            == v);
                    },
                    None => {},
                }
            }
            match em {
                Some(v) => {
                    match best {
                        Some(m) => {
                            if v < m {
                                best = Some(v);
                            }
                        },
                        None => {
                            best = Some(v);
                        },
                    }
                },
                None => {},
            }
            k = k + 1;
        }
        match best {
            Some(m) => m,
            None => {
                proof {
                    if self.has_announce_state() {
                        let (k2, e2) = choose|k2: int, e2: int|
                            0 <= k2 < self.trackers@.len() && 0 <= e2
                                < self.trackers@[k2].endpoints@.len() && (
                            #[trigger] self.trackers@[k2].endpoints@[e2]).info_hashes@.len() > 0;
                        assert(false);
                    }
                }
                0
            },
        }
    }
}

} // verus!

verus! {

/// The exact byte size of piece `p`: the piece length, except for the last
/// piece, which holds whatever remains of the total.
pub open spec fn piece_byte_size(info: TorrentInfo, p: int) -> int {
    if p < info.num_pieces as int - 1 {
        info.piece_length as int
    } else {
        info.total_size as int - (info.num_pieces as int - 1) * info.piece_length as int
    }
}

/// Under sound metadata every piece holds between one byte and a full
/// piece length.
pub proof fn lemma_piece_byte_size_bounds(info: TorrentInfo, p: int)
    requires
        torrent_info_wf(info),
        0 <= p < info.num_pieces as int,
    ensures
        0 < piece_byte_size(info, p) <= info.piece_length as int,
{
    if p >= info.num_pieces as int - 1 {
        let n = info.num_pieces as int;
        let len = info.piece_length as int;
        assert(n * len == (n - 1) * len + len) by (nonlinear_arith);
        assert(0 <= (n - 1) * len) by (nonlinear_arith)
            requires
                1 <= n,
                0 <= len,
        ;
    }
}

/// The verified bytes of the pieces below `p`.
pub open spec fn done_bytes_upto(info: TorrentInfo, have: Seq<bool>, p: int) -> int
    decreases p,
{
    if p <= 0 {
        0
    } else {
        done_bytes_upto(info, have, p - 1) + (if have[p - 1] {
            piece_byte_size(info, p - 1)
        } else {
            0
        })
    }
}

/// The wanted bytes of the pieces below `p`: pieces whose priority is not 0.
pub open spec fn wanted_bytes_upto(info: TorrentInfo, prios: Seq<u8>, p: int) -> int
    decreases p,
{
    if p <= 0 {
        0
    } else {
        wanted_bytes_upto(info, prios, p - 1) + (if prios[p - 1] != 0 {
            piece_byte_size(info, p - 1)
        } else {
            0
        })
    }
}

/// The verified wanted bytes of the pieces below `p`.
pub open spec fn wanted_done_bytes_upto(
    info: TorrentInfo,
    have: Seq<bool>,
    prios: Seq<u8>,
    p: int,
) -> int
    decreases p,
{
    if p <= 0 {
        0
    } else {
        wanted_done_bytes_upto(info, have, prios, p - 1) + (if have[p - 1] && prios[p - 1]
            != 0 {
            piece_byte_size(info, p - 1)
        } else {
            0
        })
    }
}

/// The byte sums never go negative under sound metadata.
pub proof fn lemma_byte_sums_nonneg(info: TorrentInfo, have: Seq<bool>, prios: Seq<u8>, p: int)
    requires
        torrent_info_wf(info),
        p <= info.num_pieces as int,
    ensures
        0 <= done_bytes_upto(info, have, p),
        0 <= wanted_bytes_upto(info, prios, p),
        0 <= wanted_done_bytes_upto(info, have, prios, p),
    decreases (if p >= 0 {
        p
    } else {
        0
    }),
{
    if p > 0 {
        lemma_byte_sums_nonneg(info, have, prios, p - 1);
        lemma_piece_byte_size_bounds(info, p - 1);
    }
}

impl TorrentController {
    /// Computes the done, wanted, and wanted-done byte totals over the
    /// pieces, each clamped at the top of the `u64` range.
    fn count_byte_progress(&self) -> (r: (u64, u64, u64))
        requires
            self.wf(),
        ensures
            r.0 as int == cap_u64_int(
                done_bytes_upto(self.info, self.tracker.have@, self.tracker.num_pieces()),
            ),
            r.1 as int == cap_u64_int(
                wanted_bytes_upto(
                    self.info,
                    self.tracker.priorities@,
                    self.tracker.num_pieces(),
                ),
            ),
            r.2 as int == cap_u64_int(
                wanted_done_bytes_upto(
                    self.info,
                    self.tracker.have@,
                    self.tracker.priorities@,
                    self.tracker.num_pieces(),
                ),
            ),
    {
        let n = self.tracker.have.len();
        proof {
            assert(n == self.tracker.num_pieces());
        }
        let num_pieces = self.info.num_pieces as usize;
        let len_u64 = self.info.piece_length as u64;
        let mut done: u64 = 0;
        let mut wanted: u64 = 0;
        let mut wanted_done: u64 = 0;
        let mut p: usize = 0;
        while p < n
            invariant
                p <= n,
                n == self.tracker.num_pieces(),
                self.wf(),
                num_pieces == self.info.num_pieces as usize,
                len_u64 == self.info.piece_length as u64,
                done as int == cap_u64_int(done_bytes_upto(self.info, self.tracker.have@, p as int)),
                wanted as int == cap_u64_int(
                    wanted_bytes_upto(self.info, self.tracker.priorities@, p as int),
                ),
                wanted_done as int == cap_u64_int(
                    wanted_done_bytes_upto(
                        self.info,
                        self.tracker.have@,
                        self.tracker.priorities@,
                        p as int,
                    ),
                ),
            decreases n - p,
        {
            proof {
                lemma_piece_byte_size_bounds(self.info, p as int);
                lemma_byte_sums_nonneg(
                    self.info,
                    self.tracker.have@,
                    self.tracker.priorities@,
                    p as int,
                );
                let ni = self.info.num_pieces as int;
                let li = self.info.piece_length as int;
                assert((ni - 1) * li <= 0x7fff_ffff_ffff_ffff) by (nonlinear_arith)
                    requires
                        0 <= ni,
                        ni <= 0x8000_0000,
                        0 <= li,
                        li < 0x1_0000_0000,
                ;
            }
            let size: u64 = if p + 1 < num_pieces {
                len_u64
            } else {
                self.info.total_size - (num_pieces as u64 - 1) * len_u64
            };
            proof {
                assert(size as int == piece_byte_size(self.info, p as int));
            }
            let have = self.tracker.have[p];
            let is_wanted = self.tracker.priorities[p] != 0;
            if have {
                done = sat_add_u64(done, size);
            } else {
                done = sat_add_u64(done, 0);
            }
            if is_wanted {
                wanted = sat_add_u64(wanted, size);
            } else {
                wanted = sat_add_u64(wanted, 0);
            }
            if have && is_wanted {
                wanted_done = sat_add_u64(wanted_done, size);
            } else {
                wanted_done = sat_add_u64(wanted_done, 0);
            }
            p = p + 1;
        }
        (done, wanted, wanted_done)
    }
}

} // verus!

verus! {

/// The snapshot `r` correctly describes the torrent `t`: every field the
/// engine tracks is pinned — the error condition, identity, piece bitmap and
/// counts, derived finished/seeding flags, progress in parts per million,
/// byte totals, the earliest scheduled announce, scrape numbers when a
/// tracker reported them, the state code and the flag word — and the
/// transfer-rate statistics the engine does not measure are zero.
pub open spec fn status_matches(r: crate::torrent_status::TorrentStatus, t: TorrentController) -> bool {
    &&& r.errc@ == t.errc@
    &&& r.error_file == t.error_file
    &&& r.save_path@ == t.save_path@
    &&& r.name@ == t.info.name@
    &&& r.info_hash@ == t.info.info_hash@
    &&& r.pieces@ == t.tracker.have@
    &&& r.num_pieces as int == crate::bitfield::count_true(t.tracker.have@)
    &&& r.is_seeding == t.tracker.all_done()
    &&& r.is_finished == t.tracker.all_wanted_done()
    &&& r.state == t.state.code_spec()
    &&& r.flags == t.flags
    &&& r.has_metadata == t.has_metadata
    &&& r.added_time == t.added_time
    &&& r.completed_time == t.completed_time
    &&& r.block_size == t.block_size_spec()
    &&& r.total == TorrentController::cap_i64(t.info.total_size as int)
    &&& r.total_done as int == TorrentController::cap_i64(
        cap_u64_int(done_bytes_upto(t.info, t.tracker.have@, t.tracker.num_pieces())),
    )
    &&& r.total_wanted as int == TorrentController::cap_i64(
        cap_u64_int(wanted_bytes_upto(t.info, t.tracker.priorities@, t.tracker.num_pieces())),
    )
    &&& r.total_wanted_done as int == TorrentController::cap_i64(
        cap_u64_int(
            wanted_done_bytes_upto(
                t.info,
                t.tracker.have@,
                t.tracker.priorities@,
                t.tracker.num_pieces(),
            ),
        ),
    )
    &&& r.total_failed_bytes == t.total_failed_bytes
    &&& r.total_redundant_bytes == t.total_redundant_bytes
    &&& (t.tracker.num_pieces() > 0 ==> r.progress_ppm as int == crate::bitfield::count_true(
        t.tracker.have@,
    ) * 1000000 / t.tracker.num_pieces())
    &&& (t.tracker.num_pieces() == 0 ==> r.progress_ppm == 0)
    &&& r.num_peers as int == TorrentController::cap_i32(
        TorrentController::connected_peers_upto(t.peers@, t.peers@.len() as int),
    )
    &&& r.num_connections as int == TorrentController::cap_i32(t.peers@.len() as int)
    &&& r.queue_position == (if t.tracker.all_wanted_done() {
        -1int
    } else {
        0int
    })
    &&& (!t.has_announce_state() ==> r.next_announce == 0)
    &&& (t.has_announce_state() ==> {
        &&& exists|k: int, e: int, i: int|
            0 <= k < t.trackers@.len() && 0 <= e < t.trackers@[k].endpoints@.len() && 0 <= i
                < t.trackers@[k].endpoints@[e].info_hashes@.len() && (
            #[trigger] t.trackers@[k].endpoints@[e].info_hashes@[i]).next_announce
                == r.next_announce
        &&& forall|k: int, e: int, i: int|
            0 <= k < t.trackers@.len() && 0 <= e < t.trackers@[k].endpoints@.len() && 0 <= i
                < t.trackers@[k].endpoints@[e].info_hashes@.len() ==> r.next_announce <= (
            #[trigger] t.trackers@[k].endpoints@[e].info_hashes@[i]).next_announce
    })
    &&& ((r.num_complete == -1 && r.num_incomplete == -1 && (forall|k: int, e: int, i: int|
        0 <= k < t.trackers@.len() && 0 <= e < t.trackers@[k].endpoints@.len() && 0 <= i
            < t.trackers@[k].endpoints@[e].info_hashes@.len()
            ==> (#[trigger] t.trackers@[k].endpoints@[e].info_hashes@[i]).scrape_complete < 0))
        || (exists|k: int, e: int, i: int|
        0 <= k < t.trackers@.len() && 0 <= e < t.trackers@[k].endpoints@.len() && 0 <= i
            < t.trackers@[k].endpoints@[e].info_hashes@.len() && (
        #[trigger] t.trackers@[k].endpoints@[e].info_hashes@[i]).scrape_complete >= 0
            && r.num_complete == t.trackers@[k].endpoints@[e].info_hashes@[i].scrape_complete
            && r.num_incomplete
            == t.trackers@[k].endpoints@[e].info_hashes@[i].scrape_incomplete))
    &&& r.total_download == 0
    &&& r.total_upload == 0
    &&& r.download_rate == 0
    &&& r.upload_rate == 0
    &&& r.num_seeds == 0
    &&& r.current_tracker@.len() == 0
    &&& r.verified_pieces@.len() == 0
    &&& r.need_save_resume == (t.flags & flags::NEED_SAVE_RESUME != 0)
    &&& r.announcing_to_trackers == (t.flags & flags::PAUSED == 0)
    &&& r.announcing_to_lsd == (t.flags & (flags::PAUSED | flags::DISABLE_LSD) == 0)
    &&& r.announcing_to_dht == (t.flags & (flags::PAUSED | flags::DISABLE_DHT) == 0)
}

} // verus!
