//! Per-torrent piece and block download state.
//!
//! A piece decomposes into a fixed number of blocks (the last piece may have
//! fewer). Each block carries a state — not requested, requested, queued for
//! writing, or written — together with the peers currently requesting it.
//! A piece is "have" only once all its blocks are written and its hash has
//! verified; a hash failure resets every block of that piece and counts one
//! failure, touching no other piece.

use vstd::prelude::*;

use crate::errors::EngineError;
use crate::metrics::Metrics;
use crate::session_stats::saturating_add_i64;
use crate::session_stats::CountersAggregator;

verus! {

/// The download state of one block.
#[derive(Clone, Copy, Debug, PartialEq, Eq, Structural)]
pub enum BlockState {
    /// Not downloaded and not requested from any peer.
    Empty,
    /// Requested from at least one peer, not completely downloaded yet.
    Requested,
    /// Downloaded and queued for being written to disk.
    Writing,
    /// Written to disk.
    Finished,
}

/// One block: its state and the peers with an outstanding request for it.
/// Near the end of a torrent a block may be requested from several peers in
/// parallel; otherwise the list holds at most one peer.
#[derive(Debug)]
pub struct Block {
    pub state: BlockState,
    pub requesters: Vec<u64>,
}

/// The sequence `s` with every occurrence of `x` removed, order kept.
pub open spec fn seq_remove_all(s: Seq<u64>, x: u64) -> Seq<u64>
    decreases s.len(),
{
    if s.len() == 0 {
        Seq::empty()
    } else {
        let rest = seq_remove_all(s.drop_last(), x);
        if s.last() == x {
            rest
        } else {
            rest.push(s.last())
        }
    }
}

/// What `seq_remove_all` keeps: exactly the elements other than `x`.
pub proof fn lemma_seq_remove_all_contains(s: Seq<u64>, x: u64, y: u64)
    ensures
        seq_remove_all(s, x).contains(y) <==> (s.contains(y) && y != x),
    decreases s.len(),
{
    let out = seq_remove_all(s, x);
    if s.len() == 0 {
        assert(!s.contains(y));
    } else {
        lemma_seq_remove_all_contains(s.drop_last(), x, y);
        let rest = seq_remove_all(s.drop_last(), x);
        if out.contains(y) {
            let i = choose|i: int| 0 <= i < out.len() && out[i] == y;
            if s.last() == x || i < rest.len() {
                assert(rest[i] == y);
                assert(rest.contains(y));
                let j = choose|j: int| 0 <= j < s.drop_last().len() && s.drop_last()[j] == y;
                assert(s[j] == y);
                assert(s.contains(y));
            } else {
                assert(y == s.last());
                assert(s[s.len() - 1] == y);
                assert(s.contains(y));
            }
        }
        if s.contains(y) && y != x {
            let j = choose|j: int| 0 <= j < s.len() && s[j] == y;
            if j == s.len() - 1 {
                assert(s.last() == y);
                assert(out == rest.push(y));
                assert(out[out.len() - 1] == y);
                assert(out.contains(y));
            } else {
                assert(s.drop_last()[j] == y);
                assert(s.drop_last().contains(y));
                let k = choose|k: int| 0 <= k < rest.len() && rest[k] == y;
                if s.last() == x {
                    assert(out[k] == y);
                } else {
                    assert(out == rest.push(s.last()));
                    assert(out[k] == y);
                }
                assert(out.contains(y));
            }
        }
    }
}

/// `seq_remove_all` leaves nothing exactly when `s` holds only `x`.
pub proof fn lemma_seq_remove_all_empty(s: Seq<u64>, x: u64)
    ensures
        seq_remove_all(s, x).len() == 0 <==> (forall|i: int| 0 <= i < s.len() ==> s[i] == x),
    decreases s.len(),
{
    if s.len() == 0 {
    } else {
        lemma_seq_remove_all_empty(s.drop_last(), x);
        if seq_remove_all(s, x).len() == 0 {
            assert forall|i: int| 0 <= i < s.len() implies s[i] == x by {
                if i < s.len() - 1 {
                    assert(s.drop_last()[i] == s[i]);
                }
            }
        } else {
            if exists|i: int| 0 <= i < s.len() && s[i] != x {
                let i = choose|i: int| 0 <= i < s.len() && s[i] != x;
                if i < s.len() - 1 {
                    assert(s.drop_last()[i] != x);
                }
            }
        }
    }
}

/// A fresh copy of `v` with every occurrence of `peer` removed.
fn remove_peer(v: &Vec<u64>, peer: u64) -> (r: Vec<u64>)
    ensures
        r@ == seq_remove_all(v@, peer),
{
    let mut r: Vec<u64> = Vec::new();
    let mut i: usize = 0;
    while i < v.len()
        invariant
            i <= v@.len(),
            r@ == seq_remove_all(v@.subrange(0, i as int), peer),
        decreases v@.len() - i,
    {
        proof {
            assert(v@.subrange(0, i + 1 as int).drop_last() =~= v@.subrange(0, i as int));
            assert(v@.subrange(0, i + 1 as int).last() == v@[i as int]);
        }
        if v[i] != peer {
            r.push(v[i]);
        }
        i = i + 1;
    }
    proof {
        assert(v@.subrange(0, v@.len() as int) =~= v@);
    }
    r
}

/// True when `rs` holds no peer other than `peer`.
pub open spec fn sole_requester(rs: Seq<u64>, peer: u64) -> bool {
    forall|i: int| 0 <= i < rs.len() ==> rs[i] == peer
}

/// True for the transitions `mark_block` accepts: a block becomes `Finished`
/// only from `Writing`, and a `Finished` block never changes again.
pub open spec fn transition_ok(from: BlockState, to: BlockState) -> bool {
    &&& (to == BlockState::Finished ==> from == BlockState::Writing)
    &&& (from == BlockState::Finished ==> to == BlockState::Finished)
}

/// Block-level download state of one torrent.
pub struct PieceBlockTracker {
    /// `blocks[p][b]` is block `b` of piece `p`.
    pub blocks: Vec<Vec<Block>>,
    /// `have[p]` is true once piece `p` is complete and hash-verified.
    pub have: Vec<bool>,
    /// `avail[p]` counts the connected peers known to hold piece `p`.
    pub avail: Vec<u32>,
    /// `priorities[p]` is the download priority of piece `p`; 0 is unwanted.
    pub priorities: Vec<u8>,
    /// How many pieces of this torrent have failed their hash.
    pub fail_count: u64,
}

impl PieceBlockTracker {
    /// The number of pieces.
    pub open spec fn num_pieces(self) -> int {
        self.blocks@.len() as int
    }

    /// The number of blocks of piece `p`.
    pub open spec fn blocks_in(self, p: int) -> int {
        self.blocks@[p]@.len() as int
    }

    /// Block `b` of piece `p`.
    pub open spec fn block_at(self, p: int, b: int) -> Block {
        self.blocks@[p]@[b]
    }

    /// The state of block `b` of piece `p`.
    pub open spec fn state_of(self, p: int, b: int) -> BlockState {
        self.block_at(p, b).state
    }

    /// The requesters of block `b` of piece `p`.
    pub open spec fn requesters_of(self, p: int, b: int) -> Seq<u64> {
        self.block_at(p, b).requesters@
    }

    /// True once piece `p` is complete and hash-verified.
    pub open spec fn piece_have(self, p: int) -> bool {
        self.have@[p]
    }

    /// The download priority of piece `p`.
    pub open spec fn priority_of(self, p: int) -> u8 {
        self.priorities@[p]
    }

    /// A piece still worth requesting: wanted and not yet verified.
    pub open spec fn piece_wanted(self, p: int) -> bool {
        self.priority_of(p) != 0 && !self.piece_have(p)
    }

    /// Every block of piece `p` has been written.
    pub open spec fn all_blocks_finished(self, p: int) -> bool {
        forall|b: int| 0 <= b < self.blocks_in(p) ==> self.state_of(p, b) == BlockState::Finished
    }

    /// The side arrays all have one entry per piece, and a verified piece
    /// keeps all its blocks written.
    pub open spec fn wf(self) -> bool {
        &&& self.have@.len() == self.num_pieces()
        &&& self.avail@.len() == self.num_pieces()
        &&& self.priorities@.len() == self.num_pieces()
        &&& forall|p: int| 0 <= p < self.num_pieces() && self.piece_have(p)
            ==> self.all_blocks_finished(p)
    }

    /// The block grids of `self` and `other` have the same dimensions.
    pub open spec fn same_dims(self, other: PieceBlockTracker) -> bool {
        &&& self.num_pieces() == other.num_pieces()
        &&& forall|p: int| 0 <= p < self.num_pieces()
            ==> self.blocks_in(p) == #[trigger] other.blocks_in(p)
    }

    /// A fresh tracker: `num_pieces` pieces of `blocks_per_piece` blocks each
    /// (the last piece gets `last_piece_blocks`), every block unrequested,
    /// nothing verified, no peers, every piece at the default priority.
    pub fn new(num_pieces: usize, blocks_per_piece: usize, last_piece_blocks: usize) -> (r:
        PieceBlockTracker)
        requires
            0 < blocks_per_piece,
            0 < last_piece_blocks <= blocks_per_piece,
        ensures
            r.wf(),
            r.num_pieces() == num_pieces,
            forall|p: int| 0 <= p < num_pieces
                ==> r.blocks_in(p) == (if p == num_pieces - 1 {
                    last_piece_blocks as int
                } else {
                    blocks_per_piece as int
                }),
            forall|p: int, b: int| 0 <= p < num_pieces && 0 <= b < r.blocks_in(p)
                ==> r.state_of(p, b) == BlockState::Empty && r.requesters_of(p, b).len() == 0,
            forall|p: int| 0 <= p < num_pieces
                ==> !r.piece_have(p) && r.avail@[p] == 0 && r.priority_of(p) == 4,
            r.fail_count == 0,
    {
        let mut blocks: Vec<Vec<Block>> = Vec::new();
        let mut have: Vec<bool> = Vec::new();
        let mut avail: Vec<u32> = Vec::new();
        let mut priorities: Vec<u8> = Vec::new();
        let mut p: usize = 0;
        while p < num_pieces
            invariant
                p <= num_pieces,
                0 < blocks_per_piece,
                0 < last_piece_blocks <= blocks_per_piece,
                blocks@.len() == p,
                have@.len() == p,
                avail@.len() == p,
                priorities@.len() == p,
                forall|q: int| 0 <= q < p
                    ==> blocks@[q]@.len() == (if q == num_pieces - 1 {
                        last_piece_blocks as int
                    } else {
                        blocks_per_piece as int
                    }),
                forall|q: int, b: int| 0 <= q < p && 0 <= b < blocks@[q]@.len()
                    ==> blocks@[q]@[b].state == BlockState::Empty
                        && blocks@[q]@[b].requesters@.len() == 0,
                forall|q: int| 0 <= q < p
                    ==> !have@[q] && avail@[q] == 0 && priorities@[q] == 4,
            decreases num_pieces - p,
        {
            let n = if p == num_pieces - 1 {
                last_piece_blocks
            } else {
                blocks_per_piece
            };
            let mut piece: Vec<Block> = Vec::new();
            let mut b: usize = 0;
            while b < n
                invariant
                    b <= n,
                    piece@.len() == b,
                    forall|c: int| 0 <= c < b
                        ==> piece@[c].state == BlockState::Empty
                            && piece@[c].requesters@.len() == 0,
                decreases n - b,
            {
                piece.push(Block { state: BlockState::Empty, requesters: Vec::new() });
                b = b + 1;
            }
            blocks.push(piece);
            have.push(false);
            avail.push(0);
            priorities.push(4);
            p = p + 1;
        }
        PieceBlockTracker { blocks, have, avail, priorities, fail_count: 0 }
    }

    /// Everything but the block grid is unchanged.
    pub open spec fn only_blocks_changed(self, other: PieceBlockTracker) -> bool {
        &&& self.have@ == other.have@
        &&& self.avail@ == other.avail@
        &&& self.priorities@ == other.priorities@
        &&& self.fail_count == other.fail_count
    }

    /// Every block outside piece `p` is exactly as it was.
    pub open spec fn other_pieces_unchanged(self, other: PieceBlockTracker, p: int) -> bool {
        forall|q: int| 0 <= q < self.num_pieces() && q != p
            ==> self.blocks@[q] == #[trigger] other.blocks@[q]
    }

    /// Transitions one block's state.
    ///
    /// Succeeds exactly when the indices are in range, the piece has not
    /// already been verified (a verified piece's blocks are frozen), and the
    /// transition is accepted: into `Finished` only from `Writing`, and never
    /// out of `Finished`. On success only that block changes: it takes the
    /// new state, and its requester list is dropped when the block leaves the
    /// requested pipeline (`Empty` or `Finished`) and kept otherwise. On
    /// failure nothing changes.
    pub fn mark_block(&mut self, piece: usize, block: usize, to: BlockState) -> (r: Result<
        (),
        EngineError,
    >)
        requires
            old(self).wf(),
        ensures
            final(self).wf(),
            match r {
                Ok(()) => {
                    &&& piece < old(self).num_pieces()
                    &&& block < old(self).blocks_in(piece as int)
                    &&& !old(self).piece_have(piece as int)
                    &&& transition_ok(old(self).state_of(piece as int, block as int), to)
                    &&& final(self).state_of(piece as int, block as int) == to
                    &&& (if to == BlockState::Empty || to == BlockState::Finished {
                        final(self).requesters_of(piece as int, block as int).len() == 0
                    } else {
                        final(self).requesters_of(piece as int, block as int)
                            == old(self).requesters_of(piece as int, block as int)
                    })
                    &&& final(self).blocks_in(piece as int) == old(self).blocks_in(piece as int)
                    &&& forall|b: int| 0 <= b < old(self).blocks_in(piece as int) && b != block
                        ==> final(self).block_at(piece as int, b)
                            == old(self).block_at(piece as int, b)
                    &&& final(self).other_pieces_unchanged(*old(self), piece as int)
                    &&& final(self).only_blocks_changed(*old(self))
                    &&& final(self).num_pieces() == old(self).num_pieces()
                },
                Err(e) => {
                    &&& *final(self) == *old(self)
                    &&& (e == EngineError::InvalidIndex <==> (piece >= old(self).num_pieces()
                        || block >= old(self).blocks_in(piece as int)))
                    &&& (e == EngineError::InvalidTransition <==> (piece < old(self).num_pieces()
                        && block < old(self).blocks_in(piece as int)
                        && (old(self).piece_have(piece as int)
                            || !transition_ok(old(self).state_of(piece as int, block as int), to))))
                },
            },
            r is Err <==> (piece >= old(self).num_pieces()
                || block >= old(self).blocks_in(piece as int)
                || old(self).piece_have(piece as int)
                || !transition_ok(old(self).state_of(piece as int, block as int), to)),
    {
        if piece >= self.blocks.len() {
            return Err(EngineError::InvalidIndex);
        }
        if block >= self.blocks[piece].len() {
            return Err(EngineError::InvalidIndex);
        }
        if self.have[piece] {
            return Err(EngineError::InvalidTransition);
        }
        let from = self.blocks[piece][block].state;
        let ok = match to {
            BlockState::Finished => from == BlockState::Writing,
            _ => from != BlockState::Finished,
        };
        if !ok {
            return Err(EngineError::InvalidTransition);
        }
        let keep = match to {
            BlockState::Requested | BlockState::Writing => true,
            _ => false,
        };
        let row = &mut self.blocks[piece];
        let cell = &mut row[block];
        cell.state = to;
        if !keep {
            cell.requesters = Vec::new();
        }
        proof {
            let ns = *self;
            let os = *old(self);
            assert forall|q: int| 0 <= q < ns.num_pieces() && ns.piece_have(q)
                implies ns.all_blocks_finished(q) by {
                assert(os.piece_have(q));
                assert(q != piece as int);
                assert(ns.blocks@[q] == os.blocks@[q]);
                assert(os.all_blocks_finished(q));
                assert forall|b2: int| 0 <= b2 < ns.blocks_in(q)
                    implies ns.state_of(q, b2) == BlockState::Finished by {
                    assert(os.state_of(q, b2) == ns.state_of(q, b2));
                }
            }
        }
        Ok(())
    }

    /// Applies a piece-hash verdict.
    ///
    /// On success the piece becomes "have" and its blocks are frozen exactly
    /// as they are; one piece-passed count is added. On failure every block
    /// of the piece goes back to unrequested with no requesters, the torrent's
    /// hash-failure counter grows by exactly one, and one piece-failed count
    /// is added. Either way no other piece's blocks move.
    pub fn on_piece_hash_result(
        &mut self,
        piece: usize,
        ok: bool,
        c: &mut CountersAggregator,
    )
        requires
            old(self).wf(),
            old(c).wf(),
            piece < old(self).num_pieces(),
            !old(self).piece_have(piece as int),
            ok ==> old(self).all_blocks_finished(piece as int),
            old(self).fail_count < u64::MAX,
        ensures
            final(self).wf(),
            final(c).wf(),
            final(self).num_pieces() == old(self).num_pieces(),
            final(self).blocks_in(piece as int) == old(self).blocks_in(piece as int),
            final(self).other_pieces_unchanged(*old(self), piece as int),
            final(self).have@ == old(self).have@.update(piece as int, ok),
            final(self).avail@ == old(self).avail@,
            final(self).priorities@ == old(self).priorities@,
            ok ==> {
                &&& final(self).blocks@[piece as int] == old(self).blocks@[piece as int]
                &&& final(self).fail_count == old(self).fail_count
                &&& final(c)@.cur == old(c)@.cur.update(
                    Metrics::ses_num_piece_passed.index_spec() as int,
                    saturating_add_i64(
                        old(c)@.cur[Metrics::ses_num_piece_passed.index_spec() as int],
                        1,
                    ),
                )
            },
            !ok ==> {
                &&& forall|b: int| 0 <= b < old(self).blocks_in(piece as int)
                    ==> final(self).state_of(piece as int, b) == BlockState::Empty
                        && final(self).requesters_of(piece as int, b).len() == 0
                &&& final(self).fail_count == old(self).fail_count + 1
                &&& final(c)@.cur == old(c)@.cur.update(
                    Metrics::ses_num_piece_failed.index_spec() as int,
                    saturating_add_i64(
                        old(c)@.cur[Metrics::ses_num_piece_failed.index_spec() as int],
                        1,
                    ),
                )
            },
            final(c)@.prev == old(c)@.prev,
            final(c)@.prev_timestamp == old(c)@.prev_timestamp,
    {
        if ok {
            self.have[piece] = true;
            c.inc(Metrics::ses_num_piece_passed, 1);
            proof {
                let ns = *self;
                let os = *old(self);
                assert forall|q: int| 0 <= q < ns.num_pieces() && ns.piece_have(q)
                    implies ns.all_blocks_finished(q) by {
                    assert(ns.blocks@[q] == os.blocks@[q]);
                    if q != piece as int {
                        assert(os.piece_have(q));
                    }
                    assert(os.all_blocks_finished(q));
                    assert forall|b2: int| 0 <= b2 < ns.blocks_in(q)
                        implies ns.state_of(q, b2) == BlockState::Finished by {
                        assert(os.state_of(q, b2) == ns.state_of(q, b2));
                    }
                }
            }
        } else {
            self.have[piece] = false;
            let row = &mut self.blocks[piece];
            let n = row.len();
            let mut b: usize = 0;
            while b < n
                invariant
                    b <= n,
                    row@.len() == n,
                    forall|c2: int| 0 <= c2 < b
                        ==> row@[c2].state == BlockState::Empty
                            && row@[c2].requesters@.len() == 0,
                decreases n - b,
            {
                row[b] = Block { state: BlockState::Empty, requesters: Vec::new() };
                b = b + 1;
            }
            self.fail_count = self.fail_count + 1;
            c.inc(Metrics::ses_num_piece_failed, 1);
            proof {
                let ns = *self;
                let os = *old(self);
                assert(ns.have@ =~= os.have@.update(piece as int, false));
                assert forall|q: int| 0 <= q < ns.num_pieces() && ns.piece_have(q)
                    implies ns.all_blocks_finished(q) by {
                    assert(q != piece as int);
                    assert(ns.blocks@[q] == os.blocks@[q]);
                    assert(os.piece_have(q));
                    assert(os.all_blocks_finished(q));
                    assert forall|b2: int| 0 <= b2 < ns.blocks_in(q)
                        implies ns.state_of(q, b2) == BlockState::Finished by {
                        assert(os.state_of(q, b2) == ns.state_of(q, b2));
                    }
                }
            }
        }
    }
}

/// Well-formedness carries over whenever the block grid and the "have"
/// bitmap are untouched.
pub proof fn lemma_wf_preserved_blocks_have(os: PieceBlockTracker, ns: PieceBlockTracker)
    requires
        os.wf(),
        ns.blocks@ == os.blocks@,
        ns.have@ == os.have@,
        ns.avail@.len() == os.avail@.len(),
        ns.priorities@.len() == os.priorities@.len(),
    ensures
        ns.wf(),
{
    assert forall|p: int| 0 <= p < ns.num_pieces() && ns.piece_have(p)
        implies ns.all_blocks_finished(p) by {
        assert(os.piece_have(p));
        assert(os.all_blocks_finished(p));
        assert forall|b: int| 0 <= b < ns.blocks_in(p)
            implies ns.state_of(p, b) == BlockState::Finished by {
            assert(os.state_of(p, b) == ns.state_of(p, b));
        }
    }
}

/// What one block looks like after a peer has been released from it: the
/// peer leaves the requester list, and a block whose only outstanding
/// requester was that peer goes back to unrequested.
pub open spec fn block_released(ob: Block, nb: Block, peer: u64) -> bool {
    &&& (!ob.requesters@.contains(peer) ==> nb == ob)
    &&& (ob.requesters@.contains(peer) ==> {
        &&& nb.requesters@ == seq_remove_all(ob.requesters@, peer)
        &&& nb.state == (if (ob.state == BlockState::Requested || ob.state == BlockState::Writing)
            && sole_requester(ob.requesters@, peer) {
            BlockState::Empty
        } else {
            ob.state
        })
    })
}

/// Releases `peer` from every block of one piece's row.
fn release_peer_in_row(row: &mut Vec<Block>, peer: u64)
    ensures
        final(row)@.len() == old(row)@.len(),
        forall|b: int| 0 <= b < old(row)@.len()
            ==> block_released(old(row)@[b], #[trigger] final(row)@[b], peer),
{
    let n = row.len();
    let mut b: usize = 0;
    while b < n
        invariant
            b <= n,
            row@.len() == n,
            n == old(row)@.len(),
            forall|c: int| b <= c < n ==> row@[c] == old(row)@[c],
            forall|c: int| 0 <= c < b ==> block_released(old(row)@[c], #[trigger] row@[c], peer),
        decreases n - b,
    {
        if requesters_contain(&row[b].requesters, peer) {
            let ghost ob = row@[b as int];
            let nr = remove_peer(&row[b].requesters, peer);
            let released = nr.len() == 0;
            let cell = &mut row[b];
            let was_inflight = cell.state == BlockState::Requested
                || cell.state == BlockState::Writing;
            cell.requesters = nr;
            if was_inflight && released {
                cell.state = BlockState::Empty;
            }
            proof {
                lemma_seq_remove_all_empty(ob.requesters@, peer);
                assert(block_released(ob, row@[b as int], peer));
            }
        }
        b = b + 1;
    }
}

impl PieceBlockTracker {
    /// Releases every block the closing peer was downloading.
    ///
    /// Every block whose only outstanding requester was that peer — whether
    /// still requested or already queued for writing — goes back to
    /// unrequested so other peers may pick it up; a block also requested
    /// from other peers keeps its state and only loses this peer from its
    /// requester list; and a block the peer was not involved in is exactly
    /// as it was. Nothing else of the tracker moves.
    pub fn on_peer_closed(&mut self, peer: u64)
        requires
            old(self).wf(),
        ensures
            final(self).wf(),
            final(self).num_pieces() == old(self).num_pieces(),
            final(self).same_dims(*old(self)),
            final(self).only_blocks_changed(*old(self)),
            forall|p: int, b: int|
                0 <= p < old(self).num_pieces() && 0 <= b < old(self).blocks_in(p)
                    ==> block_released(
                        old(self).block_at(p, b),
                        #[trigger] final(self).block_at(p, b),
                        peer,
                    ),
    {
        let n = self.blocks.len();
        let mut p: usize = 0;
        while p < n
            invariant
                p <= n,
                self.blocks@.len() == n,
                n == old(self).blocks@.len(),
                self.have@ == old(self).have@,
                self.avail@ == old(self).avail@,
                self.priorities@ == old(self).priorities@,
                self.fail_count == old(self).fail_count,
                forall|q: int| p <= q < n ==> self.blocks@[q] == old(self).blocks@[q],
                forall|q: int| 0 <= q < p
                    ==> #[trigger] self.blocks@[q]@.len() == old(self).blocks@[q]@.len(),
                forall|q: int, b: int| 0 <= q < p && 0 <= b < old(self).blocks_in(q)
                    ==> block_released(
                        old(self).block_at(q, b),
                        #[trigger] self.block_at(q, b),
                        peer,
                    ),
            decreases n - p,
        {
            let ghost pre = *self;
            let row = &mut self.blocks[p];
            release_peer_in_row(row, peer);
            proof {
                assert(pre.blocks@[p as int] == old(self).blocks@[p as int]);
                assert forall|q: int| 0 <= q < n && q != p
                    implies self.blocks@[q] == pre.blocks@[q] by {}
                assert forall|q: int, b: int| 0 <= q < p + 1 && 0 <= b < old(self).blocks_in(q)
                    implies block_released(
                        old(self).block_at(q, b),
                        #[trigger] self.block_at(q, b),
                        peer,
                    ) by {
                    if q == p as int {
                        assert(self.block_at(q, b) == self.blocks@[p as int]@[b]);
                    } else {
                        assert(self.block_at(q, b) == pre.block_at(q, b));
                        assert(block_released(old(self).block_at(q, b), pre.block_at(q, b), peer));
                    }
                }
            }
            p = p + 1;
        }
        proof {
            let ns = *self;
            let os = *old(self);
            assert forall|q: int| 0 <= q < ns.num_pieces() && ns.piece_have(q)
                implies ns.all_blocks_finished(q) by {
                assert(os.piece_have(q));
                assert(os.all_blocks_finished(q));
                assert forall|b2: int| 0 <= b2 < ns.blocks_in(q)
                    implies ns.state_of(q, b2) == BlockState::Finished by {
                    assert(block_released(os.block_at(q, b2), ns.block_at(q, b2), peer));
                    assert(os.state_of(q, b2) == BlockState::Finished);
                }
            }
        }
    }

    /// Records a request of one block from one peer.
    ///
    /// Succeeds exactly when the indices are in range, the piece is not yet
    /// verified, and either the block is unrequested, or endgame duplicates
    /// are allowed, the block is in the requested state, and this peer is not
    /// already among its requesters. On success the block is requested and
    /// the peer joins the end of its requester list; nothing else moves. On
    /// failure nothing changes.
    pub fn request_block(&mut self, piece: usize, block: usize, peer: u64, endgame: bool) -> (r:
        Result<(), EngineError>)
        requires
            old(self).wf(),
        ensures
            final(self).wf(),
            match r {
                Ok(()) => {
                    &&& piece < old(self).num_pieces()
                    &&& block < old(self).blocks_in(piece as int)
                    &&& !old(self).piece_have(piece as int)
                    &&& (old(self).state_of(piece as int, block as int) == BlockState::Empty
                        || (endgame
                            && old(self).state_of(piece as int, block as int)
                                == BlockState::Requested
                            && !old(self).requesters_of(piece as int, block as int).contains(peer)))
                    &&& final(self).state_of(piece as int, block as int) == BlockState::Requested
                    &&& final(self).requesters_of(piece as int, block as int)
                        == old(self).requesters_of(piece as int, block as int).push(peer)
                    &&& final(self).blocks_in(piece as int) == old(self).blocks_in(piece as int)
                    &&& forall|b: int| 0 <= b < old(self).blocks_in(piece as int) && b != block
                        ==> final(self).block_at(piece as int, b)
                            == old(self).block_at(piece as int, b)
                    &&& final(self).other_pieces_unchanged(*old(self), piece as int)
                    &&& final(self).only_blocks_changed(*old(self))
                    &&& final(self).num_pieces() == old(self).num_pieces()
                },
                Err(e) => {
                    &&& *final(self) == *old(self)
                    &&& (e == EngineError::InvalidIndex <==> (piece >= old(self).num_pieces()
                        || block >= old(self).blocks_in(piece as int)))
                },
            },
            r is Ok <==> (piece < old(self).num_pieces()
                && block < old(self).blocks_in(piece as int)
                && !old(self).piece_have(piece as int)
                && (old(self).state_of(piece as int, block as int) == BlockState::Empty
                    || (endgame
                        && old(self).state_of(piece as int, block as int) == BlockState::Requested
                        && !old(self).requesters_of(piece as int, block as int).contains(peer)))),
    {
        if piece >= self.blocks.len() {
            return Err(EngineError::InvalidIndex);
        }
        if block >= self.blocks[piece].len() {
            return Err(EngineError::InvalidIndex);
        }
        if self.have[piece] {
            return Err(EngineError::InvalidTransition);
        }
        let state = self.blocks[piece][block].state;
        let allowed = if state == BlockState::Empty {
            true
        } else if endgame && state == BlockState::Requested {
            !requesters_contain(&self.blocks[piece][block].requesters, peer)
        } else {
            false
        };
        if !allowed {
            return Err(EngineError::InvalidTransition);
        }
        let row = &mut self.blocks[piece];
        let cell = &mut row[block];
        cell.state = BlockState::Requested;
        cell.requesters.push(peer);
        proof {
            let ns = *self;
            let os = *old(self);
            assert forall|q: int| 0 <= q < ns.num_pieces() && ns.piece_have(q)
                implies ns.all_blocks_finished(q) by {
                assert(q != piece as int);
                assert(ns.blocks@[q] == os.blocks@[q]);
                assert(os.piece_have(q));
                assert(os.all_blocks_finished(q));
                assert forall|b2: int| 0 <= b2 < ns.blocks_in(q)
                    implies ns.state_of(q, b2) == BlockState::Finished by {
                    assert(os.state_of(q, b2) == ns.state_of(q, b2));
                }
            }
        }
        Ok(())
    }
}

/// How the tracker classified one arriving block of payload.
#[derive(Clone, Copy, Debug, PartialEq, Eq, Structural)]
pub enum ArrivalOutcome {
    /// The block was outstanding to this peer and is now queued for writing.
    Accepted,
    /// The block is already being written or has been written: a slower
    /// duplicate of an endgame race, discarded and counted as wasted.
    RedundantEndgame,
    /// The block was not outstanding to this peer at all; discarded.
    Unsolicited,
}

impl PieceBlockTracker {
    /// Classifies a block of payload arriving from `peer` and advances the
    /// block's state.
    ///
    /// A block outstanding to that peer moves to the writing state with the
    /// peer as its only holder — the racing duplicates of endgame are
    /// cancelled — and one incoming-piece message is counted. A block already
    /// writing or written leaves the state untouched: the arrival is the
    /// loser of an endgame race and one endgame-waste count is added, so the
    /// same block is never written twice. A block not outstanding to the peer
    /// leaves the state untouched and one unknown-waste count is added.
    pub fn on_block_arrival(
        &mut self,
        piece: usize,
        block: usize,
        peer: u64,
        c: &mut CountersAggregator,
    ) -> (r: ArrivalOutcome)
        requires
            old(self).wf(),
            old(c).wf(),
            piece < old(self).num_pieces(),
            block < old(self).blocks_in(piece as int),
        ensures
            final(self).wf(),
            final(c).wf(),
            final(self).num_pieces() == old(self).num_pieces(),
            final(self).blocks_in(piece as int) == old(self).blocks_in(piece as int),
            final(self).other_pieces_unchanged(*old(self), piece as int),
            final(self).only_blocks_changed(*old(self)),
            forall|b: int| 0 <= b < old(self).blocks_in(piece as int) && b != block
                ==> final(self).block_at(piece as int, b) == old(self).block_at(piece as int, b),
            r == (if old(self).state_of(piece as int, block as int) == BlockState::Requested
                && old(self).requesters_of(piece as int, block as int).contains(peer) {
                ArrivalOutcome::Accepted
            } else if old(self).state_of(piece as int, block as int) == BlockState::Writing
                || old(self).state_of(piece as int, block as int) == BlockState::Finished {
                ArrivalOutcome::RedundantEndgame
            } else {
                ArrivalOutcome::Unsolicited
            }),
            r == ArrivalOutcome::Accepted ==> {
                &&& final(self).state_of(piece as int, block as int) == BlockState::Writing
                &&& final(self).requesters_of(piece as int, block as int) == seq![peer]
                &&& final(c)@.cur == old(c)@.cur.update(
                    Metrics::ses_num_incoming_piece.index_spec() as int,
                    saturating_add_i64(
                        old(c)@.cur[Metrics::ses_num_incoming_piece.index_spec() as int],
                        1,
                    ),
                )
            },
            r == ArrivalOutcome::RedundantEndgame ==> {
                &&& final(self).block_at(piece as int, block as int)
                    == old(self).block_at(piece as int, block as int)
                &&& final(c)@.cur == old(c)@.cur.update(
                    Metrics::ses_waste_piece_end_game.index_spec() as int,
                    saturating_add_i64(
                        old(c)@.cur[Metrics::ses_waste_piece_end_game.index_spec() as int],
                        1,
                    ),
                )
            },
            r == ArrivalOutcome::Unsolicited ==> {
                &&& final(self).block_at(piece as int, block as int)
                    == old(self).block_at(piece as int, block as int)
                &&& final(c)@.cur == old(c)@.cur.update(
                    Metrics::ses_waste_piece_unknown.index_spec() as int,
                    saturating_add_i64(
                        old(c)@.cur[Metrics::ses_waste_piece_unknown.index_spec() as int],
                        1,
                    ),
                )
            },
            final(c)@.prev == old(c)@.prev,
            final(c)@.prev_timestamp == old(c)@.prev_timestamp,
    {
        let state = self.blocks[piece][block].state;
        if state == BlockState::Requested
            && requesters_contain(&self.blocks[piece][block].requesters, peer) {
            let mut only: Vec<u64> = Vec::new();
            only.push(peer);
            let row = &mut self.blocks[piece];
            let cell = &mut row[block];
            cell.state = BlockState::Writing;
            cell.requesters = only;
            c.inc(Metrics::ses_num_incoming_piece, 1);
            proof {
                let ns = *self;
                let os = *old(self);
                assert(ns.requesters_of(piece as int, block as int) =~= seq![peer]);
                assert forall|q: int| 0 <= q < ns.num_pieces() && ns.piece_have(q)
                    implies ns.all_blocks_finished(q) by {
                    assert(os.piece_have(q));
                    assert(os.all_blocks_finished(q));
                    if q == piece as int {
                        assert(os.state_of(piece as int, block as int) == BlockState::Finished);
                        assert(false);
                    }
                    assert(ns.blocks@[q] == os.blocks@[q]);
                    assert forall|b2: int| 0 <= b2 < ns.blocks_in(q)
                        implies ns.state_of(q, b2) == BlockState::Finished by {
                        assert(os.state_of(q, b2) == ns.state_of(q, b2));
                    }
                }
            }
            ArrivalOutcome::Accepted
        } else if state == BlockState::Writing || state == BlockState::Finished {
            c.inc(Metrics::ses_waste_piece_end_game, 1);
            ArrivalOutcome::RedundantEndgame
        } else {
            c.inc(Metrics::ses_waste_piece_unknown, 1);
            ArrivalOutcome::Unsolicited
        }
    }

    /// Completes the disk write of one block: the block moves from writing
    /// to written and one written-block count is added. Fails exactly where
    /// the underlying transition is refused, and then changes nothing.
    pub fn on_write_complete(&mut self, piece: usize, block: usize, c: &mut CountersAggregator)
        -> (r: Result<(), EngineError>)
        requires
            old(self).wf(),
            old(c).wf(),
        ensures
            final(self).wf(),
            final(c).wf(),
            r is Ok <==> (piece < old(self).num_pieces()
                && block < old(self).blocks_in(piece as int)
                && !old(self).piece_have(piece as int)
                && old(self).state_of(piece as int, block as int) == BlockState::Writing),
            r is Ok ==> {
                &&& final(self).state_of(piece as int, block as int) == BlockState::Finished
                &&& final(self).requesters_of(piece as int, block as int).len() == 0
                &&& final(self).blocks_in(piece as int) == old(self).blocks_in(piece as int)
                &&& forall|b: int| 0 <= b < old(self).blocks_in(piece as int) && b != block
                    ==> final(self).block_at(piece as int, b)
                        == old(self).block_at(piece as int, b)
                &&& final(self).other_pieces_unchanged(*old(self), piece as int)
                &&& final(self).only_blocks_changed(*old(self))
                &&& final(self).num_pieces() == old(self).num_pieces()
                &&& final(c)@.cur == old(c)@.cur.update(
                    Metrics::disk_num_blocks_written.index_spec() as int,
                    saturating_add_i64(
                        old(c)@.cur[Metrics::disk_num_blocks_written.index_spec() as int],
                        1,
                    ),
                )
            },
            r is Err ==> *final(self) == *old(self) && final(c)@ == old(c)@,
            final(c)@.prev == old(c)@.prev,
            final(c)@.prev_timestamp == old(c)@.prev_timestamp,
    {
        let res = self.mark_block(piece, block, BlockState::Finished);
        match res {
            Ok(()) => {
                c.inc(Metrics::disk_num_blocks_written, 1);
                Ok(())
            },
            Err(e) => Err(e),
        }
    }

    /// Records that a connected peer holds piece `piece`.
    pub fn peer_has_piece(&mut self, piece: usize)
        requires
            old(self).wf(),
            piece < old(self).num_pieces(),
            old(self).avail@[piece as int] < u32::MAX,
        ensures
            final(self).wf(),
            final(self).avail@ == old(self).avail@.update(
                piece as int,
                (old(self).avail@[piece as int] + 1) as u32,
            ),
            final(self).blocks@ == old(self).blocks@,
            final(self).have@ == old(self).have@,
            final(self).priorities@ == old(self).priorities@,
            final(self).fail_count == old(self).fail_count,
    {
        let v = self.avail[piece];
        self.avail[piece] = v + 1;
        proof {
            lemma_wf_preserved_blocks_have(*old(self), *self);
        }
    }

    /// Records that a peer holding piece `piece` went away.
    pub fn peer_lost_piece(&mut self, piece: usize)
        requires
            old(self).wf(),
            piece < old(self).num_pieces(),
            old(self).avail@[piece as int] > 0,
        ensures
            final(self).wf(),
            final(self).avail@ == old(self).avail@.update(
                piece as int,
                (old(self).avail@[piece as int] - 1) as u32,
            ),
            final(self).blocks@ == old(self).blocks@,
            final(self).have@ == old(self).have@,
            final(self).priorities@ == old(self).priorities@,
            final(self).fail_count == old(self).fail_count,
    {
        let v = self.avail[piece];
        self.avail[piece] = v - 1;
        proof {
            lemma_wf_preserved_blocks_have(*old(self), *self);
        }
    }

    /// The number of connected peers known to hold piece `piece`.
    pub fn availability(&self, piece: usize) -> (r: u32)
        requires
            self.wf(),
            piece < self.num_pieces(),
        ensures
            r == self.avail@[piece as int],
    {
        self.avail[piece]
    }

    /// Sets the download priority of one piece. Succeeds exactly when the
    /// index is in range and the code is an accepted priority.
    pub fn set_piece_priority(&mut self, piece: usize, priority: u8) -> (r: Result<
        (),
        EngineError,
    >)
        requires
            old(self).wf(),
        ensures
            final(self).wf(),
            r is Ok <==> (piece < old(self).num_pieces()
                && crate::download_priority::valid_priority_code(priority)),
            r is Ok ==> final(self).priorities@ == old(self).priorities@.update(
                piece as int,
                priority,
            ) && final(self).blocks@ == old(self).blocks@ && final(self).have@ == old(self).have@
                && final(self).avail@ == old(self).avail@ && final(self).fail_count == old(
                self,
            ).fail_count,
            r is Err ==> *final(self) == *old(self),
            r is Err ==> (r == Result::<(), EngineError>::Err(EngineError::InvalidIndex) <==> piece
                >= old(self).num_pieces()),
    {
        if piece >= self.priorities.len() {
            return Err(EngineError::InvalidIndex);
        }
        if !(priority == 0 || priority == 1 || priority == 4 || priority == 7) {
            return Err(EngineError::InvalidPriority);
        }
        self.priorities[piece] = priority;
        proof {
            lemma_wf_preserved_blocks_have(*old(self), *self);
        }
        Ok(())
    }

    /// The download priority of one piece.
    pub fn piece_priority(&self, piece: usize) -> (r: u8)
        requires
            self.wf(),
            piece < self.num_pieces(),
        ensures
            r == self.priority_of(piece as int),
    {
        self.priorities[piece]
    }
}

/// True when `v` holds `x`.
pub fn requesters_contain(v: &Vec<u64>, x: u64) -> (r: bool)
    ensures
        r == v@.contains(x),
{
    let mut i: usize = 0;
    while i < v.len()
        invariant
            i <= v@.len(),
            forall|j: int| 0 <= j < i ==> v@[j] != x,
        decreases v@.len() - i,
    {
        if v[i] == x {
            return true;
        }
        i = i + 1;
    }
    false
}

} // verus!

use vstd::prelude::*;

verus! {

/// `x` clamped into the `usize` range from above (inputs are never negative).
pub open spec fn cap_usize(x: int) -> int {
    if x > usize::MAX {
        usize::MAX as int
    } else {
        x
    }
}

/// Saturating addition on `usize`.
fn sat_add_usize(a: usize, b: usize) -> (r: usize)
    ensures
        r as int == cap_usize(a + b),
{
    if a <= usize::MAX - b {
        a + b
    } else {
        usize::MAX
    }
}

/// The outstanding requests of one piece's row: over the blocks in the
/// requested state, the number of peers each is outstanding to.
pub open spec fn row_outstanding(row: Seq<Block>) -> int
    decreases row.len(),
{
    if row.len() == 0 {
        0
    } else {
        row_outstanding(row.drop_last()) + (if row.last().state == BlockState::Requested {
            row.last().requesters@.len() as int
        } else {
            0
        })
    }
}

/// The not-yet-written blocks of one piece's row.
pub open spec fn row_unfinished(row: Seq<Block>) -> int
    decreases row.len(),
{
    if row.len() == 0 {
        0
    } else {
        row_unfinished(row.drop_last()) + (if row.last().state == BlockState::Finished {
            0int
        } else {
            1int
        })
    }
}

/// Row counts never go negative.
pub proof fn lemma_row_counts_nonneg(row: Seq<Block>)
    ensures
        row_outstanding(row) >= 0,
        row_unfinished(row) >= 0,
    decreases row.len(),
{
    if row.len() > 0 {
        lemma_row_counts_nonneg(row.drop_last());
    }
}

impl PieceBlockTracker {
    /// The outstanding requests of the pieces below `p`.
    pub open spec fn outstanding_upto(self, p: int) -> int
        decreases p,
    {
        if p <= 0 {
            0
        } else {
            self.outstanding_upto(p - 1) + row_outstanding(self.blocks@[p - 1]@)
        }
    }

    /// The outstanding requests of the whole torrent: every (block, peer)
    /// pair with a request in flight.
    pub open spec fn outstanding_requests(self) -> int {
        self.outstanding_upto(self.num_pieces())
    }

    /// The unfinished blocks of the wanted pieces below `p`.
    pub open spec fn unfinished_upto(self, p: int) -> int
        decreases p,
    {
        if p <= 0 {
            0
        } else {
            self.unfinished_upto(p - 1) + (if self.piece_wanted(p - 1) {
                row_unfinished(self.blocks@[p - 1]@)
            } else {
                0
            })
        }
    }

    /// The blocks still to download: not-yet-written blocks of wanted,
    /// not-yet-verified pieces.
    pub open spec fn remaining_unfinished_blocks(self) -> int {
        self.unfinished_upto(self.num_pieces())
    }

    /// Prefix counts never go negative.
    pub proof fn lemma_upto_nonneg(self, p: int)
        ensures
            self.outstanding_upto(p) >= 0,
            self.unfinished_upto(p) >= 0,
        decreases p,
    {
        if p > 0 {
            self.lemma_upto_nonneg(p - 1);
            lemma_row_counts_nonneg(self.blocks@[p - 1]@);
        }
    }

    /// Counts the outstanding requests, clamped at the top of the `usize`
    /// range.
    pub fn count_outstanding_requests(&self) -> (r: usize)
        requires
            self.wf(),
        ensures
            r as int == cap_usize(self.outstanding_requests()),
    {
        let mut acc: usize = 0;
        let mut p: usize = 0;
        let n = self.blocks.len();
        while p < n
            invariant
                p <= n,
                n == self.blocks@.len(),
                self.wf(),
                acc as int == cap_usize(self.outstanding_upto(p as int)),
            decreases n - p,
        {
            let row = &self.blocks[p];
            let mut racc: usize = 0;
            let mut b: usize = 0;
            while b < row.len()
                invariant
                    b <= row@.len(),
                    racc as int == cap_usize(row_outstanding(row@.subrange(0, b as int))),
                decreases row@.len() - b,
            {
                proof {
                    assert(row@.subrange(0, b + 1 as int).drop_last() =~= row@.subrange(
                        0,
                        b as int,
                    ));
                    assert(row@.subrange(0, b + 1 as int).last() == row@[b as int]);
                    lemma_row_counts_nonneg(row@.subrange(0, b as int));
                }
                if row[b].state == BlockState::Requested {
                    racc = sat_add_usize(racc, row[b].requesters.len());
                } else {
                    racc = sat_add_usize(racc, 0);
                }
                b = b + 1;
            }
            proof {
                assert(row@.subrange(0, row@.len() as int) =~= row@);
                self.lemma_upto_nonneg(p as int);
                lemma_row_counts_nonneg(row@);
            }
            acc = sat_add_usize(acc, racc);
            proof {
                assert(self.outstanding_upto(p + 1 as int) == self.outstanding_upto(p as int)
                    + row_outstanding(self.blocks@[p as int]@));
                if self.outstanding_upto(p as int) > usize::MAX
                    || row_outstanding(row@) > usize::MAX {
                    assert(acc as int == cap_usize(self.outstanding_upto(p + 1 as int)));
                }
            }
            p = p + 1;
        }
        acc
    }

    /// Counts the blocks still to download, clamped at the top of the
    /// `usize` range.
    pub fn count_remaining_unfinished_blocks(&self) -> (r: usize)
        requires
            self.wf(),
        ensures
            r as int == cap_usize(self.remaining_unfinished_blocks()),
    {
        let mut acc: usize = 0;
        let mut p: usize = 0;
        let n = self.blocks.len();
        while p < n
            invariant
                p <= n,
                n == self.blocks@.len(),
                self.wf(),
                acc as int == cap_usize(self.unfinished_upto(p as int)),
            decreases n - p,
        {
            let wanted = self.priorities[p] != 0 && !self.have[p];
            if wanted {
                let row = &self.blocks[p];
                let mut racc: usize = 0;
                let mut b: usize = 0;
                while b < row.len()
                    invariant
                        b <= row@.len(),
                        racc as int == row_unfinished(row@.subrange(0, b as int)),
                        racc <= b,
                    decreases row@.len() - b,
                {
                    proof {
                        assert(row@.subrange(0, b + 1 as int).drop_last() =~= row@.subrange(
                            0,
                            b as int,
                        ));
                        assert(row@.subrange(0, b + 1 as int).last() == row@[b as int]);
                    }
                    if row[b].state != BlockState::Finished {
                        racc = racc + 1;
                    }
                    b = b + 1;
                }
                proof {
                    assert(row@.subrange(0, row@.len() as int) =~= row@);
                    self.lemma_upto_nonneg(p as int);
                    lemma_row_counts_nonneg(row@);
                }
                acc = sat_add_usize(acc, racc);
            } else {
                proof {
                    self.lemma_upto_nonneg(p as int);
                }
            }
            proof {
                assert(self.unfinished_upto(p + 1 as int) == self.unfinished_upto(p as int) + (
                if self.piece_wanted(p as int) {
                    row_unfinished(self.blocks@[p as int]@)
                } else {
                    0int
                }));
            }
            p = p + 1;
        }
        acc
    }

    /// True when the torrent is in endgame: more requests are in flight than
    /// blocks are left to download, so duplicate in-flight requests for the
    /// same block become worthwhile.
    pub fn in_endgame(&self) -> (r: bool)
        requires
            self.wf(),
        ensures
            r == (cap_usize(self.outstanding_requests())
                > cap_usize(self.remaining_unfinished_blocks())),
            (self.outstanding_requests() <= usize::MAX
                && self.remaining_unfinished_blocks() <= usize::MAX) ==> r == (
            self.outstanding_requests() > self.remaining_unfinished_blocks()),
    {
        let outstanding = self.count_outstanding_requests();
        let remaining = self.count_remaining_unfinished_blocks();
        outstanding > remaining
    }
}

} // verus!

verus! {

/// A weaker release relation, closed under releasing several peers in turn:
/// a block's state either stays or falls back to unrequested, and no peer
/// joins its requester list.
pub open spec fn block_weakened(ob: Block, nb: Block) -> bool {
    &&& (nb.state == ob.state || nb.state == BlockState::Empty)
    &&& forall|x: u64| nb.requesters@.contains(x) ==> ob.requesters@.contains(x)
}

/// Releasing one peer only weakens a block.
pub proof fn lemma_released_weakens(ob: Block, nb: Block, peer: u64)
    requires
        block_released(ob, nb, peer),
    ensures
        block_weakened(ob, nb),
{
    if ob.requesters@.contains(peer) {
        assert forall|x: u64| nb.requesters@.contains(x) implies ob.requesters@.contains(x) by {
            lemma_seq_remove_all_contains(ob.requesters@, peer, x);
        }
    }
}

impl PieceBlockTracker {
    /// Every wanted piece has been verified.
    pub open spec fn all_wanted_done(self) -> bool {
        forall|p: int| 0 <= p < self.num_pieces() && self.priority_of(p) != 0
            ==> self.piece_have(p)
    }

    /// Every piece has been verified.
    pub open spec fn all_done(self) -> bool {
        forall|p: int| 0 <= p < self.num_pieces() ==> self.piece_have(p)
    }

    /// True when every wanted piece has been verified.
    pub fn check_all_wanted_done(&self) -> (r: bool)
        requires
            self.wf(),
        ensures
            r == self.all_wanted_done(),
    {
        let mut p: usize = 0;
        let n = self.have.len();
        proof {
            assert(n == self.num_pieces());
        }
        while p < n
            invariant
                p <= n,
                n == self.num_pieces(),
                self.wf(),
                forall|q: int| 0 <= q < p && self.priority_of(q) != 0 ==> self.piece_have(q),
            decreases n - p,
        {
            if self.priorities[p] != 0 && !self.have[p] {
                proof {
                    assert(self.priority_of(p as int) != 0 && !self.piece_have(p as int));
                }
                return false;
            }
            p = p + 1;
        }
        true
    }

    /// True when every piece has been verified.
    pub fn check_all_done(&self) -> (r: bool)
        requires
            self.wf(),
        ensures
            r == self.all_done(),
    {
        let mut p: usize = 0;
        let n = self.have.len();
        proof {
            assert(n == self.num_pieces());
        }
        while p < n
            invariant
                p <= n,
                n == self.num_pieces(),
                self.wf(),
                forall|q: int| 0 <= q < p ==> self.piece_have(q),
            decreases n - p,
        {
            if !self.have[p] {
                proof {
                    assert(!self.piece_have(p as int));
                }
                return false;
            }
            p = p + 1;
        }
        true
    }
}

} // verus!

verus! {

/// Law: the written state is reachable only through the writing state. A
/// transition into `Finished` is accepted only from `Writing`; in
/// particular, no block ever moves from unrequested straight to written —
/// `mark_block` refuses such a transition and leaves every block unchanged.
pub proof fn lemma_finished_only_via_writing(from: BlockState, to: BlockState)
    ensures
        transition_ok(from, to) && to == BlockState::Finished ==> from == BlockState::Writing,
        from == BlockState::Empty ==> !transition_ok(from, BlockState::Finished),
{
}

/// Law: closing a peer releases exactly its blocks. A block that was
/// requested from, or being written for, the closing peer alone goes back
/// to unrequested with no requesters left, so no orphaned in-flight block
/// survives peer loss; and a block the peer was not involved in is exactly
/// as it was — no other peer's blocks are touched.
pub proof fn lemma_peer_close_releases_blocks(ob: Block, nb: Block, peer: u64)
    requires
        block_released(ob, nb, peer),
    ensures
        (ob.state == BlockState::Requested || ob.state == BlockState::Writing)
            && ob.requesters@.contains(peer) && sole_requester(ob.requesters@, peer) ==> (nb.state
            == BlockState::Empty && nb.requesters@.len() == 0),
        !ob.requesters@.contains(peer) ==> nb == ob,
{
    if ob.requesters@.contains(peer) && sole_requester(ob.requesters@, peer) {
        lemma_seq_remove_all_empty(ob.requesters@, peer);
    }
}

} // verus!
