//! Snapshots of pieces with outstanding requests or writes.

use vstd::prelude::*;

use crate::piece_tracker::Block;
use crate::piece_tracker::BlockState;
use crate::piece_tracker::PieceBlockTracker;

verus! {

/// The stable numeric code of a block state.
pub open spec fn block_state_code(s: BlockState) -> u8 {
    match s {
        BlockState::Empty => 0,
        BlockState::Requested => 1,
        BlockState::Writing => 2,
        BlockState::Finished => 3,
    }
}

/// Returns the stable numeric code of a block state.
pub fn block_state_to_code(s: BlockState) -> (r: u8)
    ensures
        r == block_state_code(s),
{
    match s {
        BlockState::Empty => 0,
        BlockState::Requested => 1,
        BlockState::Writing => 2,
        BlockState::Finished => 3,
    }
}

/// `x` clamped into the `u32` range from above.
pub open spec fn cap_u32(x: int) -> int {
    if x > u32::MAX {
        u32::MAX as int
    } else {
        x
    }
}

/// How many blocks of `row` are in state `st`.
pub open spec fn row_count_state(row: Seq<Block>, st: BlockState) -> int
    decreases row.len(),
{
    if row.len() == 0 {
        0
    } else {
        row_count_state(row.drop_last(), st) + (if row.last().state == st {
            1int
        } else {
            0int
        })
    }
}

/// The state count is between zero and the row length.
pub proof fn lemma_row_count_state_bounds(row: Seq<Block>, st: BlockState)
    ensures
        0 <= row_count_state(row, st) <= row.len(),
    decreases row.len(),
{
    if row.len() > 0 {
        lemma_row_count_state_bounds(row.drop_last(), st);
    }
}

/// The state of one block of a partial piece: who requested it and how far
/// along it is.
#[derive(Debug)]
pub struct BlockInfo {
    /// Bytes received for this block.
    pub bytes_progress: u32,
    /// The size of this block in bytes.
    pub block_size: u32,
    /// The block's state, as its stable numeric code.
    pub state: u8,
    /// How many peers are currently requesting this block; more than one
    /// only near the end of the torrent.
    pub num_peers: u32,
}

/// One piece with outstanding requests or writes, and its blocks.
#[derive(Debug)]
pub struct PartialPieceInfo {
    /// The index of the piece.
    pub piece_index: i32,
    /// How many blocks this piece has; the last piece may have fewer than
    /// the rest.
    pub blocks_in_piece: i32,
    /// How many of its blocks are finished, writing, and requested.
    pub finished: i32,
    pub writing: i32,
    pub requested: i32,
    /// One entry per block of the piece.
    pub blocks: Vec<BlockInfo>,
}

/// The download-queue snapshot: every open piece, with block detail.
#[derive(Debug)]
pub struct PieceInfo {
    pub partial_pieces: Vec<PartialPieceInfo>,
    pub blocks: Vec<BlockInfo>,
}

/// One entry of the snapshot correctly describes piece `p` of the tracker.
pub open spec fn entry_describes(t: PieceBlockTracker, e: PartialPieceInfo, p: int, block_size: u32) -> bool {
    &&& e.piece_index == p
    &&& e.blocks_in_piece == t.blocks_in(p)
    &&& e.finished == row_count_state(t.blocks@[p]@, BlockState::Finished)
    &&& e.writing == row_count_state(t.blocks@[p]@, BlockState::Writing)
    &&& e.requested == row_count_state(t.blocks@[p]@, BlockState::Requested)
    &&& e.blocks@.len() == t.blocks_in(p)
    &&& forall|b: int| 0 <= b < t.blocks_in(p) ==> {
        &&& (#[trigger] e.blocks@[b]).state == block_state_code(t.state_of(p, b))
        &&& e.blocks@[b].num_peers == cap_u32(t.requesters_of(p, b).len() as int)
        &&& e.blocks@[b].block_size == block_size
        &&& e.blocks@[b].bytes_progress == (if t.state_of(p, b) == BlockState::Writing
            || t.state_of(p, b) == BlockState::Finished {
            block_size
        } else {
            0
        })
    }
}

/// A piece belongs in the download-queue snapshot: not yet verified, and
/// some block of it has left the unrequested state.
pub open spec fn piece_open(t: PieceBlockTracker, p: int) -> bool {
    &&& 0 <= p < t.num_pieces()
    &&& !t.piece_have(p)
    &&& exists|b: int| 0 <= b < t.blocks_in(p) && t.state_of(p, b) != BlockState::Empty
}

/// The block detail of piece `p`.
fn blocks_of_piece(t: &PieceBlockTracker, p: usize, block_size: u32) -> (r: Vec<BlockInfo>)
    requires
        t.wf(),
        p < t.num_pieces(),
    ensures
        r@.len() == t.blocks_in(p as int),
        forall|b: int| 0 <= b < t.blocks_in(p as int) ==> {
            &&& (#[trigger] r@[b]).state == block_state_code(t.state_of(p as int, b))
            &&& r@[b].num_peers == cap_u32(t.requesters_of(p as int, b).len() as int)
            &&& r@[b].block_size == block_size
            &&& r@[b].bytes_progress == (if t.state_of(p as int, b) == BlockState::Writing
                || t.state_of(p as int, b) == BlockState::Finished {
                block_size
            } else {
                0
            })
        },
{
    let row = &t.blocks[p];
    let mut r: Vec<BlockInfo> = Vec::new();
    let mut b: usize = 0;
    while b < row.len()
        invariant
            b <= row@.len(),
            row@ == t.blocks@[p as int]@,
            p < t.num_pieces(),
            r@.len() == b,
            forall|c: int| 0 <= c < b ==> {
                &&& (#[trigger] r@[c]).state == block_state_code(t.state_of(p as int, c))
                &&& r@[c].num_peers == cap_u32(t.requesters_of(p as int, c).len() as int)
                &&& r@[c].block_size == block_size
                &&& r@[c].bytes_progress == (if t.state_of(p as int, c) == BlockState::Writing
                    || t.state_of(p as int, c) == BlockState::Finished {
                    block_size
                } else {
                    0
                })
            },
        decreases row@.len() - b,
    {
        let st = row[b].state;
        let np = row[b].requesters.len();
        let num_peers: u32 = if np > u32::MAX as usize {
            u32::MAX
        } else {
            np as u32
        };
        let done = st == BlockState::Writing || st == BlockState::Finished;
        r.push(
            BlockInfo {
                bytes_progress: if done {
                    block_size
                } else {
                    0
                },
                block_size,
                state: block_state_to_code(st),
                num_peers,
            },
        );
        b = b + 1;
    }
    r
}

/// Counts the blocks of piece `p` in state `st`.
fn count_state(t: &PieceBlockTracker, p: usize, st: BlockState) -> (r: usize)
    requires
        t.wf(),
        p < t.num_pieces(),
    ensures
        r as int == row_count_state(t.blocks@[p as int]@, st),
        r <= t.blocks_in(p as int),
{
    let row = &t.blocks[p];
    let mut r: usize = 0;
    let mut b: usize = 0;
    while b < row.len()
        invariant
            b <= row@.len(),
            row@ == t.blocks@[p as int]@,
            r as int == row_count_state(row@.subrange(0, b as int), st),
            r <= b,
        decreases row@.len() - b,
    {
        proof {
            assert(row@.subrange(0, b + 1 as int).drop_last() =~= row@.subrange(0, b as int));
            assert(row@.subrange(0, b + 1 as int).last() == row@[b as int]);
        }
        if row[b].state == st {
            r = r + 1;
        }
        b = b + 1;
    }
    proof {
        assert(row@.subrange(0, row@.len() as int) =~= row@);
    }
    r
}

/// The download-queue snapshot of a torrent: one entry per open piece — not
/// yet verified, with some block already requested, writing or written — in
/// ascending piece order, each with exact per-block detail.
pub fn piece_info_of(t: &PieceBlockTracker, block_size: u32) -> (r: PieceInfo)
    requires
        t.wf(),
        t.num_pieces() <= i32::MAX,
        forall|p: int| 0 <= p < t.num_pieces() ==> t.blocks_in(p) <= i32::MAX,
    ensures
        r.blocks@.len() == 0,
        forall|k: int| 0 <= k < r.partial_pieces@.len() ==> piece_open(
            *t,
            (#[trigger] r.partial_pieces@[k]).piece_index as int,
        ) && entry_describes(*t, r.partial_pieces@[k], r.partial_pieces@[k].piece_index as int, block_size),
        forall|k1: int, k2: int| 0 <= k1 < k2 < r.partial_pieces@.len()
            ==> (#[trigger] r.partial_pieces@[k1]).piece_index < (
            #[trigger] r.partial_pieces@[k2]).piece_index,
        forall|p: int| piece_open(*t, p) ==> exists|k: int|
            0 <= k < r.partial_pieces@.len() && (#[trigger] r.partial_pieces@[k]).piece_index == p,
{
    let n = t.blocks.len();
    let mut partial_pieces: Vec<PartialPieceInfo> = Vec::new();
    let mut p: usize = 0;
    while p < n
        invariant
            p <= n,
            n == t.num_pieces(),
            t.wf(),
            t.num_pieces() <= i32::MAX,
            forall|q: int| 0 <= q < t.num_pieces() ==> t.blocks_in(q) <= i32::MAX,
            forall|k: int| 0 <= k < partial_pieces@.len() ==> piece_open(
                *t,
                (#[trigger] partial_pieces@[k]).piece_index as int,
            ) && (#[trigger] partial_pieces@[k]).piece_index < p && entry_describes(
                *t,
                partial_pieces@[k],
                partial_pieces@[k].piece_index as int,
                block_size,
            ),
            forall|k1: int, k2: int| 0 <= k1 < k2 < partial_pieces@.len()
                ==> (#[trigger] partial_pieces@[k1]).piece_index < (
                #[trigger] partial_pieces@[k2]).piece_index,
            forall|q: int| 0 <= q < p && piece_open(*t, q) ==> exists|k: int|
                0 <= k < partial_pieces@.len() && (#[trigger] partial_pieces@[k]).piece_index == q,
        decreases n - p,
    {
        let open = !t.have[p] && crate::picker::piece_is_partial(t, p);
        if open {
            proof {
                lemma_row_count_state_bounds(t.blocks@[p as int]@, BlockState::Finished);
                lemma_row_count_state_bounds(t.blocks@[p as int]@, BlockState::Writing);
                lemma_row_count_state_bounds(t.blocks@[p as int]@, BlockState::Requested);
            }
            let blocks = blocks_of_piece(t, p, block_size);
            let entry = PartialPieceInfo {
                piece_index: p as i32,
                blocks_in_piece: blocks.len() as i32,
                finished: count_state(t, p, BlockState::Finished) as i32,
                writing: count_state(t, p, BlockState::Writing) as i32,
                requested: count_state(t, p, BlockState::Requested) as i32,
                blocks,
            };
            let ghost before = partial_pieces@;
            partial_pieces.push(entry);
            proof {
                assert(partial_pieces@[before.len() as int].piece_index == p as int);
                assert forall|q: int| 0 <= q < p + 1 && piece_open(*t, q) implies exists|k: int|
                    0 <= k < partial_pieces@.len() && (#[trigger] partial_pieces@[k]).piece_index
                        == q by {
                    if q == p as int {
                        assert(partial_pieces@[before.len() as int].piece_index == q);
                    } else {
                        let k = choose|k: int|
                            0 <= k < before.len() && (#[trigger] before[k]).piece_index == q;
                        assert(partial_pieces@[k] == before[k]);
                    }
                }
            }
        }
        p = p + 1;
    }
    PieceInfo { partial_pieces, blocks: Vec::new() }
}

} // verus!
