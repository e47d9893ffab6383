//! The piece picker: which block to request next from a peer.
//!
//! Policy order, first match wins: (1) in sequential mode the lowest-index
//! piece first; (2) pieces already partially downloaded, to keep the number
//! of open pieces small; (3) rarest first, weighted by availability; (4)
//! endgame — once fewer unfinished blocks remain than requests are
//! outstanding, a block already requested from one peer may be issued to a
//! second peer, racing them. Peers on parole are restricted to in-order
//! whole-piece assignment regardless of the global mode: only pieces no
//! other peer is downloading, lowest index first, and never an endgame
//! duplicate. Ties within a policy are broken by ascending piece index, and
//! within a piece by ascending block index, for determinism.

use vstd::prelude::*;

use crate::piece_tracker::BlockState;
use crate::piece_tracker::PieceBlockTracker;
use crate::piece_tracker::requesters_contain;

verus! {

/// Block `b` of piece `p` can be requested afresh.
pub open spec fn block_free(t: PieceBlockTracker, p: int, b: int) -> bool {
    t.state_of(p, b) == BlockState::Empty
}

/// Piece `p` is worth requesting from this peer: wanted, not verified, the
/// peer holds it, and it still has an unrequested block.
pub open spec fn piece_candidate(t: PieceBlockTracker, ph: Seq<bool>, p: int) -> bool {
    &&& 0 <= p < t.num_pieces()
    &&& t.piece_wanted(p)
    &&& ph[p]
    &&& exists|b: int| 0 <= b < t.blocks_in(p) && block_free(t, p, b)
}

/// Piece `p` is already open: some block of it has left the unrequested
/// state.
pub open spec fn piece_partial(t: PieceBlockTracker, p: int) -> bool {
    exists|b: int| 0 <= b < t.blocks_in(p) && t.state_of(p, b) != BlockState::Empty
}

/// No peer other than `peer` has any outstanding involvement in piece `p`:
/// every requester of every block of the piece is `peer` itself. A peer on
/// parole is assigned only such pieces, so the piece it downloads is its
/// whole-piece assignment, shared with nobody.
pub open spec fn piece_unclaimed_by_others(
    t: PieceBlockTracker,
    peer: u64,
    p: int,
) -> bool {
    forall|b: int, x: u64|
        0 <= b < t.blocks_in(p) && #[trigger] t.requesters_of(p, b).contains(x) ==> x == peer
}

/// A piece a parole peer may be assigned: a candidate piece that no other
/// peer is downloading.
pub open spec fn parole_candidate(
    t: PieceBlockTracker,
    ph: Seq<bool>,
    peer: u64,
    p: int,
) -> bool {
    &&& piece_candidate(t, ph, p)
    &&& piece_unclaimed_by_others(t, peer, p)
}

/// Block `b` of piece `p` can be issued a duplicate endgame request from
/// `peer`: the piece is wanted and held by the peer, the block is in flight
/// to someone else, and not already to this peer.
pub open spec fn busy_candidate(
    t: PieceBlockTracker,
    ph: Seq<bool>,
    peer: u64,
    p: int,
    b: int,
) -> bool {
    &&& 0 <= p < t.num_pieces()
    &&& 0 <= b < t.blocks_in(p)
    &&& t.piece_wanted(p)
    &&& ph[p]
    &&& t.state_of(p, b) == BlockState::Requested
    &&& !t.requesters_of(p, b).contains(peer)
}

/// The picker's full policy, as a predicate over its result.
pub open spec fn pick_ok(
    t: PieceBlockTracker,
    ph: Seq<bool>,
    peer: u64,
    sequential: bool,
    on_parole: bool,
    endgame: bool,
    r: Option<(usize, usize)>,
) -> bool {
    if on_parole {
        // a parole peer gets in-order whole-piece assignments: the lowest
        // candidate piece nobody else is downloading, and never an endgame
        // duplicate, which would share the piece
        match r {
            Some(pb) => {
                let p = pb.0 as int;
                let b = pb.1 as int;
                &&& parole_candidate(t, ph, peer, p)
                &&& forall|q: int| 0 <= q < p ==> !parole_candidate(t, ph, peer, q)
                &&& block_free(t, p, b)
                &&& forall|c: int| 0 <= c < b ==> !block_free(t, p, c)
            },
            None => forall|q: int| !parole_candidate(t, ph, peer, q),
        }
    } else {
        match r {
            Some(pb) => {
                let p = pb.0 as int;
                let b = pb.1 as int;
                if exists|q: int| piece_candidate(t, ph, q) {
                    &&& piece_candidate(t, ph, p)
                    &&& (if sequential {
                        forall|q: int| 0 <= q < p ==> !piece_candidate(t, ph, q)
                    } else if exists|q: int| piece_candidate(t, ph, q) && piece_partial(t, q) {
                        &&& piece_partial(t, p)
                        &&& forall|q: int| piece_candidate(t, ph, q) && piece_partial(t, q)
                            ==> p <= q
                    } else {
                        forall|q: int| piece_candidate(t, ph, q)
                            ==> (t.avail@[p] < t.avail@[q] || (t.avail@[p] == t.avail@[q] && p
                                <= q))
                    })
                    &&& block_free(t, p, b)
                    &&& forall|c: int| 0 <= c < b ==> !block_free(t, p, c)
                } else {
                    &&& endgame
                    &&& busy_candidate(t, ph, peer, p, b)
                    &&& forall|q: int, c: int| busy_candidate(t, ph, peer, q, c)
                        ==> (p < q || (p == q && b <= c))
                }
            },
            None => {
                &&& forall|q: int| !piece_candidate(t, ph, q)
                &&& (endgame ==> forall|q: int, c: int| !busy_candidate(t, ph, peer, q, c))
            },
        }
    }
}

/// Law: endgame permits duplicate requests. Once more requests are
/// outstanding than unfinished blocks remain, and no unrequested block is
/// left to hand out, the picker re-issues a block that is already requested
/// from another peer — it returns a block in the requested state whose
/// requesters do not yet include this peer — instead of returning nothing.
pub proof fn lemma_endgame_allows_duplicate(
    t: PieceBlockTracker,
    ph: Seq<bool>,
    peer: u64,
    sequential: bool,
    r: Option<(usize, usize)>,
)
    requires
        pick_ok(t, ph, peer, sequential, false, true, r),
        forall|q: int| !piece_candidate(t, ph, q),
        exists|q: int, c: int| busy_candidate(t, ph, peer, q, c),
    ensures
        r is Some,
        t.state_of(r.unwrap().0 as int, r.unwrap().1 as int) == BlockState::Requested,
        !t.requesters_of(r.unwrap().0 as int, r.unwrap().1 as int).contains(peer),
{
}

/// The lowest-index unrequested block of piece `p`, if any.
fn lowest_free_block(t: &PieceBlockTracker, p: usize) -> (r: Option<usize>)
    requires
        t.wf(),
        p < t.num_pieces(),
    ensures
        match r {
            Some(b) => block_free(*t, p as int, b as int) && b < t.blocks_in(p as int)
                && forall|c: int| 0 <= c < b ==> !block_free(*t, p as int, c),
            None => forall|c: int| 0 <= c < t.blocks_in(p as int) ==> !block_free(*t, p as int, c),
        },
{
    let row = &t.blocks[p];
    let mut b: usize = 0;
    while b < row.len()
        invariant
            b <= row@.len(),
            row@ == t.blocks@[p as int]@,
            p < t.num_pieces(),
            forall|c: int| 0 <= c < b ==> !block_free(*t, p as int, c),
        decreases row@.len() - b,
    {
        if row[b].state == BlockState::Empty {
            return Some(b);
        }
        b = b + 1;
    }
    None
}

/// True when piece `p` is a request candidate for this peer.
fn is_candidate(t: &PieceBlockTracker, peer_has: &Vec<bool>, p: usize) -> (r: bool)
    requires
        t.wf(),
        p < t.num_pieces(),
        peer_has@.len() == t.num_pieces(),
    ensures
        r == piece_candidate(*t, peer_has@, p as int),
{
    if t.priorities[p] == 0 || t.have[p] || !peer_has[p] {
        return false;
    }
    match lowest_free_block(t, p) {
        Some(_) => true,
        None => false,
    }
}

/// True when piece `p` is already open.
pub fn piece_is_partial(t: &PieceBlockTracker, p: usize) -> (r: bool)
    requires
        t.wf(),
        p < t.num_pieces(),
    ensures
        r == piece_partial(*t, p as int),
{
    let row = &t.blocks[p];
    let mut b: usize = 0;
    while b < row.len()
        invariant
            b <= row@.len(),
            row@ == t.blocks@[p as int]@,
            p < t.num_pieces(),
            forall|c: int| 0 <= c < b ==> t.state_of(p as int, c) == BlockState::Empty,
        decreases row@.len() - b,
    {
        if row[b].state != BlockState::Empty {
            proof {
                assert(t.state_of(p as int, b as int) != BlockState::Empty);
            }
            return true;
        }
        b = b + 1;
    }
    false
}

/// True when no peer other than `peer` has outstanding involvement in
/// piece `p`.
fn piece_only_requester(t: &PieceBlockTracker, peer: u64, p: usize) -> (r: bool)
    requires
        t.wf(),
        p < t.num_pieces(),
    ensures
        r == piece_unclaimed_by_others(*t, peer, p as int),
{
    let row = &t.blocks[p];
    let mut b: usize = 0;
    while b < row.len()
        invariant
            b <= row@.len(),
            row@ == t.blocks@[p as int]@,
            p < t.num_pieces(),
            forall|c: int, x: u64| 0 <= c < b && #[trigger] t.requesters_of(
                p as int,
                c,
            ).contains(x) ==> x == peer,
        decreases row@.len() - b,
    {
        let rs = &row[b].requesters;
        let mut i: usize = 0;
        while i < rs.len()
            invariant
                i <= rs@.len(),
                b < row@.len(),
                row@ == t.blocks@[p as int]@,
                p < t.num_pieces(),
                rs@ == t.requesters_of(p as int, b as int),
                forall|j: int| 0 <= j < i ==> rs@[j] == peer,
            decreases rs@.len() - i,
        {
            if rs[i] != peer {
                proof {
                    assert(t.requesters_of(p as int, b as int).contains(rs@[i as int]));
                    assert((b as int) < t.blocks_in(p as int));
                    assert(!piece_unclaimed_by_others(*t, peer, p as int));
                }
                return false;
            }
            i = i + 1;
        }
        proof {
            assert forall|x: u64| #[trigger] t.requesters_of(p as int, b as int).contains(x)
                implies x == peer by {
                let j = choose|j: int| 0 <= j < rs@.len() && rs@[j] == x;
            }
        }
        b = b + 1;
    }
    true
}

/// The lowest-index piece a parole peer may be assigned, if any.
fn first_parole_candidate(t: &PieceBlockTracker, peer_has: &Vec<bool>, peer: u64) -> (r: Option<
    usize,
>)
    requires
        t.wf(),
        peer_has@.len() == t.num_pieces(),
    ensures
        match r {
            Some(p) => parole_candidate(*t, peer_has@, peer, p as int)
                && forall|q: int| 0 <= q < p ==> !parole_candidate(*t, peer_has@, peer, q),
            None => forall|q: int| !parole_candidate(*t, peer_has@, peer, q),
        },
{
    let n = t.blocks.len();
    let mut p: usize = 0;
    while p < n
        invariant
            p <= n,
            n == t.num_pieces(),
            t.wf(),
            peer_has@.len() == t.num_pieces(),
            forall|q: int| 0 <= q < p ==> !parole_candidate(*t, peer_has@, peer, q),
        decreases n - p,
    {
        if is_candidate(t, peer_has, p) && piece_only_requester(t, peer, p) {
            return Some(p);
        }
        p = p + 1;
    }
    proof {
        assert forall|q: int| !parole_candidate(*t, peer_has@, peer, q) by {
            if 0 <= q < t.num_pieces() {
            }
        }
    }
    None
}

/// The lowest-index candidate piece, if any.
fn first_candidate(t: &PieceBlockTracker, peer_has: &Vec<bool>) -> (r: Option<usize>)
    requires
        t.wf(),
        peer_has@.len() == t.num_pieces(),
    ensures
        match r {
            Some(p) => piece_candidate(*t, peer_has@, p as int)
                && forall|q: int| 0 <= q < p ==> !piece_candidate(*t, peer_has@, q),
            None => forall|q: int| !piece_candidate(*t, peer_has@, q),
        },
{
    let n = t.blocks.len();
    let mut p: usize = 0;
    while p < n
        invariant
            p <= n,
            n == t.num_pieces(),
            t.wf(),
            peer_has@.len() == t.num_pieces(),
            forall|q: int| 0 <= q < p ==> !piece_candidate(*t, peer_has@, q),
        decreases n - p,
    {
        if is_candidate(t, peer_has, p) {
            return Some(p);
        }
        p = p + 1;
    }
    proof {
        assert forall|q: int| !piece_candidate(*t, peer_has@, q) by {
            if 0 <= q < t.num_pieces() {
            }
        }
    }
    None
}

/// The lowest-index candidate piece that is already open, if any.
fn first_partial_candidate(t: &PieceBlockTracker, peer_has: &Vec<bool>) -> (r: Option<usize>)
    requires
        t.wf(),
        peer_has@.len() == t.num_pieces(),
    ensures
        match r {
            Some(p) => piece_candidate(*t, peer_has@, p as int) && piece_partial(*t, p as int)
                && forall|q: int| piece_candidate(*t, peer_has@, q) && piece_partial(*t, q)
                    ==> p <= q,
            None => forall|q: int| !(piece_candidate(*t, peer_has@, q) && piece_partial(*t, q)),
        },
{
    let n = t.blocks.len();
    let mut p: usize = 0;
    while p < n
        invariant
            p <= n,
            n == t.num_pieces(),
            t.wf(),
            peer_has@.len() == t.num_pieces(),
            forall|q: int| 0 <= q < p
                ==> !(piece_candidate(*t, peer_has@, q) && piece_partial(*t, q)),
        decreases n - p,
    {
        if is_candidate(t, peer_has, p) && piece_is_partial(t, p) {
            return Some(p);
        }
        p = p + 1;
    }
    proof {
        assert forall|q: int| !(piece_candidate(*t, peer_has@, q) && piece_partial(*t, q)) by {
            if 0 <= q < t.num_pieces() {
            }
        }
    }
    None
}

/// The rarest candidate piece — least availability, ties broken by ascending
/// index — if any candidate exists.
fn rarest_candidate(t: &PieceBlockTracker, peer_has: &Vec<bool>) -> (r: Option<usize>)
    requires
        t.wf(),
        peer_has@.len() == t.num_pieces(),
    ensures
        match r {
            Some(p) => piece_candidate(*t, peer_has@, p as int)
                && forall|q: int| piece_candidate(*t, peer_has@, q)
                    ==> (t.avail@[p as int] < t.avail@[q] || (t.avail@[p as int] == t.avail@[q]
                        && p <= q)),
            None => forall|q: int| !piece_candidate(*t, peer_has@, q),
        },
{
    let n = t.blocks.len();
    let mut best: Option<usize> = None;
    let mut q: usize = 0;
    while q < n
        invariant
            q <= n,
            n == t.num_pieces(),
            t.wf(),
            peer_has@.len() == t.num_pieces(),
            match best {
                Some(bp) => piece_candidate(*t, peer_has@, bp as int) && bp < q
                    && forall|q2: int| 0 <= q2 < q && piece_candidate(*t, peer_has@, q2)
                        ==> (t.avail@[bp as int] < t.avail@[q2] || (t.avail@[bp as int]
                            == t.avail@[q2] && bp <= q2)),
                None => forall|q2: int| 0 <= q2 < q ==> !piece_candidate(*t, peer_has@, q2),
            },
        decreases n - q,
    {
        if is_candidate(t, peer_has, q) {
            match best {
                Some(bp) => {
                    if t.avail[q] < t.avail[bp] {
                        best = Some(q);
                    }
                },
                None => {
                    best = Some(q);
                },
            }
        }
        q = q + 1;
    }
    proof {
        if best is None {
            assert forall|q2: int| !piece_candidate(*t, peer_has@, q2) by {
                if 0 <= q2 < t.num_pieces() {
                }
            }
        }
    }
    best
}

/// The lexicographically least block eligible for a duplicate endgame
/// request from `peer`, if any.
fn first_busy_candidate(t: &PieceBlockTracker, peer_has: &Vec<bool>, peer: u64) -> (r: Option<
    (usize, usize),
>)
    requires
        t.wf(),
        peer_has@.len() == t.num_pieces(),
    ensures
        match r {
            Some(pb) => busy_candidate(*t, peer_has@, peer, pb.0 as int, pb.1 as int)
                && forall|q: int, c: int| busy_candidate(*t, peer_has@, peer, q, c)
                    ==> (pb.0 < q || (pb.0 == q && pb.1 <= c)),
            None => forall|q: int, c: int| !busy_candidate(*t, peer_has@, peer, q, c),
        },
{
    let n = t.blocks.len();
    let mut p: usize = 0;
    while p < n
        invariant
            p <= n,
            n == t.num_pieces(),
            t.wf(),
            peer_has@.len() == t.num_pieces(),
            forall|q: int, c: int| 0 <= q < p ==> !busy_candidate(*t, peer_has@, peer, q, c),
        decreases n - p,
    {
        if t.priorities[p] != 0 && !t.have[p] && peer_has[p] {
            let row = &t.blocks[p];
            let mut b: usize = 0;
            while b < row.len()
                invariant
                    b <= row@.len(),
                    row@ == t.blocks@[p as int]@,
                    p < t.num_pieces(),
                    t.wf(),
                    peer_has@.len() == t.num_pieces(),
                    t.piece_wanted(p as int),
                    peer_has@[p as int],
                    forall|q: int, c: int| 0 <= q < p
                        ==> !busy_candidate(*t, peer_has@, peer, q, c),
                    forall|c: int| 0 <= c < b ==> !busy_candidate(*t, peer_has@, peer, p as int, c),
                decreases row@.len() - b,
            {
                if row[b].state == BlockState::Requested && !requesters_contain(
                    &row[b].requesters,
                    peer,
                ) {
                    proof {
                        assert(t.state_of(p as int, b as int) == BlockState::Requested);
                        assert(!t.requesters_of(p as int, b as int).contains(peer));
                        assert(busy_candidate(*t, peer_has@, peer, p as int, b as int));
                    }
                    return Some((p, b));
                }
                b = b + 1;
            }
            proof {
                assert forall|c: int| !busy_candidate(*t, peer_has@, peer, p as int, c) by {
                    if 0 <= c < t.blocks_in(p as int) {
                    }
                }
            }
        } else {
            proof {
                assert forall|c: int| !busy_candidate(*t, peer_has@, peer, p as int, c) by {}
            }
        }
        p = p + 1;
    }
    proof {
        assert forall|q: int, c: int| !busy_candidate(*t, peer_has@, peer, q, c) by {
            if 0 <= q < t.num_pieces() {
            }
        }
    }
    None
}

/// Chooses the next block to request from one peer, following the policy
/// order above; `None` exactly when the peer has nothing to offer — no
/// candidate piece with a free block and, in endgame, no block eligible for
/// a duplicate request either.
pub fn pick_block(
    t: &PieceBlockTracker,
    peer_has: &Vec<bool>,
    peer: u64,
    sequential: bool,
    on_parole: bool,
    endgame: bool,
) -> (r: Option<(usize, usize)>)
    requires
        t.wf(),
        peer_has@.len() == t.num_pieces(),
    ensures
        pick_ok(*t, peer_has@, peer, sequential, on_parole, endgame, r),
{
    if on_parole {
        // whole-piece assignment: the lowest candidate piece no other peer
        // is downloading, and no endgame duplicates
        return match first_parole_candidate(t, peer_has, peer) {
            Some(p) => {
                match lowest_free_block(t, p) {
                    Some(b) => Some((p, b)),
                    None => {
                        proof {
                            assert(false);
                        }
                        None
                    },
                }
            },
            None => None,
        };
    }
    let best: Option<usize> = if sequential {
        first_candidate(t, peer_has)
    } else {
        match first_partial_candidate(t, peer_has) {
            Some(p) => Some(p),
            None => rarest_candidate(t, peer_has),
        }
    };
    match best {
        Some(p) => {
            match lowest_free_block(t, p) {
                Some(b) => Some((p, b)),
                None => {
                    proof {
                        assert(false);
                    }
                    None
                },
            }
        },
        None => {
            if endgame {
                first_busy_candidate(t, peer_has, peer)
            } else {
                None
            }
        },
    }
}

} // verus!
