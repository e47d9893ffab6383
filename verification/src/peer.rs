//! The per-peer protocol state machine and request-queue bookkeeping.
//!
//! A connection runs `Connecting → Handshaking → Established → Closing →
//! Closed`; any state may fall directly to `Closed` on a transport error,
//! with the error recorded into the matching counter bucket. The parole and
//! snub flags ride beside the state machine and only change how blocks are
//! picked. Once a connection is closed no further requests can be issued on
//! it, and its outstanding blocks are released in the piece tracker so other
//! peers may pick them up.

use vstd::prelude::*;

use crate::flags;
use crate::metrics::Metrics;

verus! {

/// The primary state of a peer connection.
#[derive(Clone, Copy, Debug, PartialEq, Eq, Structural)]
pub enum PeerState {
    /// The transport connection is half-open.
    Connecting,
    /// Connected; waiting for the protocol handshake.
    Handshaking,
    /// Steady state: piece requests may flow.
    Established,
    /// Graceful unchoke-drain: outstanding requests may finish, no new ones.
    Closing,
    /// Gone. No further requests are ever issued to this peer; the torrent
    /// destroys the connection — removes it from its peer list and releases
    /// its blocks — as it closes.
    Closed,
}

/// Why a connection ended; each reason lands in its own counter bucket.
#[derive(Clone, Copy, Debug, PartialEq, Eq, Structural)]
pub enum DisconnectReason {
    /// The peer closed the connection.
    Eof,
    /// The transport reported a connection reset.
    ConnReset,
    /// The transport refused the connection.
    ConnRefused,
    /// The transport aborted the connection.
    ConnAborted,
    /// The socket was not connected.
    NotConnected,
    /// The peer did not answer within the timeout.
    Timeout,
    /// A malformed or failed protocol handshake.
    HandshakeFailed,
    /// Disconnected by this client for any other cause.
    Other,
}

impl DisconnectReason {
    /// The counter bucket this reason is folded into.
    pub open spec fn metric_spec(self) -> Metrics {
        match self {
            DisconnectReason::Eof => Metrics::peer_eof_peers,
            DisconnectReason::ConnReset => Metrics::peer_connreset_peers,
            DisconnectReason::ConnRefused => Metrics::peer_connrefused_peers,
            DisconnectReason::ConnAborted => Metrics::peer_connaborted_peers,
            DisconnectReason::NotConnected => Metrics::peer_notconnected_peers,
            DisconnectReason::Timeout => Metrics::peer_timeout_peers,
            DisconnectReason::HandshakeFailed => Metrics::peer_error_peers,
            DisconnectReason::Other => Metrics::peer_disconnected_peers,
        }
    }

    /// Returns the counter bucket this reason is folded into.
    pub fn metric(self) -> (r: Metrics)
        ensures
            r == self.metric_spec(),
    {
        match self {
            DisconnectReason::Eof => Metrics::peer_eof_peers,
            DisconnectReason::ConnReset => Metrics::peer_connreset_peers,
            DisconnectReason::ConnRefused => Metrics::peer_connrefused_peers,
            DisconnectReason::ConnAborted => Metrics::peer_connaborted_peers,
            DisconnectReason::NotConnected => Metrics::peer_notconnected_peers,
            DisconnectReason::Timeout => Metrics::peer_timeout_peers,
            DisconnectReason::HandshakeFailed => Metrics::peer_error_peers,
            DisconnectReason::Other => Metrics::peer_disconnected_peers,
        }
    }
}

/// One peer connection.
pub struct PeerConnection {
    /// Stable identity of this connection; request bookkeeping in the piece
    /// tracker is keyed by it, so removal invalidates stale completions.
    pub id: u64,
    pub state: PeerState,
    /// Only whole-piece, in-order requests are issued while on parole.
    pub on_parole: bool,
    /// The peer failed to send a block within the request timeout.
    pub snubbed: bool,
    /// We are interested in pieces from this peer.
    pub interesting: bool,
    /// We have choked this peer.
    pub choked: bool,
    /// The peer is interested in us.
    pub remote_interested: bool,
    /// The peer has choked us.
    pub remote_choked: bool,
    /// Where this peer was learned from (a bitmask of source flags).
    pub source: u8,
    /// True when we initiated the connection.
    pub outgoing: bool,
    /// Which pieces the peer claims to hold, one flag per piece.
    pub pieces: Vec<bool>,
    /// The blocks requested from this peer and not yet answered.
    pub queue: Vec<(usize, usize)>,
    /// How many requests we try to keep in flight, from observed throughput.
    pub target_queue_len: usize,
    /// Failed connection attempts or disconnects of this peer.
    pub fail_count: u32,
    /// Pieces this peer took part in that failed the hash check.
    pub num_hashfails: u32,
}

impl PeerConnection {
    /// The transitions of the primary state machine.
    pub open spec fn state_transition_ok(from: PeerState, to: PeerState) -> bool {
        ||| (from == PeerState::Connecting && to == PeerState::Handshaking)
        ||| (from == PeerState::Handshaking && to == PeerState::Established)
        ||| (from == PeerState::Established && to == PeerState::Closing)
        ||| to == PeerState::Closed
    }

    /// New requests may be issued only on an established connection whose
    /// remote end has not choked us and that we are interested in.
    pub open spec fn can_request_spec(self) -> bool {
        self.state == PeerState::Established && self.interesting && !self.remote_choked
    }

    /// The request queue still has room below its target length, which the
    /// policy layer derives from observed throughput.
    pub open spec fn has_spare_capacity_spec(self) -> bool {
        self.queue@.len() < self.target_queue_len
    }

    /// True when the request queue has room below its target length.
    pub fn has_spare_capacity(&self) -> (r: bool)
        ensures
            r == self.has_spare_capacity_spec(),
    {
        self.queue.len() < self.target_queue_len
    }

    /// Sets the request-queue length aimed for; the policy layer derives it
    /// from observed throughput.
    pub fn set_target_queue_len(&mut self, target: usize)
        ensures
            final(self).target_queue_len == target,
            final(self).state == old(self).state,
            final(self).queue@ == old(self).queue@,
            final(self).id == old(self).id,
            final(self).on_parole == old(self).on_parole,
            final(self).snubbed == old(self).snubbed,
            final(self).interesting == old(self).interesting,
            final(self).choked == old(self).choked,
            final(self).remote_interested == old(self).remote_interested,
            final(self).remote_choked == old(self).remote_choked,
            final(self).source == old(self).source,
            final(self).outgoing == old(self).outgoing,
            final(self).pieces@ == old(self).pieces@,
            final(self).fail_count == old(self).fail_count,
            final(self).num_hashfails == old(self).num_hashfails,
    {
        self.target_queue_len = target;
    }

    /// A fresh half-open connection: choked and uninterested in both
    /// directions, an empty request queue, and no known pieces.
    pub fn new(id: u64, num_pieces: usize, source: u8, outgoing: bool) -> (r: PeerConnection)
        ensures
            r.id == id,
            r.state == PeerState::Connecting,
            !r.on_parole,
            !r.snubbed,
            !r.interesting,
            r.choked,
            !r.remote_interested,
            r.remote_choked,
            r.source == source,
            r.outgoing == outgoing,
            r.pieces@.len() == num_pieces,
            forall|p: int| 0 <= p < num_pieces ==> !r.pieces@[p],
            r.queue@.len() == 0,
            r.fail_count == 0,
            r.num_hashfails == 0,
    {
        let mut pieces: Vec<bool> = Vec::new();
        let mut p: usize = 0;
        while p < num_pieces
            invariant
                p <= num_pieces,
                pieces@.len() == p,
                forall|q: int| 0 <= q < p ==> !pieces@[q],
            decreases num_pieces - p,
        {
            pieces.push(false);
            p = p + 1;
        }
        PeerConnection {
            id,
            state: PeerState::Connecting,
            on_parole: false,
            snubbed: false,
            interesting: false,
            choked: true,
            remote_interested: false,
            remote_choked: true,
            source,
            outgoing,
            pieces,
            queue: Vec::new(),
            target_queue_len: 4,
            fail_count: 0,
            num_hashfails: 0,
        }
    }

    /// Everything but the primary state and the request queue is unchanged.
    pub open spec fn only_state_and_queue_changed(self, other: PeerConnection) -> bool {
        &&& self.id == other.id
        &&& self.on_parole == other.on_parole
        &&& self.snubbed == other.snubbed
        &&& self.interesting == other.interesting
        &&& self.choked == other.choked
        &&& self.remote_interested == other.remote_interested
        &&& self.remote_choked == other.remote_choked
        &&& self.source == other.source
        &&& self.outgoing == other.outgoing
        &&& self.pieces@ == other.pieces@
        &&& self.target_queue_len == other.target_queue_len
        &&& self.fail_count == other.fail_count
        &&& self.num_hashfails == other.num_hashfails
    }

    /// The transport connected: the handshake may begin.
    pub fn on_transport_connect(&mut self)
        requires
            old(self).state == PeerState::Connecting,
        ensures
            final(self).state == PeerState::Handshaking,
            Self::state_transition_ok(old(self).state, final(self).state),
            final(self).queue@ == old(self).queue@,
            final(self).only_state_and_queue_changed(*old(self)),
    {
        self.state = PeerState::Handshaking;
    }

    /// The protocol handshake finished. A valid handshake establishes the
    /// connection; an invalid one closes it for good — it is never retried —
    /// and the caller folds `HandshakeFailed` into the counters.
    pub fn on_handshake(&mut self, valid: bool)
        requires
            old(self).state == PeerState::Handshaking,
        ensures
            final(self).state == (if valid {
                PeerState::Established
            } else {
                PeerState::Closed
            }),
            Self::state_transition_ok(old(self).state, final(self).state),
            final(self).queue@ == old(self).queue@,
            final(self).only_state_and_queue_changed(*old(self)),
    {
        if valid {
            self.state = PeerState::Established;
        } else {
            self.state = PeerState::Closed;
        }
    }

    /// Starts a graceful unchoke-drain: outstanding requests may still be
    /// answered, but no new ones are issued.
    pub fn begin_graceful_close(&mut self)
        requires
            old(self).state == PeerState::Established,
        ensures
            final(self).state == PeerState::Closing,
            Self::state_transition_ok(old(self).state, final(self).state),
            final(self).queue@ == old(self).queue@,
            final(self).only_state_and_queue_changed(*old(self)),
    {
        self.state = PeerState::Closing;
    }

    /// True when a new block request may be issued to this peer right now.
    pub fn can_request(&self) -> (r: bool)
        ensures
            r == self.can_request_spec(),
    {
        self.state == PeerState::Established && self.interesting && !self.remote_choked
    }

    /// Records one more in-flight request on this connection.
    pub fn push_request(&mut self, piece: usize, block: usize)
        requires
            old(self).can_request_spec(),
        ensures
            final(self).queue@ == old(self).queue@.push((piece, block)),
            final(self).state == old(self).state,
            final(self).only_state_and_queue_changed(*old(self)),
    {
        self.queue.push((piece, block));
    }

    /// Records the peer's claim to hold piece `piece`.
    pub fn set_has_piece(&mut self, piece: usize)
        requires
            piece < old(self).pieces@.len(),
        ensures
            final(self).pieces@ == old(self).pieces@.update(piece as int, true),
            final(self).state == old(self).state,
            final(self).queue@ == old(self).queue@,
            final(self).id == old(self).id,
            final(self).on_parole == old(self).on_parole,
            final(self).snubbed == old(self).snubbed,
            final(self).interesting == old(self).interesting,
            final(self).choked == old(self).choked,
            final(self).remote_interested == old(self).remote_interested,
            final(self).remote_choked == old(self).remote_choked,
            final(self).source == old(self).source,
            final(self).outgoing == old(self).outgoing,
            final(self).target_queue_len == old(self).target_queue_len,
            final(self).fail_count == old(self).fail_count,
            final(self).num_hashfails == old(self).num_hashfails,
    {
        self.pieces[piece] = true;
    }

    /// The peer-flags word of this connection, assembled bit by bit.
    pub open spec fn flags_word_spec(self) -> u32 {
        let w0 = 0u32;
        let w1 = if self.interesting {
            w0 | flags::PEER_INTERESTING
        } else {
            w0
        };
        let w2 = if self.choked {
            w1 | flags::PEER_CHOKED
        } else {
            w1
        };
        let w3 = if self.remote_interested {
            w2 | flags::PEER_REMOTE_INTERESTED
        } else {
            w2
        };
        let w4 = if self.remote_choked {
            w3 | flags::PEER_REMOTE_CHOKED
        } else {
            w3
        };
        let w5 = if self.outgoing {
            w4 | flags::PEER_OUTGOING_CONNECTION
        } else {
            w4
        };
        let w6 = if self.state == PeerState::Handshaking {
            w5 | flags::PEER_HANDSHAKE
        } else {
            w5
        };
        let w7 = if self.state == PeerState::Connecting {
            w6 | flags::PEER_CONNECTING
        } else {
            w6
        };
        let w8 = if self.on_parole {
            w7 | flags::PEER_ON_PAROLE
        } else {
            w7
        };
        if self.snubbed {
            w8 | flags::PEER_SNUBBED
        } else {
            w8
        }
    }

    /// Returns the peer-flags word of this connection.
    pub fn flags_word(&self) -> (r: u32)
        ensures
            r == self.flags_word_spec(),
    {
        let mut w: u32 = 0;
        if self.interesting {
            w = w | flags::PEER_INTERESTING;
        }
        if self.choked {
            w = w | flags::PEER_CHOKED;
        }
        if self.remote_interested {
            w = w | flags::PEER_REMOTE_INTERESTED;
        }
        if self.remote_choked {
            w = w | flags::PEER_REMOTE_CHOKED;
        }
        if self.outgoing {
            w = w | flags::PEER_OUTGOING_CONNECTION;
        }
        if self.state == PeerState::Handshaking {
            w = w | flags::PEER_HANDSHAKE;
        }
        if self.state == PeerState::Connecting {
            w = w | flags::PEER_CONNECTING;
        }
        if self.on_parole {
            w = w | flags::PEER_ON_PAROLE;
        }
        if self.snubbed {
            w = w | flags::PEER_SNUBBED;
        }
        w
    }
}

} // verus!
