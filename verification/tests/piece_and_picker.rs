use libtorrent_rasterbar::errors::EngineError;
use libtorrent_rasterbar::picker::pick_block;
use libtorrent_rasterbar::piece_tracker::ArrivalOutcome;
use libtorrent_rasterbar::piece_tracker::BlockState;
use libtorrent_rasterbar::piece_tracker::PieceBlockTracker;
use libtorrent_rasterbar::metrics::Metrics;
use libtorrent_rasterbar::session_stats::CountersAggregator;

fn tracker(pieces: usize, blocks: usize) -> PieceBlockTracker {
    PieceBlockTracker::new(pieces, blocks, blocks)
}

#[test]
fn finished_is_reachable_only_via_writing() {
    let mut t = tracker(1, 1);
    // none -> finished is refused outright
    assert_eq!(
        t.mark_block(0, 0, BlockState::Finished),
        Err(EngineError::InvalidTransition)
    );
    assert_eq!(t.blocks[0][0].state, BlockState::Empty);
    // requested -> finished is refused too
    assert_eq!(t.mark_block(0, 0, BlockState::Requested), Ok(()));
    assert_eq!(
        t.mark_block(0, 0, BlockState::Finished),
        Err(EngineError::InvalidTransition)
    );
    assert_eq!(t.blocks[0][0].state, BlockState::Requested);
    // only writing -> finished goes through
    assert_eq!(t.mark_block(0, 0, BlockState::Writing), Ok(()));
    assert_eq!(t.mark_block(0, 0, BlockState::Finished), Ok(()));
    assert_eq!(t.blocks[0][0].state, BlockState::Finished);
    // and a finished block is frozen
    assert_eq!(
        t.mark_block(0, 0, BlockState::Empty),
        Err(EngineError::InvalidTransition)
    );
}

#[test]
fn finished_only_after_writing_over_random_sequences() {
    // walk a fixed pseudo-random transition script and check the law at
    // every step: a block observed Finished was Writing just before.
    let script = [1u8, 3, 2, 3, 0, 3, 1, 2, 3, 3, 0, 1, 1, 2, 2, 3, 0, 3, 2, 1];
    let to_state = |c: u8| match c {
        0 => BlockState::Empty,
        1 => BlockState::Requested,
        2 => BlockState::Writing,
        _ => BlockState::Finished,
    };
    let mut t = tracker(1, 1);
    for c in script {
        let target = to_state(c);
        let before = t.blocks[0][0].state;
        let r = t.mark_block(0, 0, target);
        let after = t.blocks[0][0].state;
        if after == BlockState::Finished && before != BlockState::Finished {
            assert_eq!(before, BlockState::Writing);
            assert!(r.is_ok());
        }
        if r.is_err() {
            assert_eq!(after, before);
        }
    }
}

#[test]
fn hash_failure_resets_only_that_piece_and_counts_once() {
    let mut c = CountersAggregator::new();
    let mut t = tracker(3, 2);
    // progress blocks in pieces 0 and 1
    assert_eq!(t.request_block(0, 0, 7, false), Ok(()));
    assert_eq!(t.mark_block(0, 0, BlockState::Writing), Ok(()));
    assert_eq!(t.request_block(0, 1, 7, false), Ok(()));
    assert_eq!(t.request_block(1, 0, 8, false), Ok(()));
    assert_eq!(t.fail_count, 0);
    t.on_piece_hash_result(0, false, &mut c);
    // every block of piece 0 is reset with no requesters
    assert_eq!(t.blocks[0][0].state, BlockState::Empty);
    assert_eq!(t.blocks[0][1].state, BlockState::Empty);
    assert_eq!(t.blocks[0][0].requesters.len(), 0);
    assert_eq!(t.blocks[0][1].requesters.len(), 0);
    // the fail counter grew by exactly one
    assert_eq!(t.fail_count, 1);
    // no other piece's blocks were touched
    assert_eq!(t.blocks[1][0].state, BlockState::Requested);
    assert_eq!(t.blocks[1][0].requesters, vec![8]);
    assert_eq!(t.blocks[2][0].state, BlockState::Empty);
    assert_eq!(c.get(Metrics::ses_num_piece_failed), 1);
    assert_eq!(c.get(Metrics::ses_num_piece_passed), 0);
}

#[test]
fn hash_pass_marks_have_and_counts() {
    let mut c = CountersAggregator::new();
    let mut t = tracker(2, 1);
    assert_eq!(t.request_block(0, 0, 7, false), Ok(()));
    let _ = t.on_block_arrival(0, 0, 7, &mut c);
    assert_eq!(t.on_write_complete(0, 0, &mut c), Ok(()));
    t.on_piece_hash_result(0, true, &mut c);
    assert!(t.have[0]);
    assert!(!t.have[1]);
    assert_eq!(t.fail_count, 0);
    assert_eq!(c.get(Metrics::ses_num_piece_passed), 1);
    assert_eq!(c.get(Metrics::disk_num_blocks_written), 1);
}

#[test]
fn peer_close_releases_only_its_blocks() {
    let mut t = tracker(3, 1);
    // peer 1 has (0,0) requested and (1,0) writing; peer 2 has (2,0)
    assert_eq!(t.request_block(0, 0, 1, false), Ok(()));
    assert_eq!(t.request_block(1, 0, 1, false), Ok(()));
    let mut c = CountersAggregator::new();
    assert_eq!(t.on_block_arrival(1, 0, 1, &mut c), ArrivalOutcome::Accepted);
    assert_eq!(t.blocks[1][0].state, BlockState::Writing);
    assert_eq!(t.request_block(2, 0, 2, false), Ok(()));
    t.on_peer_closed(1);
    // both of peer 1's in-flight blocks fell back to unrequested
    assert_eq!(t.blocks[0][0].state, BlockState::Empty);
    assert_eq!(t.blocks[0][0].requesters.len(), 0);
    assert_eq!(t.blocks[1][0].state, BlockState::Empty);
    assert_eq!(t.blocks[1][0].requesters.len(), 0);
    // peer 2's block was not touched
    assert_eq!(t.blocks[2][0].state, BlockState::Requested);
    assert_eq!(t.blocks[2][0].requesters, vec![2]);
}

#[test]
fn peer_close_keeps_block_shared_with_another_requester() {
    let mut t = tracker(1, 1);
    assert_eq!(t.request_block(0, 0, 1, false), Ok(()));
    // endgame duplicate by peer 2
    assert_eq!(t.request_block(0, 0, 2, true), Ok(()));
    t.on_peer_closed(1);
    // the surviving requester keeps the block in flight
    assert_eq!(t.blocks[0][0].state, BlockState::Requested);
    assert_eq!(t.blocks[0][0].requesters, vec![2]);
}

#[test]
fn endgame_duplicate_request_and_redundant_arrival() {
    let mut c = CountersAggregator::new();
    let mut t = tracker(1, 1);
    let peer_has = vec![true];
    assert_eq!(t.request_block(0, 0, 1, false), Ok(()));
    // outstanding (1) > remaining is false yet: remaining is 1
    assert!(!t.in_endgame());
    // no free block is left, so without endgame the picker returns nothing
    assert_eq!(pick_block(&t, &peer_has, 2, false, false, false), None);
    // with endgame it re-issues the busy block to the second peer
    let pick = pick_block(&t, &peer_has, 2, false, false, true);
    assert_eq!(pick, Some((0, 0)));
    assert_eq!(t.request_block(0, 0, 2, true), Ok(()));
    assert_eq!(t.blocks[0][0].requesters, vec![1, 2]);
    // now two requests race one unfinished block
    assert!(t.in_endgame());
    // a third duplicate from the same peer is refused
    assert_eq!(t.request_block(0, 0, 2, true), Err(EngineError::InvalidTransition));
    // peer 1 wins the race
    assert_eq!(t.on_block_arrival(0, 0, 1, &mut c), ArrivalOutcome::Accepted);
    assert_eq!(t.on_write_complete(0, 0, &mut c), Ok(()));
    assert_eq!(t.blocks[0][0].state, BlockState::Finished);
    // the loser's data arrives later: counted wasted, not written twice
    assert_eq!(
        t.on_block_arrival(0, 0, 2, &mut c),
        ArrivalOutcome::RedundantEndgame
    );
    assert_eq!(t.blocks[0][0].state, BlockState::Finished);
    assert_eq!(c.get(Metrics::ses_waste_piece_end_game), 1);
    assert_eq!(c.get(Metrics::disk_num_blocks_written), 1);
}

#[test]
fn unsolicited_arrival_is_discarded() {
    let mut c = CountersAggregator::new();
    let mut t = tracker(1, 1);
    assert_eq!(t.on_block_arrival(0, 0, 9, &mut c), ArrivalOutcome::Unsolicited);
    assert_eq!(t.blocks[0][0].state, BlockState::Empty);
    assert_eq!(c.get(Metrics::ses_waste_piece_unknown), 1);
}

#[test]
fn picker_sequential_takes_lowest_index() {
    let mut t = tracker(4, 1);
    t.peer_has_piece(1);
    t.peer_has_piece(3);
    let peer_has = vec![false, true, false, true];
    // sequential: the lowest-index piece the peer holds
    assert_eq!(pick_block(&t, &peer_has, 1, true, false, false), Some((1, 0)));
    // parole behaves the same, whatever the global mode
    assert_eq!(pick_block(&t, &peer_has, 1, false, true, false), Some((1, 0)));
}

#[test]
fn picker_prefers_partial_pieces() {
    let mut t = tracker(3, 2);
    let peer_has = vec![true, true, true];
    // open piece 2: one of its blocks is already requested
    assert_eq!(t.request_block(2, 0, 5, false), Ok(()));
    // rarest-first would pick piece 0, but the open piece wins
    assert_eq!(pick_block(&t, &peer_has, 1, false, false, false), Some((2, 1)));
}

#[test]
fn picker_rarest_first_with_index_ties() {
    let mut t = tracker(3, 1);
    // availability: piece 0 -> 2 peers, piece 1 -> 1 peer, piece 2 -> 1 peer
    t.peer_has_piece(0);
    t.peer_has_piece(0);
    t.peer_has_piece(1);
    t.peer_has_piece(2);
    let peer_has = vec![true, true, true];
    // rarest availability is 1, shared by pieces 1 and 2; the tie breaks to 1
    assert_eq!(pick_block(&t, &peer_has, 1, false, false, false), Some((1, 0)));
}

#[test]
fn picker_skips_unwanted_and_verified_pieces() {
    let mut t = tracker(3, 1);
    let peer_has = vec![true, true, true];
    assert_eq!(t.set_piece_priority(0, 0), Ok(()));
    let mut c = CountersAggregator::new();
    assert_eq!(t.request_block(1, 0, 1, false), Ok(()));
    assert_eq!(t.on_block_arrival(1, 0, 1, &mut c), ArrivalOutcome::Accepted);
    assert_eq!(t.on_write_complete(1, 0, &mut c), Ok(()));
    t.on_piece_hash_result(1, true, &mut c);
    // piece 0 is unwanted, piece 1 is have: only piece 2 is pickable
    assert_eq!(pick_block(&t, &peer_has, 2, false, false, false), Some((2, 0)));
}

#[test]
fn set_piece_priority_validates() {
    let mut t = tracker(1, 1);
    assert_eq!(t.set_piece_priority(0, 3), Err(EngineError::InvalidPriority));
    assert_eq!(t.set_piece_priority(5, 4), Err(EngineError::InvalidIndex));
    assert_eq!(t.set_piece_priority(0, 7), Ok(()));
    assert_eq!(t.priorities[0], 7);
}

#[test]
fn availability_counts_follow_peers() {
    let mut t = tracker(2, 1);
    t.peer_has_piece(0);
    t.peer_has_piece(0);
    t.peer_has_piece(1);
    assert_eq!(t.availability(0), 2);
    assert_eq!(t.availability(1), 1);
    t.peer_lost_piece(0);
    assert_eq!(t.availability(0), 1);
}

#[test]
fn endgame_counts() {
    let mut t = tracker(2, 2);
    assert_eq!(t.count_remaining_unfinished_blocks(), 4);
    assert_eq!(t.count_outstanding_requests(), 0);
    assert_eq!(t.request_block(0, 0, 1, false), Ok(()));
    assert_eq!(t.request_block(0, 1, 1, false), Ok(()));
    assert_eq!(t.count_outstanding_requests(), 2);
    // unwanted pieces leave the remaining count
    assert_eq!(t.set_piece_priority(1, 0), Ok(()));
    assert_eq!(t.count_remaining_unfinished_blocks(), 2);
}
