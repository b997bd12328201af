use colorwheel_bump::engine::{AdvanceOutcome, ConfirmOutcome, RollbackEngine, PREDICTION_WINDOW};
use colorwheel_bump::input::{encode, Direction};
use colorwheel_bump::queue::{PeerLane, RecordOutcome};
use colorwheel_bump::session::SessionPhase;
use colorwheel_bump::snapshot::SnapshotStore;
use colorwheel_bump::world::{step, World};

#[test]
fn snapshot_restore_returns_the_saved_world() {
    let mut store = SnapshotStore::new(4);
    let w = World::new_from_seed(3);
    store.save(0, &w);
    let back = store.restore(0).expect("snapshot should be present");
    assert_eq!(back, w);
}

#[test]
fn snapshot_ring_evicts_old_frames() {
    let mut store = SnapshotStore::new(4);
    let mut w = World::new_from_seed(3);
    for f in 0..6u64 {
        store.save(f, &w);
        step(&mut w, 0, 0);
    }
    // The ring holds four slots: frames 2..=5 survive, 0 and 1 are gone.
    assert!(store.restore(0).is_none());
    assert!(store.restore(1).is_none());
    for f in 2..6u64 {
        assert!(store.restore(f).is_some());
    }
    // A frame never saved is absent even though its slot is occupied.
    assert!(store.restore(9).is_none());
}

#[test]
fn straight_run_equals_snapshot_restore_and_replay() {
    let inputs: Vec<(u8, u8)> = (0..10u8)
        .map(|f| {
            (
                encode(if f % 2 == 0 { Direction::East } else { Direction::South }, false),
                encode(Direction::North, f % 3 == 0),
            )
        })
        .collect();

    // Straight through, snapshotting along the way.
    let mut store = SnapshotStore::new(16);
    let mut w = World::new_from_seed(21);
    for (f, (i0, i1)) in inputs.iter().enumerate() {
        store.save(f as u64, &w);
        step(&mut w, *i0, *i1);
    }

    // Restore at an interior frame and replay the rest with the same inputs.
    let k = 5;
    let mut replayed = store.restore(k as u64).expect("within the window");
    for (i0, i1) in &inputs[k..] {
        step(&mut replayed, *i0, *i1);
    }
    assert_eq!(replayed, w);
}

#[test]
fn lane_confirmations_apply_in_order() {
    let mut lane = PeerLane::new();
    assert_eq!(lane.predict(), 0);
    lane.record_predicted(0);
    lane.record_predicted(0);
    assert_eq!(lane.record_remote(1, 7), RecordOutcome::OutOfOrder);
    assert_eq!(lane.record_remote(0, 7), RecordOutcome::Accepted { mispredicted: true });
    assert_eq!(lane.record_remote(0, 9), RecordOutcome::Duplicate);
    assert_eq!(lane.predict(), 7);
    // The slot still holds the guess recorded before frame 0 was confirmed,
    // which happens to equal the real input: no misprediction.
    assert_eq!(lane.record_remote(1, 0), RecordOutcome::Accepted { mispredicted: false });
    assert_eq!(lane.record_remote(2, 4), RecordOutcome::Accepted { mispredicted: false });
    assert_eq!(lane.predict(), 4);
    assert_eq!(lane.len(), 3);
    assert_eq!(lane.confirmed_len(), 3);
}

#[test]
fn lane_prediction_holds_last_confirmed_input() {
    let mut lane = PeerLane::new();
    lane.record_remote(0, 5);
    assert_eq!(lane.predict(), 5);
    lane.record_predicted(lane.predict());
    assert_eq!(lane.input_at(1), 5);
    lane.record_remote(1, 5);
    assert_eq!(lane.predict(), 5);
}

#[test]
fn engine_advances_and_reports_frames() {
    let mut e = RollbackEngine::new(1, 0);
    assert_eq!(e.session_phase(), SessionPhase::Running);
    assert_eq!(e.current_frame(), 0);
    assert_eq!(e.advance_local_input(encode(Direction::East, false)), AdvanceOutcome::Advanced);
    assert_eq!(e.current_frame(), 1);
    assert_eq!(e.confirmed_frame(), 0);
}

#[test]
fn engine_stalls_when_the_prediction_window_is_exhausted() {
    let mut e = RollbackEngine::new(1, 0);
    for _ in 0..PREDICTION_WINDOW {
        assert_eq!(e.advance_local_input(0), AdvanceOutcome::Advanced);
    }
    // No remote input ever confirmed: the window is used up.
    assert_eq!(e.advance_local_input(0), AdvanceOutcome::BackPressure);
    // One confirmation clears one frame of back-pressure.
    assert_eq!(e.confirm_remote(0, 0), ConfirmOutcome::Applied { rolled_back: false });
    assert_eq!(e.advance_local_input(0), AdvanceOutcome::Advanced);
    assert_eq!(e.advance_local_input(0), AdvanceOutcome::BackPressure);
}

#[test]
fn engine_refuses_disordered_confirmations() {
    let mut e = RollbackEngine::new(1, 0);
    e.advance_local_input(0);
    e.advance_local_input(0);
    assert_eq!(e.confirm_remote(5, 1), ConfirmOutcome::TooFarAhead);
    assert_eq!(e.confirm_remote(1, 1), ConfirmOutcome::OutOfOrder);
    assert_eq!(e.confirm_remote(0, 1), ConfirmOutcome::Applied { rolled_back: true });
    assert_eq!(e.confirm_remote(0, 1), ConfirmOutcome::Duplicate);
}

#[test]
fn disconnect_is_terminal() {
    let mut e = RollbackEngine::new(1, 0);
    e.advance_local_input(0);
    e.on_peer_disconnected();
    assert_eq!(e.session_phase(), SessionPhase::Disconnected);
    assert_eq!(e.advance_local_input(0), AdvanceOutcome::NotRunning);
    assert_eq!(e.confirm_remote(0, 0), ConfirmOutcome::NotRunning);
    // No event leads out of the terminal phase.
    e.report_desync();
    assert_eq!(e.session_phase(), SessionPhase::Disconnected);
}

#[test]
fn reported_desync_is_fatal() {
    let mut e = RollbackEngine::new(1, 0);
    e.report_desync();
    assert_eq!(e.session_phase(), SessionPhase::Desynced);
    assert_eq!(e.advance_local_input(0), AdvanceOutcome::NotRunning);
}

#[test]
fn corrected_prediction_matches_the_run_that_knew_the_input() {
    let seed = 77;
    let local = [
        encode(Direction::East, false),
        encode(Direction::East, false),
        encode(Direction::North, false),
    ];
    let real_remote = encode(Direction::West, false);

    let mut e = RollbackEngine::new(seed, 0);
    for i in local {
        assert_eq!(e.advance_local_input(i), AdvanceOutcome::Advanced);
    }
    // Frames 0..3 were simulated with the held-last prediction (the neutral
    // input, as nothing was ever confirmed). The real input differs.
    assert_eq!(
        e.confirm_remote(0, real_remote),
        ConfirmOutcome::Applied { rolled_back: true }
    );

    // The run that had known the real input from the start: frame 0 uses it
    // confirmed, frames 1 and 2 use it as the held-last prediction. The
    // local lane is delayed two frames, so its first two entries are neutral.
    let mut w = World::new_from_seed(seed);
    let lane_a = [0, 0, local[0]];
    for f in 0..3 {
        step(&mut w, lane_a[f], real_remote);
    }
    assert_eq!(e.current_world(), &w);
}

#[test]
fn confirmation_matching_the_prediction_rolls_nothing_back() {
    let mut e = RollbackEngine::new(5, 0);
    e.advance_local_input(encode(Direction::East, false));
    let before = e.current_world().clone();
    // The prediction for an unconfirmed peer with no history is neutral.
    assert_eq!(e.confirm_remote(0, 0), ConfirmOutcome::Applied { rolled_back: false });
    assert_eq!(e.current_world(), &before);
}

fn session_inputs(t: usize) -> (u8, u8) {
    let a = encode(if t % 2 == 0 { Direction::East } else { Direction::North }, false);
    let b = encode(if t % 3 == 0 { Direction::West } else { Direction::South }, t % 5 == 0);
    (a, b)
}

/// The input a peer's lane holds for `frame`: the input delay prefixes two
/// neutral entries.
fn lane_value(frame: usize, side: usize) -> u8 {
    if frame < 2 {
        0
    } else {
        let (a, b) = session_inputs(frame - 2);
        if side == 0 { a } else { b }
    }
}

/// Runs two peers for `ticks` frames, confirming each other's inputs as they
/// become available; packets from the first peer for frames in `delayed`
/// reach the second peer `lag` frames late.
fn run_two_peers(
    ticks: usize,
    delayed: std::ops::RangeInclusive<usize>,
    lag: usize,
) -> (RollbackEngine, RollbackEngine) {
    let seed = 99;
    let mut a = RollbackEngine::new(seed, 0);
    let mut b = RollbackEngine::new(seed, 1);
    let mut next_to_b: usize = 0;
    let mut next_to_a: usize = 0;
    for t in 0..ticks {
        let (ia, ib) = session_inputs(t);
        assert_eq!(a.advance_local_input(ia), AdvanceOutcome::Advanced);
        assert_eq!(b.advance_local_input(ib), AdvanceOutcome::Advanced);
        while next_to_a <= t {
            match a.confirm_remote(next_to_a, lane_value(next_to_a, 1)) {
                ConfirmOutcome::Applied { .. } => {}
                other => panic!("unexpected outcome {:?}", other),
            }
            next_to_a += 1;
        }
        while next_to_b <= t {
            let arrival = if delayed.contains(&next_to_b) { next_to_b + lag } else { next_to_b };
            if arrival > t {
                break;
            }
            match b.confirm_remote(next_to_b, lane_value(next_to_b, 0)) {
                ConfirmOutcome::Applied { .. } => {}
                other => panic!("unexpected outcome {:?}", other),
            }
            next_to_b += 1;
        }
    }
    while next_to_b < ticks {
        b.confirm_remote(next_to_b, lane_value(next_to_b, 0));
        next_to_b += 1;
    }
    (a, b)
}

#[test]
fn two_peers_with_delayed_packets_agree() {
    // Two peers play 120 frames; one peer's packets for frames 40 through 45
    // arrive six frames late. The outcome must be as if nothing was delayed.
    let ticks = 120;
    let (a, b) = run_two_peers(ticks, 40..=45, 6);
    let (a2, b2) = run_two_peers(ticks, 0..=0, 0);

    // Both peers agree with each other, delayed or not.
    assert_eq!(a.current_world(), b.current_world());
    assert_eq!(a2.current_world(), b2.current_world());
    // The delay changed nothing.
    assert_eq!(a.current_world(), a2.current_world());

    // And both match the plain deterministic run over the same inputs.
    let mut w = World::new_from_seed(99);
    for f in 0..ticks {
        step(&mut w, lane_value(f, 0), lane_value(f, 1));
    }
    assert_eq!(a.current_world(), &w);
}
