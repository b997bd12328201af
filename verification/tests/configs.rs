use colorwheel_bump::config::{matchbox_host, room_url, GameConfig};
use colorwheel_bump::session::{
    transition, wait_for_players, SessionAction, SessionEvent, SessionPhase, INPUT_DELAY,
};

fn sample_config(version: &str) -> Option<GameConfig> {
    GameConfig::new(
        String::from("ColorWheel Bump"),
        String::from("colorwheel_bump"),
        String::from("ws://localhost:3536"),
        String::from("wss://example.invalid:2083"),
        version,
    )
}

#[test]
fn config_parses_its_version() {
    let c = sample_config("1.2.3+abcdef0").expect("a valid semantic version");
    assert_eq!(c.version_major, 1);
    assert_eq!(c.version_minor, 2);
    assert_eq!(c.version_patch, 3);
    assert_eq!(c.game_slug, "colorwheel_bump");
}

#[test]
fn config_rejects_a_malformed_version() {
    assert!(sample_config("not-a-version").is_none());
    assert!(sample_config("1.2").is_none());
    assert!(sample_config("").is_none());
}

#[test]
fn room_url_carries_slug_and_version_pair() {
    let c = sample_config("1.2.3").unwrap();
    let url = room_url(&c, "ws://localhost:3536");
    assert_eq!(url, "ws://localhost:3536/colorwheel_bump_1.2?next=2");
    let c10 = sample_config("10.25.7").unwrap();
    let url10 = room_url(&c10, "wss://example.invalid:2083");
    assert_eq!(url10, "wss://example.invalid:2083/colorwheel_bump_10.25?next=2");
}

#[test]
fn host_override_beats_the_defaults() {
    let c = sample_config("0.1.0").unwrap();
    assert_eq!(
        matchbox_host(&c, Some(String::from("ws://elsewhere:1")), true),
        "ws://elsewhere:1"
    );
    assert_eq!(matchbox_host(&c, None, true), "ws://localhost:3536");
    assert_eq!(matchbox_host(&c, None, false), "wss://example.invalid:2083");
}

#[test]
fn lifecycle_reaches_running() {
    let (p, _) = transition(SessionPhase::Idle, SessionEvent::StartDiscovery);
    assert_eq!(p, SessionPhase::WaitingForPeers);
    let (p, a) = transition(p, SessionEvent::PeersPresent(1));
    assert_eq!(p, SessionPhase::WaitingForPeers);
    assert_eq!(a, SessionAction::Idle);
    let (p, a) = transition(p, SessionEvent::PeersPresent(2));
    assert_eq!(p, SessionPhase::Synchronizing);
    assert_eq!(a, SessionAction::SendSyncOffer);
    let (p, _) = transition(p, SessionEvent::SyncAgreed);
    assert_eq!(p, SessionPhase::Running);
}

#[test]
fn lifecycle_failure_paths() {
    let (p, a) = transition(SessionPhase::Running, SessionEvent::DesyncDetected);
    assert_eq!(p, SessionPhase::Desynced);
    assert_eq!(a, SessionAction::TearDown);
    let (p, a) = transition(SessionPhase::Running, SessionEvent::PeerLost);
    assert_eq!(p, SessionPhase::Disconnected);
    assert_eq!(a, SessionAction::TearDown);
    // Terminal phases absorb further events.
    let (p, a) = transition(SessionPhase::Disconnected, SessionEvent::PeerLost);
    assert_eq!(p, SessionPhase::Disconnected);
    assert_eq!(a, SessionAction::Idle);
    let (p, _) = transition(SessionPhase::Desynced, SessionEvent::SyncAgreed);
    assert_eq!(p, SessionPhase::Desynced);
}

#[test]
fn lifecycle_timeouts_retry() {
    let (p, a) = transition(SessionPhase::WaitingForPeers, SessionEvent::TimedOut);
    assert_eq!(p, SessionPhase::WaitingForPeers);
    assert_eq!(a, SessionAction::RetryAfterTimeout);
    let (p, a) = transition(SessionPhase::Synchronizing, SessionEvent::TimedOut);
    assert_eq!(p, SessionPhase::Synchronizing);
    assert_eq!(a, SessionAction::RetryAfterTimeout);
}

#[test]
fn negotiation_needs_two_peers_and_a_local_one() {
    assert!(wait_for_players(&vec![]).is_none());
    assert!(wait_for_players(&vec![true]).is_none());
    assert!(wait_for_players(&vec![false, false]).is_none());
    let s = wait_for_players(&vec![false, true]).expect("two peers, one local");
    assert_eq!(s.local_handle, 1);
    assert_eq!(s.input_delay, INPUT_DELAY);
    let s = wait_for_players(&vec![true, false, false]).unwrap();
    assert_eq!(s.local_handle, 0);
}
