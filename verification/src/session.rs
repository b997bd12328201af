use vstd::prelude::*;

verus! {

/// Frames a peer withholds its input before it takes effect, trading a
/// little responsiveness for fewer rollbacks. Both peers must agree on it.
pub const INPUT_DELAY: usize = 2;

/// Where a session stands in its life, from discovery to a terminal end.
#[derive(Clone, Copy, PartialEq, Eq, Structural, Debug)]
pub enum SessionPhase {
    /// No session yet.
    Idle,
    /// Polling the signaling collaborator until two peers are present.
    WaitingForPeers,
    /// Exchanging the starting frame and input delay.
    Synchronizing,
    /// Steady-state synchronized play.
    Running,
    /// Fatal: shared state can no longer be reconciled; tear the session down.
    Desynced,
    /// Terminal: the transport reported peer loss; no further frames advance.
    Disconnected,
}

/// What the outside world reports to the lifecycle, each tick.
#[derive(Clone, Copy, PartialEq, Eq, Structural, Debug)]
pub enum SessionEvent {
    /// The host asked to open a room.
    StartDiscovery,
    /// The signaling collaborator currently shows this many peers, the local
    /// one included.
    PeersPresent(usize),
    /// Both sides agreed on the starting frame and input delay.
    SyncAgreed,
    /// A restore hit an evicted snapshot or a checksum mismatch was reported.
    DesyncDetected,
    /// The transport reported a peer gone.
    PeerLost,
    /// A discovery or synchronization wait ran out of patience.
    TimedOut,
}

/// What the host should do after a transition.
#[derive(Clone, Copy, PartialEq, Eq, Structural, Debug)]
pub enum SessionAction {
    /// Nothing to do.
    Idle,
    /// Send the synchronization offer carrying `INPUT_DELAY`.
    SendSyncOffer,
    /// Report the timeout to the operator and retry the wait.
    RetryAfterTimeout,
    /// Tear the session down and surface the failure to the player.
    TearDown,
}

/// The lifecycle's next phase for a phase and an event.
pub open spec fn spec_transition(phase: SessionPhase, event: SessionEvent) -> SessionPhase {
    match (phase, event) {
        (SessionPhase::Idle, SessionEvent::StartDiscovery) => SessionPhase::WaitingForPeers,
        (SessionPhase::WaitingForPeers, SessionEvent::PeersPresent(n)) => if n >= 2 {
            SessionPhase::Synchronizing
        } else {
            SessionPhase::WaitingForPeers
        },
        (SessionPhase::Synchronizing, SessionEvent::SyncAgreed) => SessionPhase::Running,
        (SessionPhase::Running, SessionEvent::DesyncDetected) => SessionPhase::Desynced,
        (SessionPhase::Idle, SessionEvent::PeerLost) => SessionPhase::Idle,
        (SessionPhase::Desynced, SessionEvent::PeerLost) => SessionPhase::Desynced,
        (SessionPhase::Disconnected, SessionEvent::PeerLost) => SessionPhase::Disconnected,
        (_, SessionEvent::PeerLost) => SessionPhase::Disconnected,
        (_, _) => phase,
    }
}

/// One lifecycle transition: the next phase is exactly `spec_transition`, and
/// the action tells the host what the new phase asks of it. `Desynced` and
/// `Disconnected` are sinks: no event leads out of them.
pub fn transition(phase: SessionPhase, event: SessionEvent) -> (r: (SessionPhase, SessionAction))
    ensures
        r.0 == spec_transition(phase, event),
        (r.1 == SessionAction::SendSyncOffer) <==> (phase == SessionPhase::WaitingForPeers && r.0
            == SessionPhase::Synchronizing),
        (r.1 == SessionAction::TearDown) <==> ((r.0 == SessionPhase::Desynced || r.0
            == SessionPhase::Disconnected) && phase != r.0),
        (r.1 == SessionAction::RetryAfterTimeout) <==> (event == SessionEvent::TimedOut && (phase
            == SessionPhase::WaitingForPeers || phase == SessionPhase::Synchronizing)),
{
    match (phase, event) {
        (SessionPhase::Idle, SessionEvent::StartDiscovery) => (
            SessionPhase::WaitingForPeers,
            SessionAction::Idle,
        ),
        (SessionPhase::WaitingForPeers, SessionEvent::PeersPresent(n)) => {
            if n >= 2 {
                (SessionPhase::Synchronizing, SessionAction::SendSyncOffer)
            } else {
                (SessionPhase::WaitingForPeers, SessionAction::Idle)
            }
        },
        (SessionPhase::Synchronizing, SessionEvent::SyncAgreed) => (
            SessionPhase::Running,
            SessionAction::Idle,
        ),
        (SessionPhase::Running, SessionEvent::DesyncDetected) => (
            SessionPhase::Desynced,
            SessionAction::TearDown,
        ),
        (SessionPhase::Idle, SessionEvent::PeerLost) => (SessionPhase::Idle, SessionAction::Idle),
        (SessionPhase::Desynced, SessionEvent::PeerLost) => (
            SessionPhase::Desynced,
            SessionAction::Idle,
        ),
        (SessionPhase::Disconnected, SessionEvent::PeerLost) => (
            SessionPhase::Disconnected,
            SessionAction::Idle,
        ),
        (_, SessionEvent::PeerLost) => (SessionPhase::Disconnected, SessionAction::TearDown),
        (SessionPhase::WaitingForPeers, SessionEvent::TimedOut) => (
            SessionPhase::WaitingForPeers,
            SessionAction::RetryAfterTimeout,
        ),
        (SessionPhase::Synchronizing, SessionEvent::TimedOut) => (
            SessionPhase::Synchronizing,
            SessionAction::RetryAfterTimeout,
        ),
        (p, _) => (p, SessionAction::Idle),
    }
}

/// The agreed parameters a new synchronized session starts with.
#[derive(Clone, Copy, PartialEq, Eq, Structural, Debug)]
pub struct SessionStart {
    /// Index of the local player among the discovered peers.
    pub local_handle: usize,
    /// The negotiated input delay, in frames.
    pub input_delay: usize,
}

/// Whether any discovered peer is the local one.
pub open spec fn spec_has_local(peers: Seq<bool>) -> bool {
    exists|i: int| 0 <= i < peers.len() && peers[i]
}

/// The decision at the heart of peer negotiation: given the discovered peer
/// set — one flag per peer, true for the local one — start a session exactly
/// when at least two peers are present and one of them is local. The local
/// handle is the first local peer's index, and the input delay is the fixed
/// negotiated value.
pub fn wait_for_players(peers: &Vec<bool>) -> (r: Option<SessionStart>)
    ensures
        r is Some <==> (peers@.len() >= 2 && spec_has_local(peers@)),
        r is Some ==> ({
            let s = r->Some_0;
            &&& s.input_delay == INPUT_DELAY
            &&& 0 <= s.local_handle < peers@.len()
            &&& peers@[s.local_handle as int]
            &&& forall|j: int| 0 <= j < s.local_handle ==> !peers@[j]
        }),
{
    if peers.len() < 2 {
        return None;
    }
    let mut i: usize = 0;
    while i < peers.len()
        invariant
            peers@.len() >= 2,
            i <= peers@.len(),
            forall|j: int| 0 <= j < i ==> !peers@[j],
        decreases peers@.len() - i,
    {
        if peers[i] {
            proof {
                assert(spec_has_local(peers@)) by {
                    assert(0 <= i < peers@.len() && peers@[i as int]);
                }
            }
            return Some(SessionStart { local_handle: i, input_delay: INPUT_DELAY });
        }
        i += 1;
    }
    None
}

} // verus!
