use vstd::prelude::*;

use crate::queue::PeerLane;
use crate::queue::RecordOutcome;
use crate::session::SessionEvent;
use crate::session::SessionPhase;
use crate::session::transition;
use crate::session::spec_transition;
use crate::session::INPUT_DELAY;
use crate::snapshot::SnapshotStore;
use crate::world::World;
use crate::world::WorldModel;
use crate::world::spec_run;
use crate::world::step;

verus! {

/// How many frames the simulation may run ahead of the last confirmed remote
/// input before local advancement stalls; also the rollback window the
/// snapshot ring covers.
pub const PREDICTION_WINDOW: usize = 8;

/// What one attempted frame advance did.
#[derive(Clone, Copy, PartialEq, Eq, Structural, Debug)]
pub enum AdvanceOutcome {
    /// The simulation moved one frame forward.
    Advanced,
    /// The prediction window is exhausted (or the frame counter is at its
    /// machine limit): advancing now could outrun rollback, so the engine
    /// stalls instead of silently dropping frames.
    BackPressure,
    /// The session is not in the `Running` phase.
    NotRunning,
}

/// What became of a remote input confirmation.
#[derive(Clone, Copy, PartialEq, Eq, Structural, Debug)]
pub enum ConfirmOutcome {
    /// The input is recorded; `rolled_back` says whether it contradicted a
    /// prediction already simulated, forcing a rewind and replay.
    Applied { rolled_back: bool },
    /// That frame was already confirmed; nothing changed.
    Duplicate,
    /// An earlier frame is still unconfirmed; confirmations apply in frame
    /// order, so the caller should deliver that one first.
    OutOfOrder,
    /// The frame is beyond the frame the simulation is about to run; the
    /// caller should advance first and deliver it again.
    TooFarAhead,
    /// The session is not in the `Running` phase.
    NotRunning,
    /// A rewind needed a snapshot the ring no longer holds; the session is
    /// now `Desynced`.
    DesyncDetected,
}

/// The simulation half of the engine: everything rollback acts on, kept
/// apart from the lifecycle phase so that phase changes cannot touch it.
struct EngineCore {
    world: World,
    store: SnapshotStore,
    local: PeerLane,
    remote: PeerLane,
    local_handle: usize,
    current: usize,
    initial: Ghost<WorldModel>,
    history: Ghost<Seq<(u8, u8)>>,
}

impl EngineCore {
    spec fn current(self) -> int {
        self.current as int
    }

    spec fn confirmed(self) -> int {
        self.remote.confirmed_up_to()
    }

    spec fn local_handle(self) -> int {
        self.local_handle as int
    }

    spec fn initial_model(self) -> WorldModel {
        self.initial@
    }

    spec fn world_model(self) -> WorldModel {
        self.world@
    }

    spec fn local_inputs(self) -> Seq<u8> {
        self.local.inputs()
    }

    spec fn remote_inputs(self) -> Seq<u8> {
        self.remote.inputs()
    }

    spec fn predicted(self) -> u8 {
        self.remote.spec_predict()
    }

    spec fn pair_at(self, f: int) -> (u8, u8) {
        if self.local_handle() == 0 {
            (self.local_inputs()[f], self.remote_inputs()[f])
        } else {
            (self.remote_inputs()[f], self.local_inputs()[f])
        }
    }

    spec fn used(self) -> Seq<(u8, u8)> {
        self.history@
    }

    spec fn stalled(self) -> bool {
        self.current() >= self.confirmed() + PREDICTION_WINDOW || self.current() + INPUT_DELAY
            >= usize::MAX
    }

    /// The simulation invariant. Its core is `world_model() ==
    /// spec_run(initial_model(), used())`, with the snapshot ring holding the
    /// last window of frames of that same run.
    spec fn wf(self) -> bool {
        &&& self.local_handle <= 1
        &&& self.initial@.frame == 0
        &&& self.local.wf()
        &&& self.remote.wf()
        &&& self.local.confirmed_up_to() == self.local.inputs().len()
        &&& self.local.inputs().len() == self.current() + INPUT_DELAY
        &&& self.current() + INPUT_DELAY <= usize::MAX
        &&& self.current() <= self.remote.inputs().len() <= self.current() + 1
        &&& self.remote.inputs().len() > self.current() ==> self.remote.confirmed_up_to()
            == self.remote.inputs().len()
        &&& forall|k: int|
            self.remote.confirmed_up_to() <= k < self.remote.inputs().len()
                ==> self.remote.inputs()[k] == self.remote.spec_predict()
        &&& self.current() <= self.remote.confirmed_up_to() + PREDICTION_WINDOW
        &&& self.history@.len() == self.current()
        &&& forall|f: int|
            0 <= f < self.current() ==> #[trigger] self.history@[f] == self.pair_at(f)
        &&& self.world.frame == self.current as u64
        &&& self.world@ == spec_run(self.initial@, self.used())
        &&& self.store.wf()
        &&& self.store.capacity() == PREDICTION_WINDOW as int
        &&& forall|f: int|
            0 <= f < self.current() && self.current() - PREDICTION_WINDOW <= f
                ==> #[trigger] self.store.has_frame(f as u64)
        &&& forall|f: int|
            0 <= f < self.current() && self.current() - PREDICTION_WINDOW <= f
                ==> #[trigger] self.store.model_at(f as u64) == spec_run(
                self.initial@,
                self.used().take(f),
            )
        &&& forall|f: int|
            0 <= f < self.current() && self.current() - PREDICTION_WINDOW <= f ==> (
            #[trigger] self.store.model_at(f as u64)).frame == f as u64
    }

    fn new(seed: u64, local_handle: usize) -> (r: EngineCore)
        requires
            local_handle <= 1,
        ensures
            r.wf(),
            r.current() == 0,
            r.confirmed() == 0,
            r.local_handle() == local_handle,
            r.initial_model() == World::spec_initial(seed),
            r.world_model() == World::spec_initial(seed),
            r.used() =~= Seq::<(u8, u8)>::empty(),
            r.remote_inputs() =~= Seq::<u8>::empty(),
            r.local_inputs().len() == INPUT_DELAY,
            forall|k: int| 0 <= k < INPUT_DELAY ==> r.local_inputs()[k] == 0u8,
            r.predicted() == 0,
    {
        let world = World::new_from_seed(seed);
        let ghost initial = world@;
        let store = SnapshotStore::new(PREDICTION_WINDOW);
        let mut local = PeerLane::new();
        let mut i: usize = 0;
        while i < INPUT_DELAY
            invariant
                i <= INPUT_DELAY,
                local.wf(),
                local.inputs().len() == i,
                local.confirmed_up_to() == i,
                forall|k: int| 0 <= k < i ==> local.inputs()[k] == 0u8,
            decreases INPUT_DELAY - i,
        {
            local.record_local(0);
            i += 1;
        }
        let remote = PeerLane::new();
        let r = EngineCore {
            world,
            store,
            local,
            remote,
            local_handle,
            current: 0,
            initial: Ghost(initial),
            history: Ghost(Seq::empty()),
        };
        proof {
            assert(spec_run(initial, r.used()) == initial);
        }
        r
    }

    #[verifier::rlimit(100)]
    #[verifier::spinoff_prover]
    fn advance(&mut self, local_input: u8) -> (r: AdvanceOutcome)
        requires
            old(self).wf(),
        ensures
            final(self).wf(),
            final(self).local_handle() == old(self).local_handle(),
            final(self).initial_model() == old(self).initial_model(),
            old(self).stalled() ==> r == AdvanceOutcome::BackPressure && *final(self) == *old(
                self,
            ),
            !old(self).stalled() ==> {
                &&& r == AdvanceOutcome::Advanced
                &&& final(self).current() == old(self).current() + 1
                &&& final(self).confirmed() == old(self).confirmed()
                &&& final(self).local_inputs() =~= old(self).local_inputs().push(local_input)
                &&& forall|k: int|
                    0 <= k < old(self).current() ==> final(self).used()[k] == old(self).used()[k]
                &&& final(self).remote_inputs()[old(self).current()] == (if old(self).confirmed()
                    > old(self).current() {
                    old(self).remote_inputs()[old(self).current()]
                } else {
                    old(self).predicted()
                })
                &&& final(self).world_model() == spec_run(
                    final(self).initial_model(),
                    final(self).used(),
                )
            },
    {
        if self.current >= usize::MAX - INPUT_DELAY {
            return AdvanceOutcome::BackPressure;
        }
        let confirmed = self.remote.confirmed_len();
        proof {
            self.remote.lemma_wf_bounds();
            self.local.lemma_wf_bounds();
        }
        if self.current >= PREDICTION_WINDOW && self.current - PREDICTION_WINDOW >= confirmed {
            return AdvanceOutcome::BackPressure;
        }
        let ghost old_self = *self;
        self.local.record_local(local_input);
        if self.remote.len() == self.current {
            let prediction = self.remote.predict();
            self.remote.record_predicted(prediction);
        }
        let i_local = self.local.input_at(self.current);
        let i_remote = self.remote.input_at(self.current);
        let (i0, i1) = if self.local_handle == 0 {
            (i_local, i_remote)
        } else {
            (i_remote, i_local)
        };
        proof {
            assert(old_self.used().take(old_self.current() as int) =~= old_self.used());
            assert(self.world@ == spec_run(old_self.initial@, old_self.used()));
        }
        self.store.save(self.current as u64, &self.world);
        let ghost mid_self = *self;
        step(&mut self.world, i0, i1);
        self.current = self.current + 1;
        self.history = Ghost(self.history@.push((i0, i1)));
        proof {
            let oldc = old_self.current();
            // The lanes only grew, so every already-simulated frame kept its
            // input pair, and the new frame's pair is the one just read.
            assert forall|k: int| 0 <= k < oldc implies self.pair_at(k) == old_self.pair_at(
                k,
            ) by {
                assert(self.local.inputs()[k] == old_self.local.inputs()[k]);
                assert(self.remote.inputs()[k] == old_self.remote.inputs()[k]);
            }
            assert(self.pair_at(oldc) == (i0, i1));
            assert(self.used().drop_last() =~= old_self.used());
            assert(self.used().last() == (i0, i1));
            assert(spec_run(self.initial@, self.used()) == crate::world::spec_step(
                spec_run(self.initial@, old_self.used()),
                i0,
                i1,
            ));
            assert(self.world@ == spec_run(self.initial@, self.used()));
            // The snapshot ring: the frame just saved carries the pre-step
            // world, and every younger frame in the window survived the save
            // because its slot differs.
            assert(self.used().take(oldc) =~= old_self.used());
            assert(self.store.has_frame(oldc as u64));
            assert(self.store.model_at(oldc as u64) == spec_run(
                self.initial@,
                self.used().take(oldc),
            ));
            assert forall|f: int|
                0 <= f < self.current() && self.current() - PREDICTION_WINDOW
                    <= f implies #[trigger] self.store.has_frame(f as u64) by {
                if f < oldc {
                    lemma_distinct_slots(f, oldc, PREDICTION_WINDOW as int);
                    assert(old_self.store.has_frame(f as u64));
                    assert(mid_self.store.has_frame(f as u64));
                }
            }
            assert forall|f: int|
                0 <= f < self.current() && self.current() - PREDICTION_WINDOW
                    <= f implies #[trigger] self.store.model_at(f as u64) == spec_run(
                self.initial@,
                self.used().take(f),
            ) by {
                assert(self.store.has_frame(f as u64));
                if f < oldc {
                    lemma_distinct_slots(f, oldc, PREDICTION_WINDOW as int);
                    assert(old_self.store.has_frame(f as u64));
                    assert(mid_self.store.has_frame(f as u64));
                    assert(old_self.store.model_at(f as u64) == spec_run(
                        old_self.initial@,
                        old_self.used().take(f),
                    ));
                    assert(self.used().take(f) =~= old_self.used().take(f));
                }
            }
            assert forall|f: int|
                0 <= f < self.current() && self.current() - PREDICTION_WINDOW
                    <= f implies (#[trigger] self.store.model_at(f as u64)).frame == f as u64 by {
                assert(self.store.has_frame(f as u64));
                if f < oldc {
                    lemma_distinct_slots(f, oldc, PREDICTION_WINDOW as int);
                    assert(old_self.store.has_frame(f as u64));
                    assert(old_self.store.model_at(f as u64).frame == f as u64);
                }
            }
            // The remote input consumed for the new frame: the confirmed one
            // when it had arrived, else the held-last prediction.
            if old_self.remote.confirmed_up_to() > oldc {
                assert(self.remote.inputs()[oldc] == old_self.remote.inputs()[oldc]);
            } else {
                assert(old_self.remote.inputs().len() == oldc);
                assert(self.remote.inputs()[oldc] == old_self.remote.spec_predict());
            }
            // Re-establish the invariant piece by piece.
            assert(self.local_handle <= 1);
            assert(self.initial@.frame == 0);
            assert(self.local.wf());
            assert(self.remote.wf());
            assert(self.local.confirmed_up_to() == self.local.inputs().len());
            assert(self.local.inputs().len() == self.current() + INPUT_DELAY);
            assert(self.current() + INPUT_DELAY <= usize::MAX);
            assert(self.current() <= self.remote.inputs().len() <= self.current() + 1);
            assert(self.remote.inputs().len() > self.current()
                ==> self.remote.confirmed_up_to() == self.remote.inputs().len());
            assert(forall|k: int|
                self.remote.confirmed_up_to() <= k < self.remote.inputs().len()
                    ==> self.remote.inputs()[k] == self.remote.spec_predict());
            assert(self.current() <= self.remote.confirmed_up_to() + PREDICTION_WINDOW);
            assert(self.history@.len() == self.current());
            assert(forall|f: int|
                0 <= f < self.current() ==> #[trigger] self.history@[f] == self.pair_at(f));
            assert(self.world.frame == self.current as u64);
            assert(self.world@ == spec_run(self.initial@, self.used()));
            assert(self.store.wf());
            assert(self.store.capacity() == PREDICTION_WINDOW as int);
            assert(self.wf());
        }
        AdvanceOutcome::Advanced
    }

    /// A remote peer's real input for `frame` arrived. In frame order it is
    /// recorded as confirmed; if it contradicts the prediction the simulation
    /// already used, the engine rewrites the speculative tail to the new
    /// held-last prediction, restores the snapshot of the contradicted frame,
    /// and replays forward — afterwards the world equals the run that had
    /// known the real input from the start.
    #[verifier::rlimit(100)]
    #[verifier::spinoff_prover]
    fn confirm(&mut self, frame: usize, input: u8) -> (r: ConfirmOutcome)
        requires
            old(self).wf(),
        ensures
            final(self).wf(),
            final(self).local_handle() == old(self).local_handle(),
            final(self).initial_model() == old(self).initial_model(),
            final(self).current() == old(self).current(),
            final(self).local_inputs() == old(self).local_inputs(),
            frame > old(self).current() ==> r == ConfirmOutcome::TooFarAhead && *final(self)
                == *old(self),
            frame <= old(self).current() && frame < old(self).confirmed() ==> r
                == ConfirmOutcome::Duplicate && *final(self) == *old(self),
            frame <= old(self).current() && frame > old(self).confirmed() ==> r
                == ConfirmOutcome::OutOfOrder && *final(self) == *old(self),
            frame <= old(self).current() && frame == old(self).confirmed() ==> {
                &&& r == (ConfirmOutcome::Applied {
                    rolled_back: frame < old(self).current() && old(self).remote_inputs()[frame as int] != input,
                })
                &&& final(self).confirmed() == frame + 1
                &&& forall|k: int|
                    0 <= k < frame ==> final(self).remote_inputs()[k] == old(self).remote_inputs()[k]
                &&& forall|k: int|
                    frame <= k < final(self).remote_inputs().len() ==> final(self).remote_inputs()[k]
                        == input
                &&& final(self).remote_inputs().len() >= frame + 1
                &&& final(self).used().len() == old(self).used().len()
                &&& final(self).world_model() == spec_run(
                    final(self).initial_model(),
                    final(self).used(),
                )
                &&& frame == old(self).current() ==> *final(self) == (EngineCore {
                    remote: final(self).remote,
                    ..*old(self)
                })
            },
    {
        if frame > self.current {
            return ConfirmOutcome::TooFarAhead;
        }
        proof {
            self.remote.lemma_wf_bounds();
            self.local.lemma_wf_bounds();
        }
        let ghost old_self = *self;
        let outcome = self.remote.record_remote(frame, input);
        match outcome {
            RecordOutcome::Duplicate => ConfirmOutcome::Duplicate,
            RecordOutcome::OutOfOrder => ConfirmOutcome::OutOfOrder,
            RecordOutcome::Accepted { mispredicted } => {
                if frame == self.current {
                    // The input arrived before the frame was simulated:
                    // recorded as confirmed ahead of time, nothing to redo.
                    proof {
                        assert(old_self.remote.inputs().len() == frame);
                        assert forall|f: int| 0 <= f < self.current() implies #[trigger] self.history@[f]
                            == self.pair_at(f) by {
                            assert(old_self.history@[f] == old_self.pair_at(f));
                            assert(self.remote.inputs()[f] == old_self.remote.inputs()[f]);
                        }
                        assert forall|f: int|
                            0 <= f < self.current() && self.current() - PREDICTION_WINDOW
                                <= f implies #[trigger] self.store.has_frame(f as u64) by {
                            assert(old_self.store.has_frame(f as u64));
                        }
                        assert forall|f: int|
                            0 <= f < self.current() && self.current() - PREDICTION_WINDOW
                                <= f implies #[trigger] self.store.model_at(f as u64) == spec_run(
                            self.initial@,
                            self.used().take(f),
                        ) by {
                            assert(old_self.store.has_frame(f as u64));
                            assert(old_self.store.model_at(f as u64) == spec_run(
                                old_self.initial@,
                                old_self.used().take(f),
                            ));
                        }
                        assert forall|f: int|
                            0 <= f < self.current() && self.current() - PREDICTION_WINDOW
                                <= f implies (#[trigger] self.store.model_at(f as u64)).frame
                            == f as u64 by {
                            assert(old_self.store.has_frame(f as u64));
                            assert(old_self.store.model_at(f as u64).frame == f as u64);
                        }
                        assert(self.local_handle <= 1);
                        assert(self.initial@.frame == 0);
                        assert(self.local.wf());
                        assert(self.remote.wf());
                        assert(self.local.confirmed_up_to() == self.local.inputs().len());
                        assert(self.local.inputs().len() == self.current() + INPUT_DELAY);
                        assert(self.current() + INPUT_DELAY <= usize::MAX);
                        assert(self.current() <= self.remote.inputs().len() <= self.current() + 1);
                        assert(self.remote.inputs().len() > self.current()
                            ==> self.remote.confirmed_up_to() == self.remote.inputs().len());
                        assert(forall|k: int|
                            self.remote.confirmed_up_to() <= k < self.remote.inputs().len()
                                ==> self.remote.inputs()[k] == self.remote.spec_predict());
                        assert(self.current() <= self.remote.confirmed_up_to() + PREDICTION_WINDOW);
                        assert(self.history@.len() == self.current());
                        assert(self.world.frame == self.current as u64);
                        assert(self.world@ == spec_run(self.initial@, self.used()));
                        assert(self.store.wf());
                        assert(self.store.capacity() == PREDICTION_WINDOW as int);
                        assert(self.wf());
                    }
                    ConfirmOutcome::Applied { rolled_back: false }
                } else if !mispredicted {
                    // The prediction was right: the recorded value is already
                    // the real one, so the simulated frames all stand.
                    proof {
                        assert(old_self.remote.inputs()[frame as int] == input);
                        assert(self.remote.inputs() =~= old_self.remote.inputs());
                        assert forall|k: int|
                            self.remote.confirmed_up_to() <= k
                                < self.remote.inputs().len() implies self.remote.inputs()[k]
                            == self.remote.spec_predict() by {
                            assert(old_self.remote.inputs()[k] == old_self.remote.spec_predict());
                            assert(old_self.remote.inputs()[frame as int]
                                == old_self.remote.spec_predict());
                        }
                        assert forall|f: int| 0 <= f < self.current() implies #[trigger] self.history@[f]
                            == self.pair_at(f) by {
                            assert(old_self.history@[f] == old_self.pair_at(f));
                            assert(self.remote.inputs()[f] == old_self.remote.inputs()[f]);
                        }
                        assert forall|f: int|
                            0 <= f < self.current() && self.current() - PREDICTION_WINDOW
                                <= f implies #[trigger] self.store.has_frame(f as u64) by {
                            assert(old_self.store.has_frame(f as u64));
                        }
                        assert forall|f: int|
                            0 <= f < self.current() && self.current() - PREDICTION_WINDOW
                                <= f implies #[trigger] self.store.model_at(f as u64) == spec_run(
                            self.initial@,
                            self.used().take(f),
                        ) by {
                            assert(old_self.store.has_frame(f as u64));
                            assert(old_self.store.model_at(f as u64) == spec_run(
                                old_self.initial@,
                                old_self.used().take(f),
                            ));
                        }
                        assert forall|f: int|
                            0 <= f < self.current() && self.current() - PREDICTION_WINDOW
                                <= f implies (#[trigger] self.store.model_at(f as u64)).frame
                            == f as u64 by {
                            assert(old_self.store.has_frame(f as u64));
                            assert(old_self.store.model_at(f as u64).frame == f as u64);
                        }
                        assert(self.local_handle <= 1);
                        assert(self.initial@.frame == 0);
                        assert(self.local.wf());
                        assert(self.remote.wf());
                        assert(self.local.confirmed_up_to() == self.local.inputs().len());
                        assert(self.local.inputs().len() == self.current() + INPUT_DELAY);
                        assert(self.current() + INPUT_DELAY <= usize::MAX);
                        assert(self.current() <= self.remote.inputs().len() <= self.current() + 1);
                        assert(self.remote.inputs().len() > self.current()
                            ==> self.remote.confirmed_up_to() == self.remote.inputs().len());
                        assert(forall|k: int|
                            self.remote.confirmed_up_to() <= k < self.remote.inputs().len()
                                ==> self.remote.inputs()[k] == self.remote.spec_predict());
                        assert(self.current() <= self.remote.confirmed_up_to() + PREDICTION_WINDOW);
                        assert(self.history@.len() == self.current());
                        assert(self.world.frame == self.current as u64);
                        assert(self.world@ == spec_run(self.initial@, self.used()));
                        assert(self.store.wf());
                        assert(self.store.capacity() == PREDICTION_WINDOW as int);
                        assert(self.wf());
                    }
                    ConfirmOutcome::Applied { rolled_back: false }
                } else {
                    self.rollback_and_replay(frame, input, Ghost(old_self));
                    ConfirmOutcome::Applied { rolled_back: true }
                }
            },
        }
    }

    /// The rewind-and-replay path of `confirm`, entered after the lane has
    /// confirmed `input` for `frame` against a differing prediction: rewrite
    /// the speculative tail to the corrected held-last prediction, restore
    /// the contradicted frame's snapshot, and re-simulate up to the present.
    #[verifier::rlimit(100)]
    #[verifier::spinoff_prover]
    fn rollback_and_replay(&mut self, frame: usize, input: u8, Ghost(prior): Ghost<EngineCore>)
        requires
            prior.wf(),
            frame < prior.current(),
            frame == prior.confirmed(),
            old(self).world == prior.world,
            old(self).store == prior.store,
            old(self).local == prior.local,
            old(self).local_handle == prior.local_handle,
            old(self).current == prior.current,
            old(self).initial == prior.initial,
            old(self).history == prior.history,
            old(self).remote.wf(),
            old(self).remote.inputs() == prior.remote.inputs().update(frame as int, input),
            old(self).remote.confirmed_up_to() == frame + 1,
        ensures
            final(self).wf(),
            final(self).local_handle() == prior.local_handle(),
            final(self).initial_model() == prior.initial_model(),
            final(self).current() == prior.current(),
            final(self).local_inputs() == prior.local_inputs(),
            final(self).confirmed() == frame + 1,
            final(self).remote_inputs().len() == prior.remote_inputs().len(),
            forall|k: int|
                0 <= k < frame ==> final(self).remote_inputs()[k] == prior.remote_inputs()[k],
            forall|k: int|
                frame <= k < final(self).remote_inputs().len() ==> final(self).remote_inputs()[k]
                    == input,
            final(self).used().len() == prior.used().len(),
            final(self).world_model() == spec_run(final(self).initial_model(), final(self).used()),
    {
        proof {
            prior.remote.lemma_wf_bounds();
            prior.local.lemma_wf_bounds();
            // A speculative slot existed at `frame`, so the lane cannot have
            // been confirmed ahead: it ends exactly at the present frame.
            assert(prior.remote.inputs().len() == prior.current());
        }
        let current = self.current;
        let ghost after_record = *self;
        // Rewrite the speculative tail: with `frame` the newest confirmed
        // frame, the held-last prediction for every later frame is `input`.
        let mut j = frame + 1;
        while j < current
            invariant
                frame + 1 <= j <= current,
                current == self.current,
                self.current == prior.current,
                self.world == prior.world,
                self.store == prior.store,
                self.local == prior.local,
                self.local_handle == prior.local_handle,
                self.initial == prior.initial,
                self.history == prior.history,
                frame < prior.current(),
                self.remote.wf(),
                self.remote.confirmed_up_to() == frame + 1,
                self.remote.inputs().len() == prior.remote.inputs().len(),
                prior.remote.inputs().len() == prior.current(),
                forall|k: int|
                    0 <= k < self.remote.inputs().len() && !(frame < k < j)
                        ==> self.remote.inputs()[k] == after_record.remote.inputs()[k],
                forall|k: int| frame < k < j ==> self.remote.inputs()[k] == input,
            decreases current - j,
        {
            self.remote.set_predicted(j, input);
            j += 1;
        }
        proof {
            assert(after_record.remote.inputs() == prior.remote.inputs().update(
                frame as int,
                input,
            ));
            assert(frame < prior.remote.inputs().len());
            assert(self.remote.inputs()[frame as int] == after_record.remote.inputs()[frame as int]);
            assert(self.remote.inputs()[frame as int] == input);
            assert forall|k: int| 0 <= k < frame implies self.remote.inputs()[k]
                == prior.remote.inputs()[k] by {
                assert(self.remote.inputs()[k] == after_record.remote.inputs()[k]);
            }
        }
        // Refresh the record of the inputs each simulated frame now uses.
        self.history = Ghost(Seq::new(self.current as nat, |f: int| self.pair_at(f)));
        proof {
            // Below the contradicted frame nothing changed, so the history
            // prefix — and with it every older snapshot — is still right.
            assert forall|k: int| 0 <= k < frame implies self.history@[k] == prior.history@[k] by {
                assert(prior.history@[k] == prior.pair_at(k));
            }
            assert(self.history@.take(frame as int) =~= prior.history@.take(frame as int));
            assert(prior.store.has_frame(frame as u64));
            assert(prior.store.model_at(frame as u64) == spec_run(
                prior.initial@,
                prior.history@.take(frame as int),
            ));
        }
        // Restore the snapshot of the contradicted frame. It is in the ring:
        // back-pressure keeps the present within the window of the last
        // confirmed frame, which this one had been.
        let restored = self.store.restore(frame as u64);
        let ghost fixed = *self;
        match restored {
            Some(w) => {
                self.world = w;
            },
            None => {
                proof {
                    assert(false);
                }
                return ;
            },
        }
        proof {
            // The window facts carried over from before the rewind: every
            // frame at or below the contradicted one still has its valid
            // snapshot, and the rest keep at least their slot.
            assert(prior.store.model_at(frame as u64).frame == frame as u64);
            assert forall|f: int|
                0 <= f < prior.current() && prior.current() - PREDICTION_WINDOW
                    <= f implies #[trigger] self.store.has_frame(f as u64) by {
                assert(prior.store.has_frame(f as u64));
            }
            assert forall|f: int|
                0 <= f < prior.current() && prior.current() - PREDICTION_WINDOW <= f implies (
            #[trigger] self.store.model_at(f as u64)).frame == f as u64 by {
                assert(prior.store.has_frame(f as u64));
                assert(prior.store.model_at(f as u64).frame == f as u64);
            }
            assert forall|f: int|
                0 <= f < prior.current() && prior.current() - PREDICTION_WINDOW <= f && f
                    <= frame implies #[trigger] self.store.model_at(f as u64) == spec_run(
                self.initial@,
                self.history@.take(f),
            ) by {
                assert(prior.store.has_frame(f as u64));
                assert(prior.store.model_at(f as u64) == spec_run(
                    prior.initial@,
                    prior.history@.take(f),
                ));
                assert(self.history@.take(f) =~= prior.history@.take(f));
            }
        }
        // Replay forward: the exact same step function, one frame at a time,
        // overwriting each frame's snapshot with the corrected world.
        let mut j = frame;
        while j < current
            invariant
                frame <= j <= current,
                current == self.current,
                self.current == prior.current,
                self.local == prior.local,
                self.local_handle == prior.local_handle,
                self.initial == prior.initial,
                self.remote == fixed.remote,
                self.history == fixed.history,
                prior.wf(),
                frame < prior.current(),
                frame == prior.confirmed(),
                self.remote.wf(),
                self.remote.confirmed_up_to() == frame + 1,
                self.remote.inputs().len() == prior.current(),
                self.local.inputs().len() == prior.current() + INPUT_DELAY,
                prior.current() + INPUT_DELAY <= usize::MAX,
                self.history@.len() == prior.current(),
                forall|k: int|
                    0 <= k < prior.current() ==> #[trigger] self.history@[k] == self.pair_at(k),
                forall|k: int|
                    0 <= k < frame ==> self.remote.inputs()[k] == prior.remote.inputs()[k],
                forall|k: int|
                    frame <= k < prior.current() ==> self.remote.inputs()[k] == input,
                self.history@.take(frame as int) =~= prior.history@.take(frame as int),
                self.world@ == spec_run(self.initial@, self.history@.take(j as int)),
                self.world.frame == j as u64,
                self.initial@.frame == 0,
                self.store.wf(),
                self.store.capacity() == PREDICTION_WINDOW as int,
                forall|f: int|
                    0 <= f < prior.current() && prior.current() - PREDICTION_WINDOW <= f
                        ==> #[trigger] self.store.has_frame(f as u64),
                forall|f: int|
                    0 <= f < prior.current() && prior.current() - PREDICTION_WINDOW <= f ==> (
                    #[trigger] self.store.model_at(f as u64)).frame == f as u64,
                forall|f: int|
                    0 <= f < prior.current() && prior.current() - PREDICTION_WINDOW <= f && (f
                        <= frame || f < j) ==> #[trigger] self.store.model_at(f as u64)
                        == spec_run(self.initial@, self.history@.take(f)),
            decreases current - j,
        {
            let i_local = self.local.input_at(j);
            let i_remote = self.remote.input_at(j);
            let (i0, i1) = if self.local_handle == 0 {
                (i_local, i_remote)
            } else {
                (i_remote, i_local)
            };
            proof {
                assert(self.history@[j as int] == self.pair_at(j as int));
                assert(self.history@[j as int] == (i0, i1));
            }
            self.store.save(j as u64, &self.world);
            let ghost mid = *self;
            step(&mut self.world, i0, i1);
            proof {
                assert(self.history@.take(j + 1).drop_last() =~= self.history@.take(j as int));
                assert(self.history@.take(j + 1).last() == (i0, i1));
                assert(self.world@ == spec_run(self.initial@, self.history@.take(j + 1)));
                assert forall|f: int|
                    0 <= f < prior.current() && prior.current() - PREDICTION_WINDOW
                        <= f implies #[trigger] self.store.has_frame(f as u64) by {
                    if f != j {
                        lemma_distinct_slots(f, j as int, PREDICTION_WINDOW as int);
                        assert(mid.store.has_frame(f as u64));
                    }
                }
                assert forall|f: int|
                    0 <= f < prior.current() && prior.current() - PREDICTION_WINDOW <= f implies (
                #[trigger] self.store.model_at(f as u64)).frame == f as u64 by {
                    if f != j {
                        lemma_distinct_slots(f, j as int, PREDICTION_WINDOW as int);
                        assert(mid.store.has_frame(f as u64));
                        assert(mid.store.model_at(f as u64).frame == f as u64);
                    }
                }
                assert forall|f: int|
                    0 <= f < prior.current() && prior.current() - PREDICTION_WINDOW <= f && (f
                        <= frame || f < j + 1) implies #[trigger] self.store.model_at(f as u64)
                    == spec_run(self.initial@, self.history@.take(f)) by {
                    if f != j {
                        lemma_distinct_slots(f, j as int, PREDICTION_WINDOW as int);
                        assert(mid.store.has_frame(f as u64));
                        assert(mid.store.model_at(f as u64) == spec_run(
                            self.initial@,
                            self.history@.take(f),
                        ));
                    }
                }
            }
            j += 1;
        }
        proof {
            assert(self.history@.take(prior.current()) =~= self.history@);
            assert(self.world@ == spec_run(self.initial@, self.history@));
            // Re-establish the invariant piece by piece.
            assert(self.local_handle <= 1);
            assert(self.local.wf());
            assert(self.local.confirmed_up_to() == self.local.inputs().len());
            assert(self.current() <= self.remote.inputs().len() <= self.current() + 1);
            assert forall|k: int|
                self.remote.confirmed_up_to() <= k
                    < self.remote.inputs().len() implies self.remote.inputs()[k]
                == self.remote.spec_predict() by {
                assert(self.remote.inputs()[frame as int] == input);
                assert(self.remote.inputs()[k] == input);
            }
            assert(self.current() <= self.remote.confirmed_up_to() + PREDICTION_WINDOW);
            assert(self.history@.len() == self.current());
            assert(self.world.frame == self.current as u64);
            assert(self.world@ == spec_run(self.initial@, self.used()));
            assert(self.store.wf());
            assert(self.store.capacity() == PREDICTION_WINDOW as int);
            assert forall|f: int|
                0 <= f < self.current() && self.current() - PREDICTION_WINDOW
                    <= f implies #[trigger] self.store.model_at(f as u64) == spec_run(
                self.initial@,
                self.used().take(f),
            ) by {
                assert(self.store.has_frame(f as u64));
            }
            assert(self.wf());
        }
    }
}

/// The rollback engine: advances the deterministic simulation one frame per
/// tick on confirmed local input and predicted remote input, snapshots every
/// frame, and on a misprediction rewinds to the contradicted frame and
/// replays forward with the corrected input. Its central invariant: the
/// current world always equals `spec_run` of the initial world over the
/// inputs currently on record.
pub struct RollbackEngine {
    phase: SessionPhase,
    core: EngineCore,
}

impl RollbackEngine {
    /// The lifecycle phase the engine is in.
    pub closed spec fn phase(self) -> SessionPhase {
        self.phase
    }

    /// The frame the simulation will run next; frames below it are simulated.
    pub closed spec fn current(self) -> int {
        self.core.current()
    }

    /// Remote frames below this have their peer's real input; at or above it
    /// the engine is speculating.
    pub closed spec fn confirmed(self) -> int {
        self.core.confirmed()
    }

    /// Which player the local peer controls.
    pub closed spec fn local_handle(self) -> int {
        self.core.local_handle()
    }

    /// The world the session started from.
    pub closed spec fn initial_model(self) -> WorldModel {
        self.core.initial_model()
    }

    /// The model of the current world.
    pub closed spec fn world_model(self) -> WorldModel {
        self.core.world_model()
    }

    /// The local player's input on record for each frame (always confirmed;
    /// entries beyond `current` cover the input delay).
    pub closed spec fn local_inputs(self) -> Seq<u8> {
        self.core.local_inputs()
    }

    /// The remote player's input on record for each frame, real or predicted.
    pub closed spec fn remote_inputs(self) -> Seq<u8> {
        self.core.remote_inputs()
    }

    /// The hold-last-input prediction the engine would use next.
    pub closed spec fn predicted(self) -> u8 {
        self.core.predicted()
    }

    /// The inputs the simulated frames actually used, in frame order.
    pub closed spec fn used(self) -> Seq<(u8, u8)> {
        self.core.used()
    }

    /// Advancing is refused while the prediction window is exhausted — or,
    /// at the machine's limit, when the frame counter cannot grow.
    pub open spec fn stalled(self) -> bool {
        self.current() >= self.confirmed() + PREDICTION_WINDOW || self.current() + INPUT_DELAY
            >= usize::MAX
    }

    /// The engine's invariant; every public operation preserves it.
    pub closed spec fn wf(self) -> bool {
        self.core.wf()
    }

    /// A fresh synchronized session over the agreed world seed. The local
    /// lane is pre-filled with the input delay's worth of neutral inputs, as
    /// both peers' first delayed inputs have nothing earlier to cover.
    pub fn new(seed: u64, local_handle: usize) -> (r: RollbackEngine)
        requires
            local_handle <= 1,
        ensures
            r.wf(),
            r.phase() == SessionPhase::Running,
            r.current() == 0,
            r.confirmed() == 0,
            r.local_handle() == local_handle,
            r.initial_model() == World::spec_initial(seed),
            r.world_model() == World::spec_initial(seed),
            r.used() =~= Seq::<(u8, u8)>::empty(),
            r.remote_inputs() =~= Seq::<u8>::empty(),
            r.local_inputs().len() == INPUT_DELAY,
            forall|k: int| 0 <= k < INPUT_DELAY ==> r.local_inputs()[k] == 0u8,
            r.predicted() == 0,
    {
        RollbackEngine { phase: SessionPhase::Running, core: EngineCore::new(seed, local_handle) }
    }

    /// The world as currently simulated, for rendering; prediction may still
    /// be corrected by a later rollback.
    pub fn current_world(&self) -> (r: &World)
        ensures
            r@ == self.world_model(),
    {
        &self.core.world
    }

    /// The frame the next `advance` will simulate.
    pub fn current_frame(&self) -> (r: usize)
        ensures
            r == self.current(),
    {
        self.core.current
    }

    /// The lowest frame whose remote input is still speculative.
    pub fn confirmed_frame(&self) -> (r: usize)
        ensures
            r == self.confirmed(),
    {
        self.core.remote.confirmed_len()
    }

    /// The lifecycle phase the engine is in.
    pub fn session_phase(&self) -> (r: SessionPhase)
        ensures
            r == self.phase(),
    {
        self.phase
    }

    /// The transport reported the peer gone: terminal, no further frames.
    pub fn on_peer_disconnected(&mut self)
        requires
            old(self).wf(),
        ensures
            final(self).wf(),
            final(self).phase() == spec_transition(old(self).phase(), SessionEvent::PeerLost),
            final(self).world_model() == old(self).world_model(),
            final(self).used() == old(self).used(),
    {
        let (next, _action) = transition(self.phase, SessionEvent::PeerLost);
        self.phase = next;
    }

    /// A peer reported a checksum mismatch of shared state: fatal for the
    /// session.
    pub fn report_desync(&mut self)
        requires
            old(self).wf(),
        ensures
            final(self).wf(),
            final(self).phase() == spec_transition(old(self).phase(), SessionEvent::DesyncDetected),
            final(self).world_model() == old(self).world_model(),
            final(self).used() == old(self).used(),
    {
        let (next, _action) = transition(self.phase, SessionEvent::DesyncDetected);
        self.phase = next;
    }

    /// One tick of steady-state play: records the local input (it takes
    /// effect after the input delay), substitutes the held-last prediction
    /// for a missing remote input, snapshots the world, and advances one
    /// frame. Exceeding the prediction window stalls with `BackPressure`
    /// instead of dropping frames.
    pub fn advance_local_input(&mut self, local_input: u8) -> (r: AdvanceOutcome)
        requires
            old(self).wf(),
        ensures
            final(self).wf(),
            final(self).phase() == old(self).phase(),
            final(self).local_handle() == old(self).local_handle(),
            final(self).initial_model() == old(self).initial_model(),
            old(self).phase() != SessionPhase::Running ==> r == AdvanceOutcome::NotRunning
                && *final(self) == *old(self),
            old(self).phase() == SessionPhase::Running && old(self).stalled() ==> r
                == AdvanceOutcome::BackPressure && *final(self) == *old(self),
            old(self).phase() == SessionPhase::Running && !old(self).stalled() ==> {
                &&& r == AdvanceOutcome::Advanced
                &&& final(self).current() == old(self).current() + 1
                &&& final(self).confirmed() == old(self).confirmed()
                &&& final(self).local_inputs() =~= old(self).local_inputs().push(local_input)
                &&& forall|k: int|
                    0 <= k < old(self).current() ==> final(self).used()[k] == old(self).used()[k]
                &&& final(self).remote_inputs()[old(self).current()] == (if old(self).confirmed()
                    > old(self).current() {
                    old(self).remote_inputs()[old(self).current()]
                } else {
                    old(self).predicted()
                })
                &&& final(self).world_model() == spec_run(
                    final(self).initial_model(),
                    final(self).used(),
                )
            },
    {
        if self.phase != SessionPhase::Running {
            return AdvanceOutcome::NotRunning;
        }
        self.core.advance(local_input)
    }

    /// A remote peer's real input for `frame` arrived (decoded from one wire
    /// byte). In frame order it is recorded as confirmed; if it contradicts
    /// the prediction already simulated, the engine rolls back to that frame
    /// and replays. Afterwards the world equals the deterministic run of the
    /// inputs now on record — the state that would have resulted from knowing
    /// the real input from the start.
    pub fn confirm_remote(&mut self, frame: usize, input: u8) -> (r: ConfirmOutcome)
        requires
            old(self).wf(),
        ensures
            final(self).wf(),
            final(self).phase() == old(self).phase(),
            final(self).local_handle() == old(self).local_handle(),
            final(self).initial_model() == old(self).initial_model(),
            final(self).current() == old(self).current(),
            final(self).local_inputs() == old(self).local_inputs(),
            old(self).phase() != SessionPhase::Running ==> r == ConfirmOutcome::NotRunning
                && *final(self) == *old(self),
            old(self).phase() == SessionPhase::Running ==> {
                &&& frame > old(self).current() ==> r == ConfirmOutcome::TooFarAhead && *final(self)
                    == *old(self)
                &&& frame <= old(self).current() && frame < old(self).confirmed() ==> r
                    == ConfirmOutcome::Duplicate && *final(self) == *old(self)
                &&& frame <= old(self).current() && frame > old(self).confirmed() ==> r
                    == ConfirmOutcome::OutOfOrder && *final(self) == *old(self)
                &&& frame <= old(self).current() && frame == old(self).confirmed() ==> {
                    &&& r == (ConfirmOutcome::Applied {
                        rolled_back: frame < old(self).current() && old(self).remote_inputs()[frame as int] != input,
                    })
                    &&& final(self).confirmed() == frame + 1
                    &&& forall|k: int|
                        0 <= k < frame ==> final(self).remote_inputs()[k]
                            == old(self).remote_inputs()[k]
                    &&& forall|k: int|
                        frame <= k < final(self).remote_inputs().len()
                            ==> final(self).remote_inputs()[k] == input
                    &&& final(self).remote_inputs().len() >= frame + 1
                    &&& final(self).used().len() == old(self).used().len()
                    &&& final(self).world_model() == spec_run(
                        final(self).initial_model(),
                        final(self).used(),
                    )
                }
            },
    {
        if self.phase != SessionPhase::Running {
            return ConfirmOutcome::NotRunning;
        }
        self.core.confirm(frame, input)
    }

    /// What `used()` holds, frame by frame: the input pair each simulated
    /// frame consumed, with the local player's lane in the slot of its
    /// handle. Together with the `spec_run` clause of `advance` and
    /// `confirm_remote`, this pins the current world down to the recorded
    /// inputs alone.
    pub proof fn lemma_used_matches_lanes(self)
        requires
            self.wf(),
        ensures
            self.used().len() == self.current(),
            forall|f: int|
                0 <= f < self.current() ==> #[trigger] self.used()[f] == (if self.local_handle()
                    == 0 {
                    (self.local_inputs()[f], self.remote_inputs()[f])
                } else {
                    (self.remote_inputs()[f], self.local_inputs()[f])
                }),
            0 <= self.local_handle() <= 1,
    {
        assert forall|f: int| 0 <= f < self.current() implies #[trigger] self.used()[f] == (if self
            .local_handle() == 0 {
            (self.local_inputs()[f], self.remote_inputs()[f])
        } else {
            (self.remote_inputs()[f], self.local_inputs()[f])
        }) by {
            assert(self.core.history@[f] == self.core.pair_at(f));
        }
    }
}

/// Two distinct frames within one window of each other never share a ring
/// slot.
proof fn lemma_distinct_slots(f: int, g: int, m: int)
    requires
        0 < m,
        f != g,
        g - m < f < g + m,
    ensures
        f % m != g % m,
{
    if f > g {
        vstd::arithmetic::div_mod::lemma_mod_equivalence(f, g, m);
        vstd::arithmetic::div_mod::lemma_small_mod((f - g) as nat, m as nat);
    } else {
        vstd::arithmetic::div_mod::lemma_mod_equivalence(g, f, m);
        vstd::arithmetic::div_mod::lemma_small_mod((g - f) as nat, m as nat);
    }
}

} // verus!
