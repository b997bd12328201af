use vstd::prelude::*;

verus! {

/// Whether a stored input is the peer's real choice or a stand-in guess.
#[derive(Clone, Copy, PartialEq, Eq, Structural, Debug)]
pub enum InputStatus {
    Predicted,
    Confirmed,
}

/// One recorded input for one frame of one peer.
#[derive(Clone, Copy, PartialEq, Eq, Structural, Debug)]
pub struct InputSlot {
    pub input: u8,
    pub status: InputStatus,
}

/// What became of a remote input report.
#[derive(Clone, Copy, PartialEq, Eq, Structural, Debug)]
pub enum RecordOutcome {
    /// The input is now confirmed; `mispredicted` says whether it differs
    /// from the predicted value the simulation already used for that frame.
    Accepted { mispredicted: bool },
    /// The frame was already confirmed; nothing changed.
    Duplicate,
    /// The report skips ahead of the next unconfirmed frame; nothing changed.
    /// Confirmations are applied in frame order.
    OutOfOrder,
}

/// One peer's input lane: the input used for every frame simulated so far,
/// with the confirmed frames forming a prefix. The local peer's lane is all
/// confirmed; a remote peer's lane ends in predicted slots that confirmations
/// later overwrite.
pub struct PeerLane {
    slots: Vec<InputSlot>,
    confirmed_up_to: usize,
}

impl PeerLane {
    /// The input recorded for each frame, confirmed or predicted.
    pub closed spec fn inputs(self) -> Seq<u8> {
        self.slots@.map_values(|s: InputSlot| s.input)
    }

    /// Frames below this are confirmed; frames at or above it are predicted.
    pub closed spec fn confirmed_up_to(self) -> int {
        self.confirmed_up_to as int
    }

    /// The confirmed frames form a prefix of the recorded frames.
    pub closed spec fn wf(self) -> bool {
        &&& self.confirmed_up_to <= self.slots@.len()
        &&& forall|f: int|
            0 <= f < self.slots@.len() ==> ((#[trigger] self.slots@[f]).status
                == InputStatus::Confirmed <==> f < self.confirmed_up_to)
    }

    /// The hold-last-input prediction: the most recently confirmed input, or
    /// the neutral input when nothing is confirmed yet.
    pub open spec fn spec_predict(self) -> u8 {
        if self.confirmed_up_to() == 0 {
            0u8
        } else {
            self.inputs()[self.confirmed_up_to() - 1]
        }
    }

    /// What well-formedness guarantees about the visible counters: the
    /// confirmed prefix never extends past the recorded frames.
    pub proof fn lemma_wf_bounds(self)
        requires
            self.wf(),
        ensures
            0 <= self.confirmed_up_to() <= self.inputs().len(),
    {
    }

    pub fn new() -> (r: PeerLane)
        ensures
            r.wf(),
            r.inputs() =~= Seq::<u8>::empty(),
            r.confirmed_up_to() == 0,
    {
        PeerLane { slots: Vec::new(), confirmed_up_to: 0 }
    }

    pub fn len(&self) -> (r: usize)
        ensures
            r == self.inputs().len(),
    {
        self.slots.len()
    }

    pub fn confirmed_len(&self) -> (r: usize)
        ensures
            r == self.confirmed_up_to(),
    {
        self.confirmed_up_to
    }

    pub fn input_at(&self, frame: usize) -> (r: u8)
        requires
            frame < self.inputs().len(),
        ensures
            r == self.inputs()[frame as int],
    {
        self.slots[frame].input
    }

    pub fn is_confirmed(&self, frame: usize) -> (r: bool)
        requires
            self.wf(),
            frame < self.inputs().len(),
        ensures
            r == (frame < self.confirmed_up_to()),
    {
        self.confirmed_up_to > frame
    }

    /// `predict(frame, peer)`: the speculative input to use for a frame whose
    /// real input has not arrived — the last confirmed input, held.
    pub fn predict(&self) -> (r: u8)
        requires
            self.wf(),
        ensures
            r == self.spec_predict(),
    {
        if self.confirmed_up_to == 0 {
            0
        } else {
            self.slots[self.confirmed_up_to - 1].input
        }
    }

    /// Records the local player's own input for the next frame; a local input
    /// is its peer's real choice, so it is always confirmed. Only a lane with
    /// no predicted tail may record this way.
    pub fn record_local(&mut self, input: u8)
        requires
            old(self).wf(),
            old(self).confirmed_up_to() == old(self).inputs().len(),
            old(self).inputs().len() < usize::MAX,
        ensures
            final(self).wf(),
            final(self).inputs() =~= old(self).inputs().push(input),
            final(self).confirmed_up_to() == old(self).confirmed_up_to() + 1,
    {
        self.slots.push(InputSlot { input, status: InputStatus::Confirmed });
        self.confirmed_up_to = self.confirmed_up_to + 1;
        proof {
            assert(self.slots@.map_values(|s: InputSlot| s.input) =~= old(
                self,
            ).slots@.map_values(|s: InputSlot| s.input).push(input));
        }
    }

    /// Appends a speculative input for the next frame the simulation is about
    /// to advance through; the engine uses `predict()`'s value here.
    pub fn record_predicted(&mut self, input: u8)
        requires
            old(self).wf(),
            old(self).inputs().len() < usize::MAX,
        ensures
            final(self).wf(),
            final(self).inputs() =~= old(self).inputs().push(input),
            final(self).confirmed_up_to() == old(self).confirmed_up_to(),
    {
        self.slots.push(InputSlot { input, status: InputStatus::Predicted });
        proof {
            assert(self.slots@.map_values(|s: InputSlot| s.input) =~= old(
                self,
            ).slots@.map_values(|s: InputSlot| s.input).push(input));
        }
    }

    /// Replaces the speculative input of a not-yet-confirmed frame during
    /// replay, when a fresh confirmation has changed the held-last prediction.
    pub fn set_predicted(&mut self, frame: usize, input: u8)
        requires
            old(self).wf(),
            old(self).confirmed_up_to() <= frame < old(self).inputs().len(),
        ensures
            final(self).wf(),
            final(self).inputs() =~= old(self).inputs().update(frame as int, input),
            final(self).confirmed_up_to() == old(self).confirmed_up_to(),
    {
        self.slots.set(frame, InputSlot { input, status: InputStatus::Predicted });
        proof {
            assert(self.slots@.map_values(|s: InputSlot| s.input) =~= old(
                self,
            ).slots@.map_values(|s: InputSlot| s.input).update(frame as int, input));
        }
    }

    /// Records a remote peer's real input for `frame`. Confirmations apply in
    /// frame order: a frame already confirmed is reported `Duplicate`, one
    /// beyond the next unconfirmed frame `OutOfOrder`, and in both cases the
    /// lane is unchanged. An accepted confirmation upgrades the frame's slot
    /// (or appends one) and says whether the value differs from the
    /// prediction the simulation already used — the misprediction signal.
    pub fn record_remote(&mut self, frame: usize, input: u8) -> (r: RecordOutcome)
        requires
            old(self).wf(),
            old(self).inputs().len() < usize::MAX,
        ensures
            final(self).wf(),
            frame < old(self).confirmed_up_to() ==> r == RecordOutcome::Duplicate && *final(self)
                == *old(self),
            frame > old(self).confirmed_up_to() ==> r == RecordOutcome::OutOfOrder && *final(self)
                == *old(self),
            frame == old(self).confirmed_up_to() ==> {
                &&& final(self).confirmed_up_to() == old(self).confirmed_up_to() + 1
                &&& (frame < old(self).inputs().len() ==> r == (RecordOutcome::Accepted {
                    mispredicted: old(self).inputs()[frame as int] != input,
                }) && final(self).inputs() =~= old(self).inputs().update(frame as int, input))
                &&& (frame == old(self).inputs().len() ==> r == (RecordOutcome::Accepted {
                    mispredicted: false,
                }) && final(self).inputs() =~= old(self).inputs().push(input))
            },
    {
        if frame < self.confirmed_up_to {
            RecordOutcome::Duplicate
        } else if frame > self.confirmed_up_to {
            RecordOutcome::OutOfOrder
        } else if frame < self.slots.len() {
            let previous = self.slots[frame].input;
            self.slots.set(frame, InputSlot { input, status: InputStatus::Confirmed });
            self.confirmed_up_to = self.confirmed_up_to + 1;
            proof {
                assert(self.slots@.map_values(|s: InputSlot| s.input) =~= old(
                    self,
                ).slots@.map_values(|s: InputSlot| s.input).update(frame as int, input));
            }
            RecordOutcome::Accepted { mispredicted: previous != input }
        } else {
            self.slots.push(InputSlot { input, status: InputStatus::Confirmed });
            self.confirmed_up_to = self.confirmed_up_to + 1;
            proof {
                assert(self.slots@.map_values(|s: InputSlot| s.input) =~= old(
                    self,
                ).slots@.map_values(|s: InputSlot| s.input).push(input));
            }
            RecordOutcome::Accepted { mispredicted: false }
        }
    }
}

} // verus!
