use vstd::prelude::*;

use crate::picture::resolution::Resolution;

use super::error::VmafError;
use super::status::VmafStatus;
use super::validate_frame_pair;

verus! {

/// The next native step of a scoring run.
#[derive(Debug, Clone, Copy, PartialEq, Eq, Structural)]
pub enum RunAction {
    /// Read the frame pair at this index.
    ReadPair(u32),
    /// Send the end-of-stream signal.
    Flush,
    /// Read the score of the frame at this index.
    GetScore(u32),
    /// The run is over.
    Done,
}

impl RunAction {
    /// The progress report that completing this step makes.
    pub open spec fn spec_status(&self) -> Option<VmafStatus> {
        match self {
            RunAction::ReadPair(_) => Some(VmafStatus::Decode),
            RunAction::GetScore(_) => Some(VmafStatus::GetScore),
            _ => None,
        }
    }

    pub fn status(&self) -> (r: Option<VmafStatus>)
        ensures
            r == self.spec_status(),
    {
        match self {
            RunAction::ReadPair(_) => Some(VmafStatus::Decode),
            RunAction::GetScore(_) => Some(VmafStatus::GetScore),
            _ => None,
        }
    }
}

/// Step `step` of a run over `frames` frame pairs: every pair in order, then
/// one flush, then every score in order.
pub open spec fn action_at(frames: nat, step: nat) -> RunAction {
    if step < frames {
        RunAction::ReadPair(step as u32)
    } else if step == frames {
        RunAction::Flush
    } else if step <= 2 * frames {
        RunAction::GetScore((step - frames - 1) as u32)
    } else {
        RunAction::Done
    }
}

/// The decisions of scoring a whole reference sequence against a distorted
/// one: which native step comes next, given how many have completed and
/// whether one has failed. A failed step ends the run with that step's error,
/// so no error is passed over and no partial list of scores comes out.
pub struct ScoreRun {
    frames: u32,
    step: u64,
    failed: bool,
}

impl ScoreRun {
    pub closed spec fn spec_frames(&self) -> nat {
        self.frames as nat
    }

    /// How many steps have completed.
    pub closed spec fn spec_step(&self) -> nat {
        self.step as nat
    }

    /// A step of the run has failed.
    pub closed spec fn spec_failed(&self) -> bool {
        self.failed
    }

    pub closed spec fn wf(&self) -> bool {
        self.step <= 2 * self.frames + 1
    }

    /// The step to take now: none once a step has failed.
    pub open spec fn spec_next(&self) -> RunAction {
        if self.spec_failed() {
            RunAction::Done
        } else {
            action_at(self.spec_frames(), self.spec_step())
        }
    }

    /// Every step completed: each pair was read, the session flushed, and
    /// each score read.
    pub open spec fn spec_succeeded(&self) -> bool {
        !self.spec_failed() && self.spec_step() > 2 * self.spec_frames()
    }

    /// Starts a run once the two sequences have been checked against each
    /// other, before any native call: differing frame counts are
    /// `MismatchedFrameCount`, then differing resolutions `MismatchedResolution`.
    pub fn new(
        reference_frames: usize,
        distorted_frames: usize,
        reference: &Resolution,
        distorted: &Resolution,
    ) -> (r: Result<ScoreRun, VmafError>)
        requires
            reference_frames == distorted_frames ==> reference_frames <= u32::MAX,
        ensures
            r is Ok <==> (reference_frames == distorted_frames && *reference == *distorted),
            reference_frames != distorted_frames ==> r == Err::<ScoreRun, VmafError>(
                VmafError::MismatchedFrameCount(reference_frames, distorted_frames),
            ),
            reference_frames == distorted_frames && *reference != *distorted ==> r == Err::<
                ScoreRun,
                VmafError,
            >(VmafError::MismatchedResolution(*reference, *distorted)),
            r matches Ok(run) ==> run.wf() && run.spec_frames() == reference_frames
                && run.spec_step() == 0 && !run.spec_failed(),
    {
        match validate_frame_pair(reference, distorted, reference_frames, distorted_frames) {
            Ok(()) => Ok(ScoreRun { frames: reference_frames as u32, step: 0, failed: false }),
            Err(e) => Err(e),
        }
    }

    /// How many frame pairs the run scores.
    pub fn frames(&self) -> (r: u32)
        ensures
            r == self.spec_frames(),
    {
        self.frames
    }

    /// The step to take now.
    pub fn next_action(&self) -> (r: RunAction)
        requires
            self.wf(),
        ensures
            r == self.spec_next(),
    {
        if self.failed {
            RunAction::Done
        } else if self.step < self.frames as u64 {
            RunAction::ReadPair(self.step as u32)
        } else if self.step == self.frames as u64 {
            RunAction::Flush
        } else if self.step <= 2 * (self.frames as u64) {
            RunAction::GetScore((self.step - self.frames as u64 - 1) as u32)
        } else {
            RunAction::Done
        }
    }

    /// Records the outcome of the current step and hands it back. Success
    /// moves the run to its next step (a finished run stays finished); a
    /// failure ends the run, so no further step is taken and the run never
    /// counts as succeeded.
    pub fn complete(&mut self, outcome: Result<(), VmafError>) -> (r: Result<(), VmafError>)
        requires
            old(self).wf(),
        ensures
            r == outcome,
            final(self).wf(),
            final(self).spec_frames() == old(self).spec_frames(),
            old(self).spec_failed() ==> final(self).spec_failed(),
            outcome is Err ==> final(self).spec_failed() && final(self).spec_next() == RunAction::Done,
            outcome is Ok ==> final(self).spec_failed() == old(self).spec_failed(),
            outcome is Ok && !old(self).spec_failed() && old(self).spec_step() <= 2 * old(
                self,
            ).spec_frames() ==> final(self).spec_step() == old(self).spec_step() + 1,
            outcome is Ok && (old(self).spec_failed() || old(self).spec_step() > 2 * old(
                self,
            ).spec_frames()) ==> final(self).spec_step() == old(self).spec_step(),
    {
        if outcome.is_ok() {
            if !self.failed && self.step <= 2 * (self.frames as u64) {
                self.step = self.step + 1;
            }
        } else {
            self.failed = true;
        }
        outcome
    }

    /// Whether every step completed; only then are the scores complete.
    pub fn succeeded(&self) -> (r: bool)
        ensures
            r == self.spec_succeeded(),
    {
        !self.failed && self.step > 2 * (self.frames as u64)
    }
}

/// A run reads every frame pair, in index order, before anything else; it
/// flushes exactly once, right after the last pair; it reads every score, in
/// index order, only after that flush; and then it is done.
pub proof fn lemma_run_order(frames: nat, step: nat)
    requires
        frames <= u32::MAX,
    ensures
        step < frames ==> action_at(frames, step) == RunAction::ReadPair(step as u32),
        action_at(frames, step) == RunAction::Flush <==> step == frames,
        action_at(frames, step) is GetScore ==> frames < step && action_at(frames, frames)
            == RunAction::Flush,
        frames < step <= 2 * frames ==> action_at(frames, step) == RunAction::GetScore(
            (step - frames - 1) as u32,
        ),
        action_at(frames, step) is ReadPair ==> step < frames,
        step > 2 * frames ==> action_at(frames, step) == RunAction::Done,
{
}

/// Every frame index of a run is both read and scored: index `i` is read at
/// step `i` and its score retrieved at step `frames + 1 + i`, after the flush.
pub proof fn lemma_every_index_scored(frames: nat, i: nat)
    requires
        frames <= u32::MAX,
        i < frames,
    ensures
        action_at(frames, i) == RunAction::ReadPair(i as u32),
        action_at(frames, frames + 1 + i) == RunAction::GetScore(i as u32),
        i < frames < frames + 1 + i,
{
}

} // verus!
