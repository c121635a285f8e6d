//! The steps of submitting one frame.
//!
//! Submitting a frame is work on the device and the surface, which the
//! registry does not do; what it decides is the order of the steps and when
//! to give a frame up. The caller's loop does the step a state names, tells
//! the state how the step ended, and goes on with the state that follows.

use vstd::prelude::*;

verus! {

/// One step of submitting a frame.
#[derive(Clone, Copy, Debug, PartialEq, Eq, Structural)]
pub enum FrameStep {
    /// Put the waiting colour on the device.
    Flush,
    /// Take the texture to draw to from the surface.
    Acquire,
    /// Record the registry's commands into a render pass.
    Record,
    /// Hand the recorded commands to the queue.
    Submit,
    /// Show the texture.
    Present,
}

/// Where the submission of a frame stands.
#[derive(Clone, Copy, Debug, PartialEq, Eq, Structural)]
pub enum FrameState {
    /// This step is to be done next.
    Doing(FrameStep),
    /// The frame is on the surface.
    Presented,
    /// This step failed and the frame was given up. Nothing of it was
    /// submitted, and the next frame can be tried as if there had been none.
    Abandoned(FrameStep),
}

impl FrameState {
    /// The state a frame starts in.
    pub fn start() -> (state: FrameState)
        ensures
            state == FrameState::Doing(FrameStep::Flush),
    {
        FrameState::Doing(FrameStep::Flush)
    }

    /// The state that follows when the step at hand has ended, well or not.
    /// The steps follow each other in the order flush, acquire, record,
    /// submit, present; a step that fails gives the frame up; a frame that is
    /// presented or given up stays so.
    pub open spec fn spec_advance(self, succeeded: bool) -> FrameState {
        match self {
            FrameState::Doing(step) => if !succeeded {
                FrameState::Abandoned(step)
            } else {
                match step {
                    FrameStep::Flush => FrameState::Doing(FrameStep::Acquire),
                    FrameStep::Acquire => FrameState::Doing(FrameStep::Record),
                    FrameStep::Record => FrameState::Doing(FrameStep::Submit),
                    FrameStep::Submit => FrameState::Doing(FrameStep::Present),
                    FrameStep::Present => FrameState::Presented,
                }
            },
            FrameState::Presented => FrameState::Presented,
            FrameState::Abandoned(step) => FrameState::Abandoned(step),
        }
    }

    /// The state that follows when the step at hand has ended, well or not.
    #[verifier::when_used_as_spec(spec_advance)]
    pub fn advance(self, succeeded: bool) -> (next: FrameState)
        ensures
            next == self.spec_advance(succeeded),
    {
        match self {
            FrameState::Doing(step) => if !succeeded {
                FrameState::Abandoned(step)
            } else {
                match step {
                    FrameStep::Flush => FrameState::Doing(FrameStep::Acquire),
                    FrameStep::Acquire => FrameState::Doing(FrameStep::Record),
                    FrameStep::Record => FrameState::Doing(FrameStep::Submit),
                    FrameStep::Submit => FrameState::Doing(FrameStep::Present),
                    FrameStep::Present => FrameState::Presented,
                }
            },
            FrameState::Presented => FrameState::Presented,
            FrameState::Abandoned(step) => FrameState::Abandoned(step),
        }
    }

    /// Whether commands of the frame have reached the queue, or are about to.
    pub open spec fn submits(self) -> bool {
        self == FrameState::Doing(FrameStep::Submit) || self == FrameState::Doing(FrameStep::Present)
            || self == FrameState::Presented || self == FrameState::Abandoned(FrameStep::Submit)
            || self == FrameState::Abandoned(FrameStep::Present)
    }
}

/// The state a frame is in after steps that ended as `results` say, in order.
pub open spec fn run(results: Seq<bool>) -> FrameState
    decreases results.len(),
{
    if results.len() == 0 {
        FrameState::Doing(FrameStep::Flush)
    } else {
        run(results.drop_last()).spec_advance(results.last())
    }
}

/// No partial frame is submitted or presented: however the steps end,
/// commands reach the queue only if the colour was flushed, the texture
/// acquired and the frame recorded, each with success; and the frame is
/// presented only if the submission succeeded as well.
pub proof fn law_no_partial_frame(results: Seq<bool>)
    ensures
        run(results).submits() ==> results.len() >= 3 && results[0] && results[1] && results[2],
        run(results) == FrameState::Presented ==> results.len() >= 5 && results[3] && results[4],
        results.len() < 5 ==> run(results) != FrameState::Presented,
    decreases results.len(),
{
    if results.len() > 0 {
        let before = results.drop_last();
        law_no_partial_frame(before);
        lemma_run_position(before);
        assert(forall|k: int| 0 <= k < before.len() ==> before[k] == results[k]);
    }
}

/// While no step has failed, the state names the step whose turn it is.
pub proof fn lemma_run_position(results: Seq<bool>)
    ensures
        match run(results) {
            FrameState::Doing(FrameStep::Flush) => results.len() == 0,
            FrameState::Doing(FrameStep::Acquire) => results.len() == 1,
            FrameState::Doing(FrameStep::Record) => results.len() == 2,
            FrameState::Doing(FrameStep::Submit) => results.len() == 3,
            FrameState::Doing(FrameStep::Present) => results.len() == 4,
            FrameState::Presented => results.len() >= 5,
            FrameState::Abandoned(_) => results.len() >= 1,
        },
        run(results) is Doing ==> forall|k: int| 0 <= k < results.len() ==> results[k],
    decreases results.len(),
{
    if results.len() > 0 {
        let before = results.drop_last();
        lemma_run_position(before);
        assert(forall|k: int| 0 <= k < before.len() ==> before[k] == results[k]);
    }
}

/// A frame that was given up was given up at the first step that failed, and
/// stays given up whatever is reported later.
pub proof fn law_abandoned_at_first_failure(results: Seq<bool>, failed: int)
    requires
        0 <= failed < results.len(),
        failed < 5,
        !results[failed],
        forall|k: int| 0 <= k < failed ==> results[k],
    ensures
        run(results) is Abandoned,
        run(results.take(failed)) matches FrameState::Doing(step) && run(results)
            == FrameState::Abandoned(step),
    decreases results.len(),
{
    let before = results.drop_last();
    if failed == results.len() - 1 {
        lemma_run_all_succeeded(before);
        assert(results.take(failed) =~= before);
    } else {
        assert(before.take(failed) =~= results.take(failed));
        law_abandoned_at_first_failure(before, failed);
    }
}

/// After fewer than five steps that all succeeded, the next step is to be
/// done.
pub proof fn lemma_run_all_succeeded(results: Seq<bool>)
    requires
        results.len() < 5,
        forall|k: int| 0 <= k < results.len() ==> results[k],
    ensures
        run(results) is Doing,
    decreases results.len(),
{
    if results.len() > 0 {
        lemma_run_all_succeeded(results.drop_last());
        lemma_run_position(results.drop_last());
    }
}

} // verus!
