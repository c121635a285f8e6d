use twilight_wgpu_backend::output::frame::{FrameState, FrameStep};

/// The state after steps that ended as the results say.
fn run(results: &[bool]) -> FrameState {
    results.iter().fold(FrameState::start(), |state, succeeded| state.advance(*succeeded))
}

#[test]
fn a_frame_goes_through_its_steps_in_order() {
    assert_eq!(FrameState::start(), FrameState::Doing(FrameStep::Flush));
    assert_eq!(run(&[true]), FrameState::Doing(FrameStep::Acquire));
    assert_eq!(run(&[true, true]), FrameState::Doing(FrameStep::Record));
    assert_eq!(run(&[true, true, true]), FrameState::Doing(FrameStep::Submit));
    assert_eq!(run(&[true, true, true, true]), FrameState::Doing(FrameStep::Present));
    assert_eq!(run(&[true, true, true, true, true]), FrameState::Presented);
}

#[test]
fn a_failed_step_gives_the_frame_up() {
    assert_eq!(run(&[false]), FrameState::Abandoned(FrameStep::Flush));
    assert_eq!(run(&[true, false]), FrameState::Abandoned(FrameStep::Acquire));
    assert_eq!(run(&[true, true, false]), FrameState::Abandoned(FrameStep::Record));
    assert_eq!(run(&[true, true, true, false]), FrameState::Abandoned(FrameStep::Submit));
    assert_eq!(run(&[true, true, true, true, false]), FrameState::Abandoned(FrameStep::Present));
}

#[test]
fn a_frame_that_ended_stays_as_it_is() {
    assert_eq!(run(&[true, false, true, true, true, true]), FrameState::Abandoned(FrameStep::Acquire));
    assert_eq!(FrameState::Abandoned(FrameStep::Acquire).advance(false), FrameState::Abandoned(FrameStep::Acquire));
    assert_eq!(FrameState::Presented.advance(true), FrameState::Presented);
    assert_eq!(FrameState::Presented.advance(false), FrameState::Presented);
}
