use aviutl_output::driver::{Action, Driver, DriverState, Event, Phase};
use aviutl_output::error::PipelineError;

/// Runs a driver to its end. `present[i]` says whether the host has data for
/// frame `i`. Returns the actions in the order they came due.
fn run(total: u32, present: &[bool], abort_at: Option<u32>, fail_write_at: Option<u32>) -> (Driver, Vec<Action>) {
    let mut driver = Driver::new(total);
    let mut actions = vec![driver.pending()];
    loop {
        let event = match driver.pending() {
            Action::Open => Event::Opened(true),
            Action::PollAbort => Event::AbortPolled(abort_at == Some(driver.frame())),
            Action::FetchFrame(i) => {
                if present[i as usize] {
                    Event::FrameReady
                } else {
                    Event::FrameMissing
                }
            }
            Action::WriteFrame(i) => Event::Written(fail_write_at != Some(i)),
            Action::ReportProgress(_, _) => Event::Reported,
            Action::Finalize => Event::Finalized(true),
            Action::Stop => return (driver, actions),
        };
        actions.push(driver.step(event));
    }
}

#[test]
fn new_driver_is_idle() {
    let d = Driver::new(5);
    assert_eq!(d.state(), DriverState::Idle);
    assert_eq!(d.phase(), Phase::Idle);
    assert_eq!(d.pending(), Action::Open);
    assert_eq!(d.result(), None);
    assert_eq!((d.total(), d.frame(), d.written(), d.skipped()), (5, 0, 0, 0));
}

#[test]
fn full_run_writes_every_frame_in_order() {
    let (d, actions) = run(2, &[true, true], None, None);
    assert_eq!(actions, vec![
        Action::Open,
        Action::PollAbort,
        Action::FetchFrame(0),
        Action::WriteFrame(0),
        Action::ReportProgress(0, 2),
        Action::PollAbort,
        Action::FetchFrame(1),
        Action::WriteFrame(1),
        Action::ReportProgress(1, 2),
        Action::Finalize,
        Action::Stop,
    ]);
    assert_eq!(d.state(), DriverState::Finished);
    assert_eq!(d.result(), Some(Ok(())));
    assert_eq!((d.written(), d.skipped(), d.frame()), (2, 0, 2));
}

#[test]
fn states_count_the_frames() {
    let mut d = Driver::new(2);
    assert_eq!(d.state(), DriverState::Idle);
    d.step(Event::Opened(true));
    assert_eq!(d.state(), DriverState::Encoding(0));
    d.step(Event::AbortPolled(false));
    d.step(Event::FrameReady);
    d.step(Event::Written(true));
    assert_eq!(d.state(), DriverState::Encoding(0));
    d.step(Event::Reported);
    assert_eq!(d.state(), DriverState::Encoding(1));
    d.step(Event::AbortPolled(false));
    d.step(Event::FrameMissing);
    d.step(Event::Reported);
    assert_eq!(d.state(), DriverState::Encoding(2));
    assert_eq!(d.pending(), Action::Finalize);
    d.step(Event::Finalized(true));
    assert_eq!(d.state(), DriverState::Finished);
}

#[test]
fn missing_frame_is_skipped_without_a_write() {
    let (d, actions) = run(3, &[true, false, true], None, None);
    assert_eq!(actions, vec![
        Action::Open,
        Action::PollAbort,
        Action::FetchFrame(0),
        Action::WriteFrame(0),
        Action::ReportProgress(0, 3),
        Action::PollAbort,
        Action::FetchFrame(1),
        Action::ReportProgress(1, 3),
        Action::PollAbort,
        Action::FetchFrame(2),
        Action::WriteFrame(2),
        Action::ReportProgress(2, 3),
        Action::Finalize,
        Action::Stop,
    ]);
    assert!(!actions.contains(&Action::WriteFrame(1)));
    assert_eq!(d.result(), Some(Ok(())));
    assert_eq!(d.written(), 2);
    assert_eq!(d.skipped(), 1);
    assert!(d.written() < d.total());
}

#[test]
fn run_without_any_data_finishes_with_nothing_written() {
    let (d, actions) = run(2, &[false, false], None, None);
    assert!(actions.iter().all(|a| !matches!(a, Action::WriteFrame(_))));
    assert_eq!(d.result(), Some(Ok(())));
    assert_eq!((d.written(), d.skipped()), (0, 2));
}

#[test]
fn run_of_no_frames_goes_straight_to_the_end() {
    let (d, actions) = run(0, &[], None, None);
    assert_eq!(actions, vec![Action::Open, Action::Finalize, Action::Stop]);
    assert_eq!(d.result(), Some(Ok(())));
}

#[test]
fn abort_is_seen_before_the_frame_is_fetched() {
    let (d, actions) = run(3, &[true, true, true], Some(1), None);
    assert_eq!(actions, vec![
        Action::Open,
        Action::PollAbort,
        Action::FetchFrame(0),
        Action::WriteFrame(0),
        Action::ReportProgress(0, 3),
        Action::PollAbort,
        Action::Stop,
    ]);
    assert_eq!(d.state(), DriverState::Aborted);
    assert_eq!(d.result(), Some(Err(PipelineError::Cancelled)));
    assert_eq!((d.written(), d.frame()), (1, 1));
}

#[test]
fn abort_before_the_first_frame() {
    let (d, actions) = run(3, &[true, true, true], Some(0), None);
    assert_eq!(actions, vec![Action::Open, Action::PollAbort, Action::Stop]);
    assert_eq!(d.result(), Some(Err(PipelineError::Cancelled)));
    assert_eq!(d.written(), 0);
}

#[test]
fn failed_write_ends_the_run_at_once() {
    let (d, actions) = run(3, &[true, true, true], None, Some(1));
    assert_eq!(actions.last(), Some(&Action::Stop));
    assert_eq!(actions[actions.len() - 2], Action::WriteFrame(1));
    assert_eq!(d.state(), DriverState::Failed);
    assert_eq!(d.phase(), Phase::Failed(PipelineError::CodecFailure));
    assert_eq!(d.result(), Some(Err(PipelineError::CodecFailure)));
    assert_eq!(d.written(), 1);
}

#[test]
fn failed_open_and_failed_finish_are_codec_failures() {
    let mut d = Driver::new(1);
    assert_eq!(d.step(Event::Opened(false)), Action::Stop);
    assert_eq!(d.result(), Some(Err(PipelineError::CodecFailure)));

    let mut d = Driver::new(0);
    assert_eq!(d.step(Event::Opened(true)), Action::Finalize);
    assert_eq!(d.step(Event::Finalized(false)), Action::Stop);
    assert_eq!(d.result(), Some(Err(PipelineError::CodecFailure)));
}

#[test]
fn broken_frame_is_a_data_integrity_failure() {
    let mut d = Driver::new(1);
    d.step(Event::Opened(true));
    d.step(Event::AbortPolled(false));
    assert_eq!(d.step(Event::FrameBroken), Action::Stop);
    assert_eq!(d.state(), DriverState::Failed);
    assert_eq!(d.result(), Some(Err(PipelineError::DataIntegrity)));
}

#[test]
fn event_that_answers_no_pending_action_changes_nothing() {
    let mut d = Driver::new(2);
    for event in [
        Event::AbortPolled(true),
        Event::FrameReady,
        Event::FrameMissing,
        Event::FrameBroken,
        Event::Written(false),
        Event::Reported,
        Event::Finalized(true),
    ] {
        assert_eq!(d.step(event), Action::Open);
        assert_eq!(d.state(), DriverState::Idle);
    }
    d.step(Event::Opened(true));
    d.step(Event::AbortPolled(false));
    for event in [
        Event::Opened(false),
        Event::AbortPolled(true),
        Event::Written(true),
        Event::Reported,
        Event::Finalized(false),
    ] {
        assert_eq!(d.step(event), Action::FetchFrame(0));
        assert_eq!((d.written(), d.skipped(), d.frame()), (0, 0, 0));
    }
}

#[test]
fn ended_run_stays_ended() {
    let (mut d, _) = run(1, &[true], None, None);
    for event in [
        Event::Opened(true),
        Event::AbortPolled(true),
        Event::FrameReady,
        Event::Written(false),
        Event::Reported,
        Event::Finalized(false),
    ] {
        assert_eq!(d.step(event), Action::Stop);
        assert_eq!(d.result(), Some(Ok(())));
        assert_eq!(d.written(), 1);
    }
}
