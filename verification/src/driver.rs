//! The frame pipeline driver: the decisions of one output run.
//!
//! A run alternates work that only the surrounding plugin can do (opening
//! the encoder, asking the host whether to stop, fetching a frame, writing
//! it, reporting progress, finishing the file) with decisions about what to
//! do next. The driver holds the decisions. It names the action that is due,
//! takes the outcome of that action as an event, and moves on:
//!
//! ```text
//! Idle -> Encoding(0) -> Encoding(1) -> ... -> Finished | Aborted | Failed
//! ```
//!
//! For every frame the host is asked first whether to stop. A frame for which
//! the host has no data is skipped: nothing is written for it. Progress is
//! reported after every frame, written or skipped. A failure of the encoder
//! ends the run at once.

use crate::error::PipelineError;
use vstd::prelude::*;

verus! {

/// Where a run stands, step by step.
#[derive(Clone, Copy, Debug, PartialEq, Eq, Structural)]
pub enum Phase {
    /// Nothing has been done yet; the encoder is to be opened.
    Idle,
    /// The host is to be asked whether to stop.
    PollAbort,
    /// The current frame is to be fetched.
    Fetch,
    /// The current frame is to be written.
    Write,
    /// Progress on the current frame is to be reported.
    Report,
    /// All frames are done; the file is to be finished.
    Finalize,
    /// The run ended with a finished file.
    Finished,
    /// The run ended because the host asked for it.
    Aborted,
    /// The run ended with an error.
    Failed(PipelineError),
}

/// Where a run stands, frame by frame.
#[derive(Clone, Copy, Debug, PartialEq, Eq, Structural)]
pub enum DriverState {
    /// Nothing has been done yet.
    Idle,
    /// The frame with this index is being handled; with the frame count as
    /// index, the file is being finished.
    Encoding(u32),
    /// The run ended with a finished file.
    Finished,
    /// The run ended because the host asked for it.
    Aborted,
    /// The run ended with an error.
    Failed,
}

/// What the surrounding plugin is to do next.
#[derive(Clone, Copy, Debug, PartialEq, Eq, Structural)]
pub enum Action {
    /// Open the output and set up the encoder.
    Open,
    /// Ask the host whether to stop.
    PollAbort,
    /// Fetch the frame with this index and make it ready for the encoder.
    FetchFrame(u32),
    /// Hand the frame with this index to the encoder.
    WriteFrame(u32),
    /// Report to the host that the frame with this index, of this many, is
    /// done.
    ReportProgress(u32, u32),
    /// Finish the file.
    Finalize,
    /// Nothing: the run has ended.
    Stop,
}

/// What came of the action that was due.
#[derive(Clone, Copy, Debug, PartialEq, Eq, Structural)]
pub enum Event {
    /// The encoder was opened, or could not be.
    Opened(bool),
    /// The host was asked whether to stop, and said so or not.
    AbortPolled(bool),
    /// The frame was fetched and is ready for the encoder.
    FrameReady,
    /// The host has no data for the frame.
    FrameMissing,
    /// The host's data for the frame does not fit the declared dimensions.
    FrameBroken,
    /// The frame was written, or the encoder refused it.
    Written(bool),
    /// Progress was reported.
    Reported,
    /// The file was finished, or could not be.
    Finalized(bool),
}

/// The mathematical model of a driver.
pub struct DriverModel {
    /// The number of frames the host declared.
    pub total: int,
    /// The index of the current frame.
    pub frame: int,
    /// The step the run stands at.
    pub phase: Phase,
    /// The number of frames written so far.
    pub written: int,
    /// The number of frames skipped so far.
    pub skipped: int,
}

impl DriverModel {
    /// A run of `total` frames before its first step.
    pub open spec fn initial(total: int) -> DriverModel {
        DriverModel { total, frame: 0, phase: Phase::Idle, written: 0, skipped: 0 }
    }

    /// The number of frames that have been written or skipped when the run
    /// stands at this step.
    pub open spec fn handled(self) -> int {
        if self.phase == Phase::Report {
            self.frame + 1
        } else {
            self.frame
        }
    }

    /// The invariant of a run: the current frame lies within the declared
    /// count, as the step requires, and every frame handled so far was either
    /// written or skipped.
    pub open spec fn wf(self) -> bool {
        &&& 0 <= self.frame <= self.total <= u32::MAX
        &&& 0 <= self.written
        &&& 0 <= self.skipped
        &&& self.written + self.skipped == self.handled()
        &&& match self.phase {
            Phase::Idle => self.frame == 0,
            Phase::PollAbort | Phase::Fetch | Phase::Write | Phase::Report | Phase::Aborted => self.frame
                < self.total,
            Phase::Finalize | Phase::Finished => self.frame == self.total,
            Phase::Failed(_) => true,
        }
    }

    /// Whether the run has ended.
    pub open spec fn is_done(self) -> bool {
        self.phase == Phase::Finished || self.phase == Phase::Aborted || self.phase is Failed
    }

    /// Where the run stands, frame by frame.
    pub open spec fn state(self) -> DriverState {
        match self.phase {
            Phase::Idle => DriverState::Idle,
            Phase::Finished => DriverState::Finished,
            Phase::Aborted => DriverState::Aborted,
            Phase::Failed(_) => DriverState::Failed,
            _ => DriverState::Encoding(self.frame as u32),
        }
    }

    /// The action that is due.
    pub open spec fn pending(self) -> Action {
        match self.phase {
            Phase::Idle => Action::Open,
            Phase::PollAbort => Action::PollAbort,
            Phase::Fetch => Action::FetchFrame(self.frame as u32),
            Phase::Write => Action::WriteFrame(self.frame as u32),
            Phase::Report => Action::ReportProgress(self.frame as u32, self.total as u32),
            Phase::Finalize => Action::Finalize,
            _ => Action::Stop,
        }
    }

    /// How the run ended, if it has.
    pub open spec fn result(self) -> Option<Result<(), PipelineError>> {
        match self.phase {
            Phase::Finished => Some(Ok(())),
            Phase::Aborted => Some(Err(PipelineError::Cancelled)),
            Phase::Failed(e) => Some(Err(e)),
            _ => None,
        }
    }

    /// The step that handles the frames from `frame` on: the abort poll for
    /// that frame, or finishing the file where no frame is left.
    pub open spec fn at_frame(self, frame: int) -> DriverModel {
        DriverModel {
            frame,
            phase: if frame < self.total {
                Phase::PollAbort
            } else {
                Phase::Finalize
            },
            ..self
        }
    }

    /// The run after one event. An event that is not an outcome of the action
    /// that is due changes nothing.
    pub open spec fn step(self, event: Event) -> DriverModel {
        match (self.phase, event) {
            (Phase::Idle, Event::Opened(true)) => self.at_frame(0),
            (Phase::Idle, Event::Opened(false)) => DriverModel {
                phase: Phase::Failed(PipelineError::CodecFailure),
                ..self
            },
            (Phase::PollAbort, Event::AbortPolled(true)) => DriverModel {
                phase: Phase::Aborted,
                ..self
            },
            (Phase::PollAbort, Event::AbortPolled(false)) => DriverModel {
                phase: Phase::Fetch,
                ..self
            },
            (Phase::Fetch, Event::FrameReady) => DriverModel { phase: Phase::Write, ..self },
            (Phase::Fetch, Event::FrameMissing) => DriverModel {
                phase: Phase::Report,
                skipped: self.skipped + 1,
                ..self
            },
            (Phase::Fetch, Event::FrameBroken) => DriverModel {
                phase: Phase::Failed(PipelineError::DataIntegrity),
                ..self
            },
            (Phase::Write, Event::Written(true)) => DriverModel {
                phase: Phase::Report,
                written: self.written + 1,
                ..self
            },
            (Phase::Write, Event::Written(false)) => DriverModel {
                phase: Phase::Failed(PipelineError::CodecFailure),
                ..self
            },
            (Phase::Report, Event::Reported) => self.at_frame(self.frame + 1),
            (Phase::Finalize, Event::Finalized(true)) => DriverModel {
                phase: Phase::Finished,
                ..self
            },
            (Phase::Finalize, Event::Finalized(false)) => DriverModel {
                phase: Phase::Failed(PipelineError::CodecFailure),
                ..self
            },
            _ => self,
        }
    }

    /// The run after a sequence of events, taken in order.
    pub open spec fn run(self, events: Seq<Event>) -> DriverModel
        decreases events.len(),
    {
        if events.len() == 0 {
            self
        } else {
            self.step(events[0]).run(events.drop_first())
        }
    }
}

/// A step keeps the invariant of a run, never changes the declared frame
/// count, and never lowers the current frame or the counts of written and
/// skipped frames.
pub proof fn lemma_step_keeps_invariant(m: DriverModel, event: Event)
    requires
        m.wf(),
    ensures
        m.step(event).wf(),
        m.step(event).total == m.total,
        m.step(event).frame >= m.frame,
        m.step(event).written >= m.written,
        m.step(event).skipped >= m.skipped,
{
}

/// Frames are taken in order, none twice and none left out: the frame that
/// is fetched is the current one, it lies within the declared count, and the
/// current frame moves on by exactly one, and only when the progress report
/// for it is done.
pub proof fn lemma_frames_come_in_order(m: DriverModel, event: Event)
    requires
        m.wf(),
    ensures
        m.phase == Phase::Fetch ==> m.pending() == Action::FetchFrame(m.frame as u32) && m.frame
            < m.total,
        m.step(event).frame == m.frame || m.step(event).frame == m.frame + 1,
        m.step(event).frame == m.frame + 1 <==> m.phase == Phase::Report && event
            == Event::Reported,
{
}

/// Any sequence of events keeps the invariant of a run, never changes the
/// declared frame count, and never lowers the current frame or the counts of
/// written and skipped frames.
pub proof fn lemma_run_keeps_invariant(m: DriverModel, events: Seq<Event>)
    requires
        m.wf(),
    ensures
        m.run(events).wf(),
        m.run(events).total == m.total,
        m.run(events).frame >= m.frame,
        m.run(events).written >= m.written,
        m.run(events).skipped >= m.skipped,
    decreases events.len(),
{
    if events.len() > 0 {
        lemma_step_keeps_invariant(m, events[0]);
        lemma_run_keeps_invariant(m.step(events[0]), events.drop_first());
    }
}

/// A run that has ended stays as it is, whatever events follow.
pub proof fn lemma_ended_run_stays(m: DriverModel, events: Seq<Event>)
    requires
        m.is_done(),
    ensures
        m.run(events) == m,
    decreases events.len(),
{
    if events.len() > 0 {
        lemma_ended_run_stays(m, events.drop_first());
    }
}

/// A frame is fetched only after the host was asked whether to stop and did
/// not say so.
pub proof fn lemma_fetch_follows_abort_poll(m: DriverModel, event: Event)
    requires
        m.phase != Phase::Fetch,
        m.step(event).phase == Phase::Fetch,
    ensures
        m.phase == Phase::PollAbort,
        event == Event::AbortPolled(false),
{
}

/// Where the host has no data for the current frame, nothing is written for
/// it: the next action is the progress report for that frame, the count of
/// written frames stays, and after the report the run stands at the next
/// frame.
pub proof fn lemma_missing_frame_is_skipped(m: DriverModel)
    requires
        m.wf(),
        m.phase == Phase::Fetch,
    ensures
        m.step(Event::FrameMissing).pending() == Action::ReportProgress(
            m.frame as u32,
            m.total as u32,
        ),
        m.step(Event::FrameMissing).written == m.written,
        m.step(Event::FrameMissing).skipped == m.skipped + 1,
        m.step(Event::FrameMissing).step(Event::Reported).frame == m.frame + 1,
        m.step(Event::FrameMissing).step(Event::Reported).state() == DriverState::Encoding(
            (m.frame + 1) as u32,
        ),
{
}

/// Progress is reported after every frame, written or skipped.
pub proof fn lemma_progress_follows_every_frame(m: DriverModel)
    requires
        m.wf(),
    ensures
        m.phase == Phase::Fetch ==> m.step(Event::FrameMissing).pending()
            == Action::ReportProgress(m.frame as u32, m.total as u32),
        m.phase == Phase::Write ==> m.step(Event::Written(true)).pending()
            == Action::ReportProgress(m.frame as u32, m.total as u32),
{
}

/// When a run ends with a finished file, every declared frame was either
/// written or skipped.
pub proof fn lemma_finished_accounts_for_all(m: DriverModel)
    requires
        m.wf(),
        m.phase == Phase::Finished,
    ensures
        m.written + m.skipped == m.total,
{
}

/// Once the host had no data for a frame, a run that goes on to a finished
/// file has written fewer frames than were declared.
pub proof fn lemma_skipped_frame_lowers_written(m: DriverModel, events: Seq<Event>)
    requires
        m.wf(),
        m.phase == Phase::Fetch,
        m.step(Event::FrameMissing).run(events).phase == Phase::Finished,
    ensures
        m.step(Event::FrameMissing).run(events).written < m.total,
{
    let skipped = m.step(Event::FrameMissing);
    lemma_step_keeps_invariant(m, Event::FrameMissing);
    lemma_run_keeps_invariant(skipped, events);
}

/// The driver of one output run.
#[derive(Clone, Copy, Debug)]
pub struct Driver {
    total: u32,
    frame: u32,
    phase: Phase,
    written: u32,
    skipped: u32,
}

impl View for Driver {
    type V = DriverModel;

    closed spec fn view(&self) -> DriverModel {
        DriverModel {
            total: self.total as int,
            frame: self.frame as int,
            phase: self.phase,
            written: self.written as int,
            skipped: self.skipped as int,
        }
    }
}

impl Driver {
    #[verifier::type_invariant]
    spec fn inv(self) -> bool {
        self@.wf()
    }

    /// A driver for a run of `total` frames, before its first step.
    pub fn new(total: u32) -> (driver: Driver)
        ensures
            driver@ == DriverModel::initial(total as int),
            driver@.wf(),
    {
        Driver { total, frame: 0, phase: Phase::Idle, written: 0, skipped: 0 }
    }

    /// The number of frames the host declared.
    pub fn total(&self) -> (total: u32)
        ensures
            total == self@.total,
    {
        self.total
    }

    /// The index of the current frame.
    pub fn frame(&self) -> (frame: u32)
        ensures
            frame == self@.frame,
    {
        self.frame
    }

    /// The number of frames written so far.
    pub fn written(&self) -> (written: u32)
        ensures
            written == self@.written,
    {
        self.written
    }

    /// The number of frames skipped so far.
    pub fn skipped(&self) -> (skipped: u32)
        ensures
            skipped == self@.skipped,
    {
        self.skipped
    }

    /// The step the run stands at.
    pub fn phase(&self) -> (phase: Phase)
        ensures
            phase == self@.phase,
    {
        self.phase
    }

    /// Where the run stands, frame by frame.
    pub fn state(&self) -> (state: DriverState)
        ensures
            state == self@.state(),
    {
        match self.phase {
            Phase::Idle => DriverState::Idle,
            Phase::Finished => DriverState::Finished,
            Phase::Aborted => DriverState::Aborted,
            Phase::Failed(_) => DriverState::Failed,
            _ => DriverState::Encoding(self.frame),
        }
    }

    /// The action that is due.
    pub fn pending(&self) -> (action: Action)
        ensures
            action == self@.pending(),
    {
        match self.phase {
            Phase::Idle => Action::Open,
            Phase::PollAbort => Action::PollAbort,
            Phase::Fetch => Action::FetchFrame(self.frame),
            Phase::Write => Action::WriteFrame(self.frame),
            Phase::Report => Action::ReportProgress(self.frame, self.total),
            Phase::Finalize => Action::Finalize,
            _ => Action::Stop,
        }
    }

    /// How the run ended, if it has.
    pub fn result(&self) -> (result: Option<Result<(), PipelineError>>)
        ensures
            result == self@.result(),
    {
        match self.phase {
            Phase::Finished => Some(Ok(())),
            Phase::Aborted => Some(Err(PipelineError::Cancelled)),
            Phase::Failed(e) => Some(Err(e)),
            _ => None,
        }
    }

    /// The driver at the step that handles the frames from `frame` on.
    fn at_frame(&self, frame: u32) -> (driver: Driver)
        requires
            frame <= self@.total,
            self@.written + self@.skipped == frame,
        ensures
            driver@ == self@.at_frame(frame as int),
    {
        let phase = if frame < self.total {
            Phase::PollAbort
        } else {
            Phase::Finalize
        };
        Driver { total: self.total, frame, phase, written: self.written, skipped: self.skipped }
    }

    /// The driver at another step of the same frame.
    fn at_phase(&self, phase: Phase) -> (driver: Driver)
        requires
            (DriverModel { phase, ..self@ }).wf(),
        ensures
            driver@ == (DriverModel { phase, ..self@ }),
    {
        Driver {
            total: self.total,
            frame: self.frame,
            phase,
            written: self.written,
            skipped: self.skipped,
        }
    }

    /// Takes the outcome of the action that was due, moves the run on, and
    /// returns the action that is due next. An event that is not an outcome
    /// of the action that was due changes nothing.
    pub fn step(&mut self, event: Event) -> (action: Action)
        ensures
            old(self)@.wf(),
            final(self)@ == old(self)@.step(event),
            final(self)@.wf(),
            action == final(self)@.pending(),
    {
        proof {
            use_type_invariant(&*self);
        }
        let next: Driver = match (self.phase, event) {
            (Phase::Idle, Event::Opened(true)) => self.at_frame(0),
            (Phase::Idle, Event::Opened(false)) => self.at_phase(
                Phase::Failed(PipelineError::CodecFailure),
            ),
            (Phase::PollAbort, Event::AbortPolled(true)) => self.at_phase(Phase::Aborted),
            (Phase::PollAbort, Event::AbortPolled(false)) => self.at_phase(Phase::Fetch),
            (Phase::Fetch, Event::FrameReady) => self.at_phase(Phase::Write),
            (Phase::Fetch, Event::FrameMissing) => Driver {
                total: self.total,
                frame: self.frame,
                phase: Phase::Report,
                written: self.written,
                skipped: self.skipped + 1,
            },
            (Phase::Fetch, Event::FrameBroken) => self.at_phase(
                Phase::Failed(PipelineError::DataIntegrity),
            ),
            (Phase::Write, Event::Written(true)) => Driver {
                total: self.total,
                frame: self.frame,
                phase: Phase::Report,
                written: self.written + 1,
                skipped: self.skipped,
            },
            (Phase::Write, Event::Written(false)) => self.at_phase(
                Phase::Failed(PipelineError::CodecFailure),
            ),
            (Phase::Report, Event::Reported) => self.at_frame(self.frame + 1),
            (Phase::Finalize, Event::Finalized(true)) => self.at_phase(Phase::Finished),
            (Phase::Finalize, Event::Finalized(false)) => self.at_phase(
                Phase::Failed(PipelineError::CodecFailure),
            ),
            _ => *self,
        };
        *self = next;
        self.pending()
    }
}

} // verus!
