//! The start-up protocol between the library and its host.
//!
//! Bringing a logger up takes work on the file system, which the library
//! leaves to the host. The library hands out one `Step` at a time, the host
//! performs it and reports back with an `Event`, and `transition` says what
//! follows: the log file is looked up, rotated where the policy asks for it,
//! and only then are the sinks attached.

use vstd::prelude::*;
use crate::rotation::{archive_file_path, log_file_path, rotation_for, FileStatus, Rotation, RotationStrategy};
use crate::size::ConfigError;

verus! {

/// Why a logger could not be brought up.
#[derive(Clone, Copy, Debug, PartialEq, Eq, Structural)]
pub enum InitError {
    /// The configuration names a threshold that cannot be read.
    Config(ConfigError),
    /// The log directory does not exist.
    DirectoryMissing,
    /// The length of the log file could not be read.
    Metadata,
    /// The log file could not be renamed or deleted.
    Rotation,
    /// The sinks could not be attached.
    Sink,
    /// An event answered no step, or the logger was asked for too early.
    Protocol,
}

/// How far the start-up has come.
#[derive(Clone, Copy, Debug, PartialEq, Eq, Structural)]
pub enum Phase {
    /// Nothing has been asked of the host yet.
    Created,
    /// The host is looking the log file up.
    Probing,
    /// The host is renaming or deleting the log file.
    Rotating,
    /// The host is attaching the sinks.
    Attaching,
    /// The sinks are attached.
    Ready,
    /// The start-up has failed, for good.
    Failed(InitError),
}

/// What the host reports.
#[derive(Clone, Copy, Debug, PartialEq, Eq, Structural)]
pub enum Event {
    /// The host is ready to take the first step.
    Begin,
    /// The log directory does not exist.
    NoDirectory,
    /// The log file was looked up.
    Probed(FileStatus),
    /// The step was performed.
    Done,
    /// The step could not be performed.
    Failed,
}

/// What the host does next.
#[derive(Debug, PartialEq, Eq)]
pub enum Step {
    /// Look the log file up and report `NoDirectory`, `Probed` or `Failed`.
    Probe { path: String },
    /// Rename `from` to `to`, replacing what may be at `to`.
    Archive { from: String, to: String },
    /// Delete the file.
    Remove { path: String },
    /// Attach the console and, in append mode, the file.
    Attach { path: String },
    /// Nothing: the start-up has ended, well or badly.
    Finish,
}

/// A step, by the characters of its paths.
pub enum StepView {
    Probe { path: Seq<char> },
    Archive { from: Seq<char>, to: Seq<char> },
    Remove { path: Seq<char> },
    Attach { path: Seq<char> },
    Finish,
}

impl View for Step {
    type V = StepView;

    open spec fn view(&self) -> StepView {
        match self {
            Step::Probe { path } => StepView::Probe { path: path@ },
            Step::Archive { from, to } => StepView::Archive { from: from@, to: to@ },
            Step::Remove { path } => StepView::Remove { path: path@ },
            Step::Attach { path } => StepView::Attach { path: path@ },
            Step::Finish => StepView::Finish,
        }
    }
}

/// What a start-up is set up with.
pub struct Setup {
    /// The log directory.
    pub directory: Seq<char>,
    /// What happens to a log file beyond the threshold.
    pub strategy: RotationStrategy,
    /// The threshold in bytes.
    pub max_file_size: u128,
}

/// The phase and the step that follow an event. `date` is the local date at
/// the time of the event; only the name of an archive depends on it.
///
/// An event that the phase does not wait for ends the start-up with
/// `InitError::Protocol`; once the start-up has ended, no event changes it.
pub open spec fn transition(setup: Setup, phase: Phase, event: Event, date: Seq<char>) -> (
    Phase,
    StepView,
) {
    let log_file = log_file_path(setup.directory);
    match (phase, event) {
        (Phase::Created, Event::Begin) => (Phase::Probing, StepView::Probe { path: log_file }),
        (Phase::Probing, Event::NoDirectory) => (
            Phase::Failed(InitError::DirectoryMissing),
            StepView::Finish,
        ),
        (Phase::Probing, Event::Failed) => (Phase::Failed(InitError::Metadata), StepView::Finish),
        (Phase::Probing, Event::Probed(status)) => match rotation_for(
            setup.strategy,
            setup.max_file_size,
            status,
        ) {
            Rotation::Keep => (Phase::Attaching, StepView::Attach { path: log_file }),
            Rotation::Archive => (
                Phase::Rotating,
                StepView::Archive { from: log_file, to: archive_file_path(setup.directory, date) },
            ),
            Rotation::Remove => (Phase::Rotating, StepView::Remove { path: log_file }),
        },
        (Phase::Rotating, Event::Done) => (Phase::Attaching, StepView::Attach { path: log_file }),
        (Phase::Rotating, Event::Failed) => (Phase::Failed(InitError::Rotation), StepView::Finish),
        (Phase::Attaching, Event::Done) => (Phase::Ready, StepView::Finish),
        (Phase::Attaching, Event::Failed) => (Phase::Failed(InitError::Sink), StepView::Finish),
        (Phase::Ready, _) => (Phase::Ready, StepView::Finish),
        (Phase::Failed(error), _) => (Phase::Failed(error), StepView::Finish),
        _ => (Phase::Failed(InitError::Protocol), StepView::Finish),
    }
}

/// Whether the step after an event names an archive, and so depends on the
/// date.
pub open spec fn needs_date(setup: Setup, phase: Phase, event: Event) -> bool {
    phase == Phase::Probing && match event {
        Event::Probed(status) => rotation_for(setup.strategy, setup.max_file_size, status)
            == Rotation::Archive,
        _ => false,
    }
}

/// Where no archive is named, the date makes no difference.
pub proof fn lemma_date_matters_for_archives_only(
    setup: Setup,
    phase: Phase,
    event: Event,
    date: Seq<char>,
    other: Seq<char>,
)
    requires
        !needs_date(setup, phase, event),
    ensures
        transition(setup, phase, event, date) == transition(setup, phase, event, other),
{
}

} // verus!
