//! The logger and its builder.

use vstd::prelude::*;
use vstd::string::*;
use crate::clock::local_time_text;
use crate::command::{command_in, decode_command, fault_text, DecodeError, DecodeFault, LogCmd};
use crate::format::{format_line, line_text};
use crate::level::LogLevel;
use crate::rotation::{archive_file_in, decide_rotation, log_file_in, log_file_path, Rotation, RotationStrategy};
use crate::size::{get_max_file_size, max_file_size_of, section_model, DEFAULT_MAX_FILE_SIZE};
use crate::startup::{needs_date, transition, Event, InitError, Phase, Setup, Step, StepView};

verus! {

/// The origin that stands in the lines of `Logger::log`.
pub open spec fn log_target() -> Seq<char> {
    "tauri_log_plugin"@
}

/// Whether a text is the line of a message at some moment: the time stamp is
/// whatever the clock gave, the rest is fixed.
pub open spec fn is_log_line(line: Seq<char>, level: LogLevel, message: Seq<char>) -> bool {
    exists|stamp: Seq<char>| line == #[trigger] line_text(stamp, log_target(), level, message)
}

/// Whether a phase and a step are what follows an event at some moment:
/// the date in the name of an archive is whatever the clock gave, all else
/// is fixed.
pub open spec fn follows(setup: Setup, phase: Phase, event: Event, next: Phase, step: StepView) -> bool {
    if needs_date(setup, phase, event) {
        exists|date: Seq<char>| (next, step) == #[trigger] transition(setup, phase, event, date)
    } else {
        (next, step) == transition(setup, phase, event, Seq::<char>::empty())
    }
}

/// Sets a logger up and brings it up, step by step.
///
/// The host calls `advance` with `Event::Begin`, performs the step that comes
/// back, calls `advance` with what happened, and so on until the step is
/// `Step::Finish`; `build` then hands the logger out, or the error.
pub struct LoggerBuilder {
    rotation_strategy: RotationStrategy,
    path: String,
    max_file_size: u128,
    phase: Phase,
}

/// The logger: the proof that the log file was rotated and the sinks were
/// attached, and the one place where log lines are made.
pub struct Logger {
    rotation_strategy: RotationStrategy,
    path: String,
}

impl LoggerBuilder {
    /// What the start-up is set up with.
    pub closed spec fn setup(&self) -> Setup {
        Setup {
            directory: self.path@,
            strategy: self.rotation_strategy,
            max_file_size: self.max_file_size,
        }
    }

    /// How far the start-up has come.
    pub closed spec fn phase(&self) -> Phase {
        self.phase
    }

    /// A builder for a logger that writes to `app.log` in the directory
    /// `path`, with the strategy `KeepOne` and the default threshold.
    pub fn new(path: String) -> (created: Result<LoggerBuilder, InitError>)
        ensures
            created matches Ok(builder) && builder.setup() == (Setup {
                directory: path@,
                strategy: RotationStrategy::KeepOne,
                max_file_size: DEFAULT_MAX_FILE_SIZE,
            }) && builder.phase() == Phase::Created,
    {
        Ok(
            LoggerBuilder {
                rotation_strategy: RotationStrategy::KeepOne,
                path,
                max_file_size: DEFAULT_MAX_FILE_SIZE,
                phase: Phase::Created,
            },
        )
    }

    /// Sets what happens to a log file beyond the threshold.
    pub fn rotation_strategy(self, rotation_strategy: RotationStrategy) -> (builder: LoggerBuilder)
        ensures
            builder.setup() == (Setup { strategy: rotation_strategy, ..self.setup() }),
            builder.phase() == self.phase(),
    {
        let mut builder = self;
        builder.rotation_strategy = rotation_strategy;
        builder
    }

    /// Sets the threshold in bytes.
    pub fn max_file_size(self, max_file_size: u128) -> (builder: LoggerBuilder)
        ensures
            builder.setup() == (Setup { max_file_size, ..self.setup() }),
            builder.phase() == self.phase(),
    {
        let mut builder = self;
        builder.max_file_size = max_file_size;
        builder
    }

    /// Takes the threshold from the logger's section of the configuration. A
    /// threshold that is there and cannot be read is an error; the default
    /// does not stand in for it.
    pub fn configure(self, section: Option<&serde_json::Value>) -> (configured: Result<
        LoggerBuilder,
        InitError,
    >)
        ensures
            match max_file_size_of(section_model(section)) {
                Ok(max_file_size) => configured matches Ok(builder) && builder.setup() == (Setup {
                    max_file_size,
                    ..self.setup()
                }) && builder.phase() == self.phase(),
                Err(error) => configured matches Err(reason) && reason == InitError::Config(error),
            },
    {
        match get_max_file_size(section) {
            Ok(max_file_size) => Ok(self.max_file_size(max_file_size)),
            Err(error) => Err(InitError::Config(error)),
        }
    }

    /// Takes in what the host reports and hands out the next step, with
    /// `date` as the local date.
    pub fn advance_on(&mut self, event: Event, date: &str) -> (step: Step)
        ensures
            final(self).setup() == old(self).setup(),
            (final(self).phase(), step@) == transition(old(self).setup(), old(self).phase(), event, date@),
    {
        match (self.phase, event) {
            (Phase::Created, Event::Begin) => {
                self.phase = Phase::Probing;
                Step::Probe { path: log_file_in(self.path.as_str()) }
            },
            (Phase::Probing, Event::NoDirectory) => {
                self.phase = Phase::Failed(InitError::DirectoryMissing);
                Step::Finish
            },
            (Phase::Probing, Event::Failed) => {
                self.phase = Phase::Failed(InitError::Metadata);
                Step::Finish
            },
            (Phase::Probing, Event::Probed(status)) => {
                match decide_rotation(self.rotation_strategy, self.max_file_size, status) {
                    Rotation::Keep => {
                        self.phase = Phase::Attaching;
                        Step::Attach { path: log_file_in(self.path.as_str()) }
                    },
                    Rotation::Archive => {
                        self.phase = Phase::Rotating;
                        Step::Archive {
                            from: log_file_in(self.path.as_str()),
                            to: archive_file_in(self.path.as_str(), date),
                        }
                    },
                    Rotation::Remove => {
                        self.phase = Phase::Rotating;
                        Step::Remove { path: log_file_in(self.path.as_str()) }
                    },
                }
            },
            (Phase::Rotating, Event::Done) => {
                self.phase = Phase::Attaching;
                Step::Attach { path: log_file_in(self.path.as_str()) }
            },
            (Phase::Rotating, Event::Failed) => {
                self.phase = Phase::Failed(InitError::Rotation);
                Step::Finish
            },
            (Phase::Attaching, Event::Done) => {
                self.phase = Phase::Ready;
                Step::Finish
            },
            (Phase::Attaching, Event::Failed) => {
                self.phase = Phase::Failed(InitError::Sink);
                Step::Finish
            },
            (Phase::Ready, _) => Step::Finish,
            (Phase::Failed(_), _) => Step::Finish,
            _ => {
                self.phase = Phase::Failed(InitError::Protocol);
                Step::Finish
            },
        }
    }

    /// Takes in what the host reports and hands out the next step. Where the
    /// step names an archive, the date in its name is the local date of the
    /// moment of the call.
    pub fn advance(&mut self, event: Event) -> (step: Step)
        ensures
            final(self).setup() == old(self).setup(),
            follows(old(self).setup(), old(self).phase(), event, final(self).phase(), step@),
    {
        let archives = match (self.phase, event) {
            (Phase::Probing, Event::Probed(status)) => match decide_rotation(
                self.rotation_strategy,
                self.max_file_size,
                status,
            ) {
                Rotation::Archive => true,
                _ => false,
            },
            _ => false,
        };
        let date = if archives {
            local_time_text("%Y-%m-%d")
        } else {
            String::new()
        };
        let step = self.advance_on(event, date.as_str());
        assert((self.phase(), step@) == transition(old(self).setup(), old(self).phase(), event, date@));
        step
    }

    /// Hands the logger out once the sinks are attached. Before that, the
    /// error is the one that ended the start-up, or `InitError::Protocol`
    /// where the start-up has not ended.
    pub fn build(self) -> (built: Result<Logger, InitError>)
        ensures
            match self.phase() {
                Phase::Ready => built matches Ok(logger) && logger.directory()
                    == self.setup().directory && logger.strategy() == self.setup().strategy,
                Phase::Failed(error) => built matches Err(reason) && reason == error,
                _ => built matches Err(reason) && reason == InitError::Protocol,
            },
    {
        match self.phase {
            Phase::Ready => Ok(Logger { rotation_strategy: self.rotation_strategy, path: self.path }),
            Phase::Failed(error) => Err(error),
            _ => Err(InitError::Protocol),
        }
    }
}

impl Logger {
    /// The log directory.
    pub closed spec fn directory(&self) -> Seq<char> {
        self.path@
    }

    /// The strategy that the log file was rotated with.
    pub closed spec fn strategy(&self) -> RotationStrategy {
        self.rotation_strategy
    }

    /// The path of the log file, the same for the whole life of the logger.
    pub fn file_path(&self) -> (path: String)
        ensures
            path@ == log_file_path(self.directory()),
    {
        log_file_in(self.path.as_str())
    }

    /// Makes the line for a message: the host writes it, as it is, to the
    /// console and to the file. Every level passes. The time stamp is the
    /// local time of the moment of the call.
    pub fn log(&self, level: LogLevel, message: String) -> (line: String)
        ensures
            is_log_line(line@, level, message@),
    {
        let stamp = local_time_text("[%Y-%m-%d][%H:%M:%S]");
        let line = format_line(stamp.as_str(), "tauri_log_plugin", level, message.as_str());
        assert(line@ == line_text(stamp@, log_target(), level, message@));
        line
    }

    /// Serves a payload of the front-end: the level and the line for the
    /// message of a log command, or the reason why the payload is no such
    /// command.
    pub fn extend_api(&self, payload: &str) -> (served: Result<(LogLevel, String), DecodeError>)
        ensures
            match command_in(payload@) {
                Ok((level, message)) => served matches Ok((at, line)) && at == level && is_log_line(
                    line@,
                    level,
                    message,
                ),
                Err(fault) => served matches Err(error) && error.fault == fault && (fault
                    != DecodeFault::Syntax ==> error.detail@ == fault_text(fault)),
            },
    {
        match decode_command(payload) {
            Ok(LogCmd::TauriPluginLog { level, message }) => {
                let line = self.log(level, message);
                Ok((level, line))
            },
            Err(error) => Err(error),
        }
    }
}

} // verus!
