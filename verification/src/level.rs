//! Severity levels and their encodings.

use vstd::prelude::*;

verus! {

/// The available verbosity levels of the logger, from the least to the most
/// severe.
#[derive(Clone, Copy, Debug, PartialEq, Eq, Structural)]
pub enum LogLevel {
    Trace,
    Debug,
    Info,
    Warn,
    Error,
}

impl LogLevel {
    /// The number that stands for the level in an inbound message.
    pub open spec fn wire_code(self) -> int {
        match self {
            LogLevel::Trace => 1,
            LogLevel::Debug => 2,
            LogLevel::Info => 3,
            LogLevel::Warn => 4,
            LogLevel::Error => 5,
        }
    }

    /// The level that a number of an inbound message stands for, if any.
    pub open spec fn of_wire_code(code: int) -> Option<LogLevel> {
        if code == 1 {
            Some(LogLevel::Trace)
        } else if code == 2 {
            Some(LogLevel::Debug)
        } else if code == 3 {
            Some(LogLevel::Info)
        } else if code == 4 {
            Some(LogLevel::Warn)
        } else if code == 5 {
            Some(LogLevel::Error)
        } else {
            None
        }
    }

    /// The tag under which the level appears in a log line.
    pub open spec fn tag(self) -> Seq<char> {
        match self {
            LogLevel::Trace => "TRACE"@,
            LogLevel::Debug => "DEBUG"@,
            LogLevel::Info => "INFO"@,
            LogLevel::Warn => "WARN"@,
            LogLevel::Error => "ERROR"@,
        }
    }

    /// Encodes the level for the wire.
    pub fn code(self) -> (code: u16)
        ensures
            code == self.wire_code(),
    {
        match self {
            LogLevel::Trace => 1,
            LogLevel::Debug => 2,
            LogLevel::Info => 3,
            LogLevel::Warn => 4,
            LogLevel::Error => 5,
        }
    }

    /// Decodes a level from the wire; numbers outside 1..=5 stand for none.
    pub fn from_code(code: u64) -> (level: Option<LogLevel>)
        ensures
            level == LogLevel::of_wire_code(code as int),
    {
        if code == 1 {
            Some(LogLevel::Trace)
        } else if code == 2 {
            Some(LogLevel::Debug)
        } else if code == 3 {
            Some(LogLevel::Info)
        } else if code == 4 {
            Some(LogLevel::Warn)
        } else if code == 5 {
            Some(LogLevel::Error)
        } else {
            None
        }
    }

    /// The level's display name, as it stands between brackets in a log line.
    pub fn name(self) -> (name: &'static str)
        ensures
            name@ == self.tag(),
    {
        match self {
            LogLevel::Trace => "TRACE",
            LogLevel::Debug => "DEBUG",
            LogLevel::Info => "INFO",
            LogLevel::Warn => "WARN",
            LogLevel::Error => "ERROR",
        }
    }
}

/// Decoding undoes encoding, and only the five codes decode.
pub proof fn lemma_wire_code_round_trip(level: LogLevel, code: int)
    ensures
        LogLevel::of_wire_code(level.wire_code()) == Some(level),
        1 <= level.wire_code() <= 5,
        LogLevel::of_wire_code(code) is Some <==> 1 <= code <= 5,
        LogLevel::of_wire_code(code) matches Some(l) ==> l.wire_code() == code,
{
}

} // verus!
