//! The text of a log line.

use vstd::prelude::*;
use vstd::string::*;
use crate::level::LogLevel;

verus! {

/// A log line: the time stamp, the origin and the level in brackets, a
/// space, the message.
pub open spec fn line_text(
    stamp: Seq<char>,
    target: Seq<char>,
    level: LogLevel,
    message: Seq<char>,
) -> Seq<char> {
    stamp + "["@ + target + "]["@ + level.tag() + "] "@ + message
}

/// Writes a log line out. `stamp` is the time in the form
/// `[YYYY-MM-DD][HH:MM:SS]`, `target` names where the message comes from.
pub fn format_line(stamp: &str, target: &str, level: LogLevel, message: &str) -> (line: String)
    ensures
        line@ == line_text(stamp@, target@, level, message@),
{
    let mut line = String::from_str(stamp);
    line.append("[");
    line.append(target);
    line.append("][");
    line.append(level.name());
    line.append("] ");
    line.append(message);
    line
}

} // verus!
