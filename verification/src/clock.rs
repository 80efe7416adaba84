//! The local time, read through `chrono`.

use vstd::prelude::*;

verus! {

/// The pattern of the date in the name of an archived log file.
pub open spec fn date_pattern() -> Seq<char> {
    "%Y-%m-%d"@
}

/// The pattern of the time in front of a log line.
pub open spec fn stamp_pattern() -> Seq<char> {
    "[%Y-%m-%d][%H:%M:%S]"@
}

/// `chrono::Local::now`, then `DateTime::format` with the pattern, written
/// out. Trusted, and nothing is claimed of the text: it depends on the clock
/// and on the time zone of the machine. The patterns are limited to the two
/// above, which hold no item that `chrono` refuses to write out. `chrono`
/// gives up on a clock that stands before 1970; no argument decides that.
#[verifier::external_body]
pub(crate) fn local_time_text(pattern: &str) -> (text: String)
    requires
        pattern@ == date_pattern() || pattern@ == stamp_pattern(),
{
    chrono::Local::now().format(pattern).to_string()
}

} // verus!
