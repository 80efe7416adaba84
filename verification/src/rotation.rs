//! The rotation policy: what becomes of an existing log file at start-up.

use vstd::prelude::*;
use vstd::string::*;

verus! {

/// What happens to a log file that has grown beyond the threshold.
#[derive(Clone, Copy, Debug, PartialEq, Eq, Structural)]
pub enum RotationStrategy {
    /// The file is deleted.
    KeepOne,
    /// The file is kept under a name that holds the date.
    KeepAll,
}

/// What the host found at the path of the log file.
#[derive(Clone, Copy, Debug, PartialEq, Eq, Structural)]
pub enum FileStatus {
    /// There is no file.
    Missing,
    /// There is a file of this many bytes.
    Present(u64),
}

/// What is done to the log file before the first line is written.
#[derive(Clone, Copy, Debug, PartialEq, Eq, Structural)]
pub enum Rotation {
    /// Nothing: new lines are appended to what is there.
    Keep,
    /// The file is renamed to the archive name of the day.
    Archive,
    /// The file is deleted.
    Remove,
}

/// The rotation that the policy asks for: none where there is no file or the
/// file is not longer than the threshold, else the one of the strategy.
pub open spec fn rotation_for(strategy: RotationStrategy, max_size: u128, status: FileStatus) -> Rotation {
    match status {
        FileStatus::Missing => Rotation::Keep,
        FileStatus::Present(length) => if length <= max_size {
            Rotation::Keep
        } else {
            match strategy {
                RotationStrategy::KeepAll => Rotation::Archive,
                RotationStrategy::KeepOne => Rotation::Remove,
            }
        },
    }
}

/// The path of the log file in a directory: `<directory>/app.log`.
pub open spec fn log_file_path(directory: Seq<char>) -> Seq<char> {
    directory + "/"@ + "app.log"@
}

/// The path under which a log file is archived: `<directory>/app-<date>.log`.
pub open spec fn archive_file_path(directory: Seq<char>, date: Seq<char>) -> Seq<char> {
    directory + "/"@ + "app-"@ + date + ".log"@
}

/// Decides what is done to the log file.
pub fn decide_rotation(strategy: RotationStrategy, max_size: u128, status: FileStatus) -> (rotation:
    Rotation)
    ensures
        rotation == rotation_for(strategy, max_size, status),
{
    match status {
        FileStatus::Missing => Rotation::Keep,
        FileStatus::Present(length) => {
            let length: u128 = length as u128;
            if length <= max_size {
                Rotation::Keep
            } else {
                match strategy {
                    RotationStrategy::KeepAll => Rotation::Archive,
                    RotationStrategy::KeepOne => Rotation::Remove,
                }
            }
        },
    }
}

/// Builds the path of the log file in a directory.
pub fn log_file_in(directory: &str) -> (path: String)
    ensures
        path@ == log_file_path(directory@),
{
    let mut path = String::from_str(directory);
    path.append("/");
    path.append("app.log");
    path
}

/// Builds the path under which the log file is archived on a date. `date` is
/// the local date in the form `YYYY-MM-DD`.
pub fn archive_file_in(directory: &str, date: &str) -> (path: String)
    ensures
        path@ == archive_file_path(directory@, date@),
{
    let mut path = String::from_str(directory);
    path.append("/");
    path.append("app-");
    path.append(date);
    path.append(".log");
    path
}

/// An archive never takes the place of the log file itself, whatever stands
/// for the date.
pub proof fn lemma_archive_is_not_log_file(directory: Seq<char>, date: Seq<char>)
    ensures
        archive_file_path(directory, date) != log_file_path(directory),
{
    reveal_strlit("/");
    reveal_strlit("app.log");
    reveal_strlit("app-");
    reveal_strlit(".log");
    let log = log_file_path(directory);
    let archive = archive_file_path(directory, date);
    let at: int = directory.len() as int + 4;
    assert(log[at] == '.');
    assert(archive[at] == '-');
}

} // verus!
