//! A host that never fails, as a model, and what a start-up does to its
//! files.
//!
//! The library never sees the file system. What it asks of the host is meant
//! for one that looks files up, renames and deletes as told; the laws below
//! say what the start-up protocol comes to against such a host.

use vstd::prelude::*;
use crate::rotation::{archive_file_path, lemma_archive_is_not_log_file, log_file_path, FileStatus, RotationStrategy};
use crate::startup::{transition, Event, Phase, Setup, StepView};

verus! {

/// The files of a host: each path with the bytes under it.
pub type Files = Map<Seq<char>, Seq<u8>>;

/// What a look at a path finds.
pub open spec fn status_at(files: Files, path: Seq<char>) -> FileStatus {
    if files.contains_key(path) {
        FileStatus::Present(files[path].len() as u64)
    } else {
        FileStatus::Missing
    }
}

/// What the host reports after a step.
pub open spec fn report(files: Files, step: StepView) -> Event {
    match step {
        StepView::Probe { path } => Event::Probed(status_at(files, path)),
        _ => Event::Done,
    }
}

/// The files after a step. A rename replaces what is at the new path; the
/// file sink, opened to append, creates the file where there is none.
pub open spec fn performed(files: Files, step: StepView) -> Files {
    match step {
        StepView::Archive { from, to } => files.remove(from).insert(to, files[from]),
        StepView::Remove { path } => files.remove(path),
        StepView::Attach { path } => if files.contains_key(path) {
            files
        } else {
            files.insert(path, Seq::<u8>::empty())
        },
        _ => files,
    }
}

/// A start-up under way: the phase, the step that the host is to take, and
/// the files.
pub struct Run {
    pub phase: Phase,
    pub step: StepView,
    pub files: Files,
}

/// The run after the first call.
pub open spec fn begun(setup: Setup, files: Files, date: Seq<char>) -> Run {
    let (phase, step) = transition(setup, Phase::Created, Event::Begin, date);
    Run { phase, step, files }
}

/// The run after the host has taken the pending step and reported it.
pub open spec fn served(setup: Setup, run: Run, date: Seq<char>) -> Run {
    let (phase, step) = transition(setup, run.phase, report(run.files, run.step), date);
    Run { phase, step, files: performed(run.files, run.step) }
}

/// The run at the end of the evaluation of the rotation policy: the log file
/// was looked up and, where the policy asked for it, rotated; the sinks are
/// not attached yet.
pub open spec fn evaluated(setup: Setup, files: Files, date: Seq<char>) -> Run {
    let probed = served(setup, begun(setup, files, date), date);
    if probed.phase == Phase::Rotating {
        served(setup, probed, date)
    } else {
        probed
    }
}

/// The run at the end of the start-up.
pub open spec fn started(setup: Setup, files: Files, date: Seq<char>) -> Run {
    served(setup, evaluated(setup, files, date), date)
}

/// Whether the length of the log file, if there is one, can be reported.
pub open spec fn log_file_fits(setup: Setup, files: Files) -> bool {
    let log_file = log_file_path(setup.directory);
    files.contains_key(log_file) ==> files[log_file].len() <= u64::MAX
}

/// The evaluation always ends with the sinks about to be attached to the
/// same path, `<directory>/app.log`, whatever was found there.
pub proof fn law_evaluation_resolves_log_file(setup: Setup, files: Files, date: Seq<char>)
    requires
        log_file_fits(setup, files),
    ensures
        evaluated(setup, files, date).phase == Phase::Attaching,
        evaluated(setup, files, date).step == (StepView::Attach {
            path: log_file_path(setup.directory),
        }),
{
}

/// A log file that is not longer than the threshold is left untouched, and
/// so is everything else.
pub proof fn law_small_file_untouched(setup: Setup, files: Files, date: Seq<char>)
    requires
        log_file_fits(setup, files),
        files.contains_key(log_file_path(setup.directory)),
        files[log_file_path(setup.directory)].len() <= setup.max_file_size,
    ensures
        evaluated(setup, files, date).files == files,
{
}

/// Under `KeepAll`, a log file that is longer than the threshold is gone
/// after the evaluation, and the archive of the day holds exactly what the
/// log file held; no other file has changed.
pub proof fn law_keep_all_archives(setup: Setup, files: Files, date: Seq<char>)
    requires
        log_file_fits(setup, files),
        files.contains_key(log_file_path(setup.directory)),
        files[log_file_path(setup.directory)].len() > setup.max_file_size,
        setup.strategy == RotationStrategy::KeepAll,
    ensures
        ({
            let log_file = log_file_path(setup.directory);
            let archive = archive_file_path(setup.directory, date);
            let after = evaluated(setup, files, date).files;
            &&& !after.contains_key(log_file)
            &&& after.contains_key(archive)
            &&& after[archive] == files[log_file]
            &&& forall|path: Seq<char>|
                path != log_file && path != archive ==> after.contains_key(path)
                    == files.contains_key(path) && after[path] == files[path]
        }),
{
    lemma_archive_is_not_log_file(setup.directory, date);
}

/// Under `KeepOne`, a log file that is longer than the threshold is gone
/// after the evaluation, and nothing else has changed: no archive was made.
pub proof fn law_keep_one_removes(setup: Setup, files: Files, date: Seq<char>)
    requires
        log_file_fits(setup, files),
        files.contains_key(log_file_path(setup.directory)),
        files[log_file_path(setup.directory)].len() > setup.max_file_size,
        setup.strategy == RotationStrategy::KeepOne,
    ensures
        evaluated(setup, files, date).files == files.remove(log_file_path(setup.directory)),
        !evaluated(setup, files, date).files.contains_key(log_file_path(setup.directory)),
        evaluated(setup, files, date).files.dom().subset_of(files.dom()),
{
}

/// Where there is no log file, the evaluation changes nothing.
pub proof fn law_missing_file_no_op(setup: Setup, files: Files, date: Seq<char>)
    requires
        !files.contains_key(log_file_path(setup.directory)),
    ensures
        evaluated(setup, files, date).files == files,
{
}

/// Evaluating once more, on the same day or another, changes nothing: what
/// the first evaluation leaves behind needs no rotation.
pub proof fn law_evaluation_idempotent(setup: Setup, files: Files, date: Seq<char>, later: Seq<char>)
    requires
        log_file_fits(setup, files),
    ensures
        evaluated(setup, evaluated(setup, files, date).files, later).files == evaluated(
            setup,
            files,
            date,
        ).files,
        evaluated(setup, evaluated(setup, files, date).files, later).step == evaluated(
            setup,
            files,
            date,
        ).step,
{
    lemma_archive_is_not_log_file(setup.directory, date);
}

/// A start-up against a host that never fails ends with the logger ready and
/// a log file in place. Where the old file was longer than the threshold, the
/// new one is empty; else it is the old one.
pub proof fn law_start_up_completes(setup: Setup, files: Files, date: Seq<char>)
    requires
        log_file_fits(setup, files),
    ensures
        ({
            let log_file = log_file_path(setup.directory);
            let after = started(setup, files, date);
            &&& after.phase == Phase::Ready
            &&& after.step == StepView::Finish
            &&& after.files.contains_key(log_file)
            &&& after.files[log_file] == if files.contains_key(log_file) && files[log_file].len()
                <= setup.max_file_size {
                files[log_file]
            } else {
                Seq::<u8>::empty()
            }
        }),
{
    lemma_archive_is_not_log_file(setup.directory, date);
}

} // verus!
