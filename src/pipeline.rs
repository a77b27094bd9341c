use vstd::prelude::*;

use crate::args::Args;
use crate::classify::{classify, decision_of, guessed_media_type, Decision, Selection, SkipReason};
use crate::entry::Entry;
use crate::naming::{destination_name, get_image_destination};
use crate::run_state::{RunCounters, RunState};

verus! {

/// What a worker does with one directory entry once it holds a slot.
#[derive(Clone, Debug)]
pub enum EntryPlan {
    /// Leave the entry out of the run.
    Skip(SkipReason),
    /// The entry was selected and has this new name.
    Named(String),
    /// The entry was selected but its time could not be rendered.
    Unnamed,
}

/// Classifies an entry and, where it is selected, counts it and computes its
/// new name; an entry whose name cannot be computed is counted as failed.
pub fn plan_entry(state: &mut RunState, cli: &Args, selection: &Selection, entry: &Entry) -> (r:
    EntryPlan)
    requires
        old(state).wf(),
        old(state).counts().total < u64::MAX,
    ensures
        final(state).wf(),
        ({
            let decision = decision_of(entry.is_dir, entry.name@, *selection, guessed_media_type(entry.name@));
            let selected = RunCounters { total: (old(state).counts().total + 1) as u64, ..old(state).counts() };
            match decision {
                Decision::Skipped(reason) => r == EntryPlan::Skip(reason) && *final(state) == *old(state),
                Decision::Eligible => match destination_name(*cli, entry.name@, entry.modified) {
                    Some(n) => r matches EntryPlan::Named(s) && s@ == n
                        && final(state).counts() == selected
                        && final(state).pending() == old(state).pending() + 1,
                    None => r is Unnamed
                        && final(state).counts() == RunCounters { failed: (selected.failed + 1) as u64, ..selected }
                        && final(state).pending() == old(state).pending(),
                },
            }
        }),
        final(state).copying() == old(state).copying(),
        forall|d: Seq<char>| #![auto] final(state).seen(d) == old(state).seen(d) && final(state).is_claimed(d) == old(state).is_claimed(d)
            && final(state).copied(d) == old(state).copied(d) && final(state).is_copying(d) == old(state).is_copying(d),
{
    match classify(entry, selection) {
        Decision::Skipped(reason) => EntryPlan::Skip(reason),
        Decision::Eligible => {
            state.select();
            match get_image_destination(cli, entry.name.as_str(), &entry.modified) {
                Some(name) => EntryPlan::Named(name),
                None => {
                    state.record_naming_failure();
                    EntryPlan::Unnamed
                },
            }
        },
    }
}

/// How a failed copy is retried: how many attempts in all, and how long to
/// wait between two of them.
#[derive(Clone, Copy, Debug, PartialEq, Eq, Structural)]
pub struct RetryPolicy {
    pub max_attempts: u32,
    pub delay_ms: u64,
}

/// How many times a copy is attempted in all.
pub const COPY_ATTEMPTS: u32 = 3;

/// The wait between two copy attempts, in milliseconds.
pub const RETRY_DELAY_MS: u64 = 100;

impl RetryPolicy {
    /// The policy of a run: three attempts, a tenth of a second apart.
    pub fn standard() -> (r: RetryPolicy)
        ensures
            r.max_attempts == COPY_ATTEMPTS,
            r.delay_ms == RETRY_DELAY_MS,
    {
        RetryPolicy { max_attempts: COPY_ATTEMPTS, delay_ms: RETRY_DELAY_MS }
    }
}

/// What follows a copy attempt.
#[derive(Clone, Copy, Debug, PartialEq, Eq, Structural)]
pub enum CopyStep {
    /// The copy succeeded.
    Done,
    /// Wait this many milliseconds, then try again.
    RetryAfter(u64),
    /// Every attempt failed: count the entry as failed and go on.
    GiveUp,
}

/// Decides what follows the copy attempt numbered `attempts` (counting from
/// one): done on success; after a failure, another attempt while the policy
/// allows one, else giving up.
pub fn after_attempt(policy: &RetryPolicy, attempts: u32, succeeded: bool) -> (r: CopyStep)
    requires
        attempts >= 1,
    ensures
        r == (if succeeded {
            CopyStep::Done
        } else if attempts < policy.max_attempts {
            CopyStep::RetryAfter(policy.delay_ms)
        } else {
            CopyStep::GiveUp
        }),
{
    if succeeded {
        CopyStep::Done
    } else if attempts < policy.max_attempts {
        CopyStep::RetryAfter(policy.delay_ms)
    } else {
        CopyStep::GiveUp
    }
}

/// Why a run renamed nothing.
#[derive(Clone, Copy, Debug, PartialEq, Eq, Structural)]
pub enum NothingReason {
    /// Files were chosen by extension, and none was copied.
    NoneSelected,
    /// Every file was to be renamed, and none was copied.
    NoFilesFound,
    /// Images were to be renamed, and none was copied.
    NoImagesFound,
}

/// The outcome of a run, decided from its final counters.
#[derive(Clone, Copy, Debug, PartialEq, Eq, Structural)]
pub enum Report {
    /// A preview: `existing` of the new names exist on disk already.
    Preview { existing: u64 },
    /// Duplicates were found: the run's output is discarded.
    Duplicates { count: u64 },
    /// Nothing was renamed: the empty destination is removed.
    Nothing(NothingReason),
    /// `renamed` of `total` selected entries were renamed; `files` tells
    /// files from images; `complete` tells whether every one was.
    Renamed { renamed: u64, total: u64, files: bool, complete: bool },
}

/// The outcome of a run with these final counters.
pub open spec fn report_of(c: RunCounters, preview: bool, extension: bool, all: bool) -> Report {
    if preview {
        Report::Preview { existing: c.duplicate }
    } else if c.duplicate > 0 {
        Report::Duplicates { count: c.duplicate }
    } else if c.renamed == 0 {
        Report::Nothing(
            if extension {
                NothingReason::NoneSelected
            } else if all {
                NothingReason::NoFilesFound
            } else {
                NothingReason::NoImagesFound
            },
        )
    } else {
        Report::Renamed {
            renamed: c.renamed,
            total: c.total,
            files: all || extension,
            complete: c.renamed == c.total,
        }
    }
}

/// Decides the outcome of a run once every worker has finished: a preview
/// reports the names that exist already; a run with duplicates is invalid;
/// a run that renamed nothing says why; any other reports what it renamed.
pub fn summarize(counts: &RunCounters, cli: &Args) -> (r: Report)
    ensures
        r == report_of(*counts, cli.preview, cli.extension, cli.all),
{
    if cli.preview {
        Report::Preview { existing: counts.duplicate }
    } else if counts.duplicate > 0 {
        Report::Duplicates { count: counts.duplicate }
    } else if counts.renamed == 0 {
        let reason = if cli.extension {
            NothingReason::NoneSelected
        } else if cli.all {
            NothingReason::NoFilesFound
        } else {
            NothingReason::NoImagesFound
        };
        Report::Nothing(reason)
    } else {
        Report::Renamed {
            renamed: counts.renamed,
            total: counts.total,
            files: cli.all || cli.extension,
            complete: counts.renamed == counts.total,
        }
    }
}

impl Report {
    /// Whether the destination directory is to be removed: after duplicates,
    /// or when nothing was renamed.
    pub fn discards_destination(&self) -> (r: bool)
        ensures
            r == (self is Duplicates || self is Nothing),
    {
        match self {
            Report::Duplicates { .. } => true,
            Report::Nothing(_) => true,
            _ => false,
        }
    }
}

} // verus!
