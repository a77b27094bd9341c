//! Renames files by the time they were last modified and copies them into a
//! destination directory, leaving the originals untouched.
//!
//! The library holds the decisions of a run: which directory entries are
//! selected, what each one is named, how collisions among new names are
//! detected, how copies are retried, how many operations may proceed at once,
//! and what the run reports at the end. Reading directories, copying bytes and
//! printing stay with the caller.
pub mod args;
pub mod classify;
pub mod entry;
pub mod file_name;
pub mod naming;
pub mod pipeline;
pub mod run_state;
pub mod slots;

pub use args::{get_filename_delimiter, get_space_character, Args};
pub use classify::{classify, classify_with_media, get_extensions, Decision, Selection, SkipReason};
pub use entry::{Entry, Timestamp};
pub use file_name::split_file_name;
pub use naming::{format_time, get_image_destination};
pub use pipeline::{
    after_attempt, plan_entry, summarize, CopyStep, EntryPlan, NothingReason, Report, RetryPolicy,
};
pub use run_state::{Admission, RunCounters, RunState};
pub use slots::{SlotGauge, CONCURRENCY_CEILING};
