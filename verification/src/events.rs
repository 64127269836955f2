//! The progress/event protocol and the orchestrator state machine.
//!
//! Workers report progress as discrete [`ProgressEvent`] values on a
//! multi-producer single-consumer bus owned by the external driver.  Two
//! sentinel kinds close the two phases of a run; every `Deleted` event of
//! a phase stands strictly before that phase's sentinel.  The orchestrator
//! owns the run flags and steps `Idle → TrimmingMemory → Cleaning → Idle`.

use vstd::prelude::*;
use crate::tally::{sum_counts, total_of};

verus! {

/// One unit of the engine's output stream.
#[derive(Clone, Debug)]
pub enum ProgressEvent {
    /// Human-readable progress text.
    Info(String),
    /// One entry was removed: the human label of its kind, and its path.
    Deleted(String, String),
    /// The memory-trim phase finished, with the number of processes trimmed.
    MemoryTrimComplete(usize),
    /// The cleaning phase finished, with the whole run's removal total.
    CleaningComplete(usize),
}

/// The observable run flag: what phase, if any, is in progress.
#[derive(Clone, Copy, Debug, PartialEq, Eq, Structural)]
pub enum RunState {
    Idle,
    TrimmingMemory,
    Cleaning,
}

/// The total a finished cleaning phase reports: the per-directory counts,
/// plus the log sweep's count, plus one if the recycle bin was emptied.
pub open spec fn run_total(dir_counts: Seq<usize>, log_count: usize, recycle_ok: bool) -> int {
    sum_counts(dir_counts) + log_count + (if recycle_ok { 1int } else { 0int })
}

/// Sequences one cleanup run and owns the single "in progress" flag.
/// Re-enterable: a finished run returns to `Idle` and a new one may start.
pub struct Orchestrator {
    /// The phase in progress.
    pub state: RunState,
    /// Processes trimmed by the finished memory-trim phase of this run.
    pub trimmed: usize,
    /// Entries removed by the last finished run.
    pub cleaned: usize,
}

impl Orchestrator {
    /// A fresh engine: idle, nothing trimmed, nothing cleaned.
    pub fn new() -> (o: Self)
        ensures
            o.state == RunState::Idle,
            o.trimmed == 0,
            o.cleaned == 0,
    {
        Orchestrator { state: RunState::Idle, trimmed: 0, cleaned: 0 }
    }

    /// Starts a run: the memory-trim phase begins.  Only an idle engine
    /// may start, so overlapping runs cannot occur.
    pub fn begin_run(&mut self)
        requires
            old(self).state == RunState::Idle,
        ensures
            final(self).state == RunState::TrimmingMemory,
            final(self).trimmed == 0,
            final(self).cleaned == old(self).cleaned,
    {
        self.state = RunState::TrimmingMemory;
        self.trimmed = 0;
    }

    /// Ends the memory-trim phase with its process count and hands back
    /// the sentinel event; the cleaning phase begins.
    pub fn finish_trim(&mut self, trimmed: usize) -> (ev: ProgressEvent)
        requires
            old(self).state == RunState::TrimmingMemory,
        ensures
            final(self).state == RunState::Cleaning,
            final(self).trimmed == trimmed,
            final(self).cleaned == old(self).cleaned,
            ev == ProgressEvent::MemoryTrimComplete(trimmed),
    {
        self.state = RunState::Cleaning;
        self.trimmed = trimmed;
        ProgressEvent::MemoryTrimComplete(trimmed)
    }

    /// Ends the cleaning phase: sums the per-directory counts, the log
    /// sweep's count, and the recycle-bin result into the run total, hands
    /// back the completion sentinel, and returns the engine to idle.
    pub fn finish_cleaning(&mut self, dir_counts: &Vec<usize>, log_count: usize, recycle_ok: bool)
        -> (ev: ProgressEvent)
        requires
            old(self).state == RunState::Cleaning,
            run_total(dir_counts@, log_count, recycle_ok) <= usize::MAX,
        ensures
            final(self).state == RunState::Idle,
            final(self).trimmed == old(self).trimmed,
            final(self).cleaned == run_total(dir_counts@, log_count, recycle_ok),
            ev == ProgressEvent::CleaningComplete(final(self).cleaned),
    {
        proof {
            crate::tally::lemma_sum_counts_nonneg(dir_counts@);
        }
        let mut total: usize = total_of(dir_counts);
        total = total + log_count;
        if recycle_ok {
            total = total + 1;
        }
        self.state = RunState::Idle;
        self.cleaned = total;
        ProgressEvent::CleaningComplete(total)
    }
}

/// The queryable results of one finished run, as an external consumer
/// (for instance a telemetry uploader) reads them.
pub struct RunSummary {
    /// Entries removed by the run.
    pub files_cleaned_count: usize,
    /// Processes whose working set was trimmed.
    pub memory_processes_count: usize,
    /// The labels of the progress lines the run produced.
    pub cleaned_files: Vec<String>,
    /// The top-level paths the run scanned.
    pub cleanup_paths: Vec<String>,
    /// Whether the run had elevated access.
    pub elevated: bool,
    /// Wall-clock duration of the run in seconds.
    pub total_duration_seconds: u64,
}

impl Orchestrator {
    /// The results of the last finished run, paired with what the driver
    /// observed alongside it.
    pub fn summary(
        &self,
        cleaned_files: Vec<String>,
        cleanup_paths: Vec<String>,
        elevated: bool,
        total_duration_seconds: u64,
    ) -> (s: RunSummary)
        ensures
            s.files_cleaned_count == self.cleaned,
            s.memory_processes_count == self.trimmed,
            s.cleaned_files == cleaned_files,
            s.cleanup_paths == cleanup_paths,
            s.elevated == elevated,
            s.total_duration_seconds == total_duration_seconds,
    {
        RunSummary {
            files_cleaned_count: self.cleaned,
            memory_processes_count: self.trimmed,
            cleaned_files,
            cleanup_paths,
            elevated,
            total_duration_seconds,
        }
    }
}

/// Closes a phase on the event bus: the sentinel is enqueued after every
/// event the phase produced, so a consumer sees all of a phase's `Deleted`
/// events strictly before its completion sentinel.
pub fn seal_phase(bus: &mut Vec<ProgressEvent>, sentinel: ProgressEvent)
    ensures
        final(bus)@ == old(bus)@.push(sentinel),
        final(bus)@.len() == old(bus)@.len() + 1,
        final(bus)@[final(bus)@.len() - 1] == sentinel,
        forall|i: int| 0 <= i < old(bus)@.len() ==> final(bus)@[i] == old(bus)@[i],
{
    bus.push(sentinel);
}

} // verus!
