use vstd::prelude::*;

use crate::outcome::{failed_count_of, key_count, total_matches_of, ScanErrorKind, ScanOutcome};
use crate::progress::{lemma_percent_complete_iff_done, percent_complete, spec_percent,
    ProgressState};
use crate::report::{summarize, RunReport};

verus! {

/// The batch scheduler: owns the work queue and drives it to completion with
/// bounded concurrency. It hands out batches of at most `max_concurrency`
/// paths, and records the outcomes of a joined batch before the next batch
/// starts. Failures are recorded like any other outcome; they never abort
/// the run. A front end that scans concurrently calls `next_batch`, scans
/// every path of the batch (in any order), then joins and calls
/// `record_batch` with one outcome per path, in batch order.
pub struct Scheduler {
    /// The fixed, finite work queue, as discovery produced it. Never grows,
    /// never reordered.
    pub files: Vec<String>,
    /// How many files from the front of the queue have a recorded outcome.
    pub scanned: usize,
    /// The append-only result table: one entry per dispatched file, in queue
    /// order, never overwritten.
    pub results: Vec<(String, ScanOutcome)>,
    /// The most scan tasks ever in flight at once.
    pub max_concurrency: usize,
    /// The bound on each individual scan, in seconds.
    pub timeout_seconds: u16,
}

impl Scheduler {
    /// Well-formedness: the concurrency bound is positive, the scanned count
    /// never exceeds the queue, and the result table holds exactly one entry
    /// per scanned file, keyed in queue order.
    pub open spec fn wf(self) -> bool {
        &&& self.max_concurrency >= 1
        &&& self.scanned <= self.files@.len()
        &&& self.results@.len() == self.scanned
        &&& forall|i: int| 0 <= i < self.scanned ==> self.results@[i].0 == self.files@[i]
    }

    /// How many files still await scanning.
    pub open spec fn remaining(self) -> int {
        self.files@.len() - self.scanned
    }

    /// The size of the next batch: `max_concurrency`, or whatever is left of
    /// the queue at the tail.
    pub open spec fn batch_size(self) -> int {
        if self.remaining() < self.max_concurrency {
            self.remaining()
        } else {
            self.max_concurrency as int
        }
    }

    /// A fresh scheduler over a discovered queue. Nothing scanned yet.
    pub fn new(files: Vec<String>, max_concurrency: usize, timeout_seconds: u16) -> (s: Self)
        requires
            max_concurrency >= 1,
        ensures
            s.wf(),
            s.files@ == files@,
            s.scanned == 0,
            s.results@.len() == 0,
            s.max_concurrency == max_concurrency,
            s.timeout_seconds == timeout_seconds,
    {
        Scheduler { files, scanned: 0, results: Vec::new(), max_concurrency, timeout_seconds }
    }

    /// Whether the queue is fully drained.
    pub fn is_finished(&self) -> (r: bool)
        requires
            self.wf(),
        ensures
            r == (self.scanned == self.files@.len()),
    {
        self.scanned == self.files.len()
    }

    /// The next batch to dispatch: the first unscanned paths of the queue,
    /// never more than `max_concurrency` of them (the concurrency bound), and
    /// fewer only at the tail of the queue.
    pub fn next_batch(&self) -> (batch: Vec<String>)
        requires
            self.wf(),
        ensures
            batch@.len() == self.batch_size(),
            batch@.len() <= self.max_concurrency,
            forall|i: int| 0 <= i < batch@.len() ==> batch@[i] == self.files@[self.scanned + i],
    {
        let remaining = self.files.len() - self.scanned;
        let count = if remaining < self.max_concurrency {
            remaining
        } else {
            self.max_concurrency
        };
        let mut batch: Vec<String> = Vec::new();
        let mut i: usize = 0;
        while i < count
            invariant
                i <= count,
                count == self.batch_size(),
                self.scanned + count <= self.files@.len(),
                self.files@.len() <= usize::MAX,
                self.wf(),
                batch@.len() == i,
                forall|j: int| 0 <= j < i ==> batch@[j] == self.files@[self.scanned + j],
            decreases count - i,
        {
            let p = self.files[self.scanned + i].clone();
            batch.push(p);
            i = i + 1;
        }
        batch
    }

    /// Records a joined batch: one outcome per batch file, in batch order.
    /// Appends to the result table, keyed by the queue's own paths, and
    /// advances the scanned count by the batch size. Earlier entries are
    /// never touched.
    #[verifier::loop_isolation(false)]
    pub fn record_batch(&mut self, outcomes: Vec<ScanOutcome>)
        requires
            old(self).wf(),
            outcomes@.len() == old(self).batch_size(),
        ensures
            final(self).wf(),
            final(self).files@ == old(self).files@,
            final(self).max_concurrency == old(self).max_concurrency,
            final(self).timeout_seconds == old(self).timeout_seconds,
            final(self).scanned == old(self).scanned + outcomes@.len(),
            final(self).results@.len() == old(self).results@.len() + outcomes@.len(),
            forall|i: int|
                0 <= i < old(self).scanned ==> final(self).results@[i] == old(self).results@[i],
            forall|i: int|
                0 <= i < outcomes@.len() ==> final(self).results@[old(self).scanned + i].1
                    == outcomes@[i],
    {
        let ghost handed = outcomes@;
        let mut pending = outcomes;
        let count = pending.len();
        let total = self.files.len();
        let mut i: usize = 0;
        while i < count
            invariant
                i <= count,
                total == self.files@.len(),
                self.scanned + (count - i) <= total,
                pending@ =~= handed.subrange(i as int, count as int),
                self.files@ == old(self).files@,
                self.max_concurrency == old(self).max_concurrency,
                self.timeout_seconds == old(self).timeout_seconds,
                self.scanned == old(self).scanned + i,
                self.results@.len() == old(self).scanned + i,
                forall|j: int|
                    0 <= j < old(self).scanned ==> self.results@[j] == old(self).results@[j],
                forall|j: int|
                    0 <= j < i ==> self.results@[old(self).scanned + j].1 == handed[j],
                forall|j: int|
                    0 <= j < self.scanned ==> self.results@[j].0 == self.files@[j],
            decreases count - i,
        {
            let path = self.files[self.scanned].clone();
            let o = pending.remove(0);
            proof {
                assert(pending@ =~= handed.subrange(i + 1, count as int));
            }
            self.results.push((path, o));
            self.scanned = self.scanned + 1;
            i = i + 1;
        }
    }

    /// The progress snapshot after the last joined batch. The percentage is
    /// exact: 100 precisely when the queue is drained.
    pub fn progress(&self) -> (p: ProgressState)
        requires
            self.wf(),
        ensures
            p.files_scanned == self.scanned,
            p.total_files == self.files@.len(),
            p.percent == spec_percent(self.scanned as nat, self.files@.len() as nat),
            p.percent <= 100,
            (p.percent == 100) <==> (self.scanned == self.files@.len()),
    {
        ProgressState {
            files_scanned: self.scanned,
            total_files: self.files.len(),
            percent: percent_complete(self.scanned, self.files.len()),
        }
    }

    /// Folds the result table into the final report. Valid at any batch
    /// boundary: a run cancelled between batches reports exactly the files
    /// that completed.
    pub fn into_report(self, elapsed_ms: u64) -> (r: RunReport)
        requires
            self.wf(),
        ensures
            r.files_scanned == self.scanned,
            r.per_file@ == self.results@,
            r.total_matches == total_matches_of(self.results@),
            r.failed_timeouts == failed_count_of(self.results@, ScanErrorKind::Timeout),
            r.failed_matcher == failed_count_of(self.results@, ScanErrorKind::MatcherError),
            r.failed_io == failed_count_of(self.results@, ScanErrorKind::IoError),
            r.elapsed_ms == elapsed_ms,
    {
        summarize(self.results, elapsed_ms)
    }

    /// Law: once the queue is drained, a well-formed scheduler with pairwise
    /// distinct queued paths has recorded exactly one outcome for every
    /// queued file — none dropped, none duplicated.
    pub proof fn lemma_records_each_file_once(self)
        requires
            self.wf(),
            self.scanned == self.files@.len(),
            forall|i: int, j: int|
                0 <= i < j < self.files@.len() ==> self.files@[i]@ != self.files@[j]@,
        ensures
            forall|i: int|
                0 <= i < self.files@.len() ==> key_count(self.results@, self.files@[i]@) == 1,
    {
        lemma_one_outcome_per_file(self.files@, self.results@);
    }
}

/// Runs a whole schedule to completion in one call, given the outcome of
/// each file's scan (`outcomes[i]` belongs to `files[i]`): drains the queue
/// batch by batch exactly as a concurrent front end would through
/// `next_batch` and `record_batch`, then reports. An empty queue yields the
/// empty report at once, with no batch dispatched.
#[verifier::loop_isolation(false)]
pub fn run(
    files: Vec<String>,
    outcomes: Vec<ScanOutcome>,
    max_concurrency: usize,
    timeout_seconds: u16,
    elapsed_ms: u64,
) -> (r: RunReport)
    requires
        max_concurrency >= 1,
        outcomes@.len() == files@.len(),
    ensures
        r.files_scanned == files@.len(),
        r.per_file@.len() == files@.len(),
        forall|i: int|
            0 <= i < files@.len() ==> r.per_file@[i].0 == files@[i] && r.per_file@[i].1
                == outcomes@[i],
        r.total_matches == total_matches_of(r.per_file@),
        r.failed_timeouts == failed_count_of(r.per_file@, ScanErrorKind::Timeout),
        r.failed_matcher == failed_count_of(r.per_file@, ScanErrorKind::MatcherError),
        r.failed_io == failed_count_of(r.per_file@, ScanErrorKind::IoError),
        r.elapsed_ms == elapsed_ms,
        spec_percent(r.files_scanned as nat, files@.len() as nat) == 100,
{
    let ghost files_view = files@;
    let ghost outcomes_view = outcomes@;
    let mut pending = outcomes;
    let mut sched = Scheduler::new(files, max_concurrency, timeout_seconds);
    while sched.scanned < sched.files.len()
        invariant
            sched.wf(),
            sched.files@ == files_view,
            sched.max_concurrency == max_concurrency,
            pending@ =~= outcomes_view.subrange(sched.scanned as int, files_view.len() as int),
            forall|i: int| 0 <= i < sched.scanned ==> sched.results@[i].1 == outcomes_view[i],
        decreases files_view.len() - sched.scanned,
    {
        let bsize = {
            let remaining = sched.files.len() - sched.scanned;
            if remaining < sched.max_concurrency {
                remaining
            } else {
                sched.max_concurrency
            }
        };
        let ghost at = sched.scanned as int;
        let mut batch_outcomes: Vec<ScanOutcome> = Vec::new();
        let mut j: usize = 0;
        while j < bsize
            invariant
                j <= bsize,
                bsize == sched.batch_size(),
                batch_outcomes@ =~= outcomes_view.subrange(at, at + j),
                pending@ =~= outcomes_view.subrange(at + j, files_view.len() as int),
            decreases bsize - j,
        {
            let o = pending.remove(0);
            batch_outcomes.push(o);
            j = j + 1;
        }
        sched.record_batch(batch_outcomes);
        proof {
            assert forall|i: int|
                0 <= i < sched.scanned implies sched.results@[i].1 == outcomes_view[i] by {
                if i >= at {
                    assert(sched.results@[at + (i - at)].1 == batch_outcomes@[i - at]);
                }
            }
        }
    }
    proof {
        lemma_percent_complete_iff_done(sched.scanned as nat, files_view.len() as nat);
    }
    sched.into_report(elapsed_ms)
}

/// Law: a completed result table that pairs the queue's paths one to one
/// records, for pairwise distinct paths, exactly one outcome per queued
/// file — no duplicates, no omissions.
pub proof fn lemma_one_outcome_per_file(files: Seq<String>, table: Seq<(String, ScanOutcome)>)
    requires
        table.len() == files.len(),
        forall|i: int| 0 <= i < table.len() ==> table[i].0 == files[i],
        forall|i: int, j: int| 0 <= i < j < files.len() ==> files[i]@ != files[j]@,
    ensures
        forall|i: int| 0 <= i < files.len() ==> key_count(table, files[i]@) == 1,
{
    assert forall|i: int| 0 <= i < files.len() implies key_count(table, files[i]@) == 1 by {
        assert forall|j: int| 0 <= j < table.len() && j != i implies table[j].0@ != files[i]@ by {
            if j < i {
                assert(files[j]@ != files[i]@);
            } else {
                assert(files[i]@ != files[j]@);
            }
        }
        lemma_key_count_single(table, files[i]@, i);
    }
}

/// No entry of the table carries the key: the key is counted zero times.
proof fn lemma_key_count_absent(table: Seq<(String, ScanOutcome)>, key: Seq<char>)
    requires
        forall|j: int| 0 <= j < table.len() ==> table[j].0@ != key,
    ensures
        key_count(table, key) == 0,
    decreases table.len(),
{
    if table.len() > 0 {
        lemma_key_count_absent(table.drop_last(), key);
    }
}

/// Exactly one entry of the table carries the key: it is counted once.
proof fn lemma_key_count_single(table: Seq<(String, ScanOutcome)>, key: Seq<char>, idx: int)
    requires
        0 <= idx < table.len(),
        table[idx].0@ == key,
        forall|j: int| 0 <= j < table.len() && j != idx ==> table[j].0@ != key,
    ensures
        key_count(table, key) == 1,
    decreases table.len(),
{
    if idx == table.len() - 1 {
        lemma_key_count_absent(table.drop_last(), key);
    } else {
        lemma_key_count_single(table.drop_last(), key, idx);
    }
}

} // verus!
