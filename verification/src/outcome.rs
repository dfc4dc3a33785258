use vstd::prelude::*;

verus! {

/// Why the scan of a single file failed. A failure is recorded, never
/// propagated: it must not abort the batch or the run.
#[derive(Clone, Copy, Debug, PartialEq, Eq, Structural)]
pub enum ScanErrorKind {
    /// The scan did not finish within the configured per-file timeout.
    Timeout,
    /// The matcher itself reported an error for this file.
    MatcherError,
    /// The file could not be read.
    IoError,
}

/// The outcome of one file's scan: either the names of every rule that
/// matched (an empty list is a scanned-clean file), or the kind of failure.
/// Exactly one outcome is produced per dispatched file.
#[derive(Debug, PartialEq, Eq)]
pub enum ScanOutcome {
    Matched(Vec<String>),
    Failed(ScanErrorKind),
}

/// How many rule matches one outcome contributes: the number of matched
/// rule names on success, zero on failure.
pub open spec fn match_count(o: ScanOutcome) -> nat {
    match o {
        ScanOutcome::Matched(ids) => ids@.len(),
        ScanOutcome::Failed(_) => 0,
    }
}

/// Whether an outcome is a failure of the given kind.
pub open spec fn is_failure(o: ScanOutcome, k: ScanErrorKind) -> bool {
    match o {
        ScanOutcome::Matched(_) => false,
        ScanOutcome::Failed(kk) => kk == k,
    }
}

/// The total number of rule matches over a result table: the sum of
/// `match_count` over every recorded outcome.
pub open spec fn total_matches_of(table: Seq<(String, ScanOutcome)>) -> nat
    decreases table.len(),
{
    if table.len() == 0 {
        0
    } else {
        total_matches_of(table.drop_last()) + match_count(table.last().1)
    }
}

/// How many entries of a result table failed with the given kind.
pub open spec fn failed_count_of(table: Seq<(String, ScanOutcome)>, k: ScanErrorKind) -> nat
    decreases table.len(),
{
    if table.len() == 0 {
        0
    } else {
        failed_count_of(table.drop_last(), k) + if is_failure(table.last().1, k) {
            1nat
        } else {
            0nat
        }
    }
}

/// How many entries of a result table carry the given path (compared by
/// characters, the key of the table).
pub open spec fn key_count(table: Seq<(String, ScanOutcome)>, key: Seq<char>) -> nat
    decreases table.len(),
{
    if table.len() == 0 {
        0
    } else {
        key_count(table.drop_last(), key) + if table.last().0@ == key {
            1nat
        } else {
            0nat
        }
    }
}

} // verus!
