use vstd::prelude::*;

use crate::outcome::{failed_count_of, total_matches_of, ScanErrorKind, ScanOutcome};

verus! {

/// The terminal summary of a run: how many files were scanned, the total
/// number of rule matches, how many files failed by kind, the elapsed wall
/// time, and the full per-file result table.
#[derive(Debug)]
pub struct RunReport {
    pub files_scanned: usize,
    pub total_matches: u128,
    pub failed_timeouts: usize,
    pub failed_matcher: usize,
    pub failed_io: usize,
    pub elapsed_ms: u64,
    pub per_file: Vec<(String, ScanOutcome)>,
}

/// Folds a result table into a `RunReport`: the total number of matches is
/// the sum of `|rule names|` over every successful outcome, and failures are
/// counted separately by kind. Pure and deterministic in the table.
pub fn summarize(table: Vec<(String, ScanOutcome)>, elapsed_ms: u64) -> (r: RunReport)
    ensures
        r.per_file@ == table@,
        r.files_scanned == table@.len(),
        r.total_matches == total_matches_of(table@),
        r.failed_timeouts == failed_count_of(table@, ScanErrorKind::Timeout),
        r.failed_matcher == failed_count_of(table@, ScanErrorKind::MatcherError),
        r.failed_io == failed_count_of(table@, ScanErrorKind::IoError),
        r.elapsed_ms == elapsed_ms,
{
    let n = table.len();
    let mut total: u128 = 0;
    let mut timeouts: usize = 0;
    let mut matcher_errors: usize = 0;
    let mut io_errors: usize = 0;
    let mut i: usize = 0;
    while i < n
        invariant
            i <= n,
            n == table@.len(),
            total == total_matches_of(table@.take(i as int)),
            total <= (i as int) * 0xffff_ffff_ffff_ffff,
            timeouts == failed_count_of(table@.take(i as int), ScanErrorKind::Timeout),
            matcher_errors == failed_count_of(table@.take(i as int), ScanErrorKind::MatcherError),
            io_errors == failed_count_of(table@.take(i as int), ScanErrorKind::IoError),
            timeouts <= i,
            matcher_errors <= i,
            io_errors <= i,
        decreases n - i,
    {
        let entry = &table[i];
        proof {
            assert(table@.take(i + 1).drop_last() =~= table@.take(i as int));
            assert(table@.take(i + 1).last() == table@[i as int]);
            let ii = i as int;
            let cap: int = 0xffff_ffff_ffff_ffff;
            assert(usize::MAX as int <= cap);
            assert(ii * cap + cap == (ii + 1) * cap) by (nonlinear_arith);
            assert(ii * cap <= (ii + 1) * cap) by (nonlinear_arith)
                requires
                    0 <= ii,
                    0 <= cap,
            ;
            assert((ii + 1) * cap <= cap * cap) by (nonlinear_arith)
                requires
                    0 <= ii,
                    ii + 1 <= cap,
            ;
            assert(0xffff_ffff_ffff_ffff * 0xffff_ffff_ffff_ffff
                < 0xffff_ffff_ffff_ffff_ffff_ffff_ffff_ffffint) by (nonlinear_arith);
        }
        match &entry.1 {
            ScanOutcome::Matched(ids) => {
                let c = ids.len();
                total = total + (c as u128);
            },
            ScanOutcome::Failed(k) => {
                match k {
                    ScanErrorKind::Timeout => {
                        timeouts = timeouts + 1;
                    },
                    ScanErrorKind::MatcherError => {
                        matcher_errors = matcher_errors + 1;
                    },
                    ScanErrorKind::IoError => {
                        io_errors = io_errors + 1;
                    },
                }
            },
        }
        i = i + 1;
    }
    proof {
        assert(table@.take(n as int) =~= table@);
    }
    RunReport {
        files_scanned: n,
        total_matches: total,
        failed_timeouts: timeouts,
        failed_matcher: matcher_errors,
        failed_io: io_errors,
        elapsed_ms,
        per_file: table,
    }
}

} // verus!
