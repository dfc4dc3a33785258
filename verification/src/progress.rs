use vstd::prelude::*;

verus! {

/// A snapshot of how far the run has come. Derived state: recomputed by the
/// scheduler after every joined batch, read-only to everything else.
#[derive(Clone, Copy, Debug, PartialEq, Eq, Structural)]
pub struct ProgressState {
    pub files_scanned: usize,
    pub total_files: usize,
    /// `floor(100 * files_scanned / total_files)`, and 100 for an empty run.
    pub percent: u8,
}

/// The percentage of the queue that has been scanned, in integer arithmetic.
/// An empty queue counts as fully scanned.
pub open spec fn spec_percent(scanned: nat, total: nat) -> nat {
    if total == 0 {
        100
    } else {
        (100 * scanned) / total
    }
}

/// Computes the progress percentage. Integer arithmetic keeps it exact: it
/// reaches 100 exactly when every file has been scanned, so completion is
/// never under-reported by rounding.
pub fn percent_complete(files_scanned: usize, total_files: usize) -> (p: u8)
    requires
        files_scanned <= total_files,
    ensures
        p == spec_percent(files_scanned as nat, total_files as nat),
        p <= 100,
        (p == 100) <==> (files_scanned == total_files),
{
    if total_files == 0 {
        100
    } else {
        let q: u128 = (100u128 * (files_scanned as u128)) / (total_files as u128);
        proof {
            let s = files_scanned as int;
            let t = total_files as int;
            assert(100 * s / t <= 100) by (nonlinear_arith)
                requires
                    0 < t,
                    0 <= s <= t,
            ;
            assert(s < t ==> 100 * s / t < 100) by (nonlinear_arith)
                requires
                    0 < t,
                    0 <= s,
            ;
            assert(s == t ==> 100 * s / t == 100) by (nonlinear_arith)
                requires
                    0 < t,
            ;
        }
        q as u8
    }
}

/// Law: progress only ever increases. Scanning more files never lowers the
/// reported percentage, for any fixed queue length.
pub proof fn lemma_percent_monotonic(s1: nat, s2: nat, total: nat)
    requires
        s1 <= s2,
    ensures
        spec_percent(s1, total) <= spec_percent(s2, total),
{
    if total != 0 {
        assert(100 * s1 / total <= 100 * s2 / total) by (nonlinear_arith)
            requires
                0 < total,
                0 <= s1 <= s2,
        ;
    }
}

/// Law: the percentage stands at 100 exactly when the whole queue has been
/// scanned; in particular a completed run always reports 100.
pub proof fn lemma_percent_complete_iff_done(scanned: nat, total: nat)
    requires
        scanned <= total,
    ensures
        spec_percent(scanned, total) <= 100,
        (spec_percent(scanned, total) == 100) <==> (scanned == total),
{
    if total != 0 {
        assert(100 * scanned / total <= 100) by (nonlinear_arith)
            requires
                0 < total,
                0 <= scanned <= total,
        ;
        assert(scanned < total ==> 100 * scanned / total < 100) by (nonlinear_arith)
            requires
                0 < total,
                0 <= scanned,
        ;
        assert(scanned == total ==> 100 * scanned / total == 100) by (nonlinear_arith)
            requires
                0 < total,
        ;
    }
}

} // verus!
