use php_scanner::outcome::{ScanErrorKind, ScanOutcome};
use php_scanner::report::summarize;
use php_scanner::scheduler::{run, Scheduler};

fn paths(names: &[&str]) -> Vec<String> {
    names.iter().map(|n| n.to_string()).collect()
}

fn rules(names: &[&str]) -> ScanOutcome {
    ScanOutcome::Matched(names.iter().map(|n| n.to_string()).collect())
}

#[test]
fn empty_queue_reports_immediately() {
    let report = run(Vec::new(), Vec::new(), 5, 5, 0);
    assert_eq!(report.files_scanned, 0);
    assert_eq!(report.total_matches, 0);
    assert_eq!(report.failed_timeouts, 0);
    assert_eq!(report.failed_matcher, 0);
    assert_eq!(report.failed_io, 0);
    assert!(report.per_file.is_empty());
}

#[test]
fn empty_queue_progress_is_complete() {
    let sched = Scheduler::new(Vec::new(), 5, 5);
    assert!(sched.is_finished());
    let p = sched.progress();
    assert_eq!(p.files_scanned, 0);
    assert_eq!(p.total_files, 0);
    assert_eq!(p.percent, 100);
}

#[test]
fn three_file_scenario() {
    let files = paths(&["a.php", "b.php", "c.php"]);
    let outcomes = vec![
        rules(&["R1"]),
        rules(&[]),
        ScanOutcome::Failed(ScanErrorKind::IoError),
    ];
    let report = run(files, outcomes, 5, 5, 0);
    assert_eq!(report.files_scanned, 3);
    assert_eq!(report.total_matches, 1);
    assert_eq!(report.failed_io, 1);
    assert_eq!(report.per_file.len(), 3);
    assert_eq!(report.per_file[0].0, "a.php");
    assert_eq!(report.per_file[0].1, rules(&["R1"]));
    assert_eq!(report.per_file[1].0, "b.php");
    assert_eq!(report.per_file[1].1, rules(&[]));
    assert_eq!(report.per_file[2].0, "c.php");
    assert_eq!(
        report.per_file[2].1,
        ScanOutcome::Failed(ScanErrorKind::IoError)
    );
}

#[test]
fn tail_batch_still_counts_every_file() {
    let names: Vec<String> = (0..13).map(|i| format!("f{}.php", i)).collect();
    let outcomes: Vec<ScanOutcome> = (0..13).map(|_| rules(&[])).collect();
    let report = run(names, outcomes, 5, 5, 0);
    assert_eq!(report.files_scanned, 13);
    assert_eq!(report.total_matches, 0);
    assert_eq!(report.per_file.len(), 13);
}

#[test]
fn tail_batch_sizes_respect_concurrency_bound() {
    let names: Vec<String> = (0..13).map(|i| format!("f{}.php", i)).collect();
    let mut sched = Scheduler::new(names, 5, 5);
    let mut sizes = Vec::new();
    while !sched.is_finished() {
        let batch = sched.next_batch();
        assert!(batch.len() <= 5);
        sizes.push(batch.len());
        let outcomes: Vec<ScanOutcome> = batch.iter().map(|_| rules(&[])).collect();
        sched.record_batch(outcomes);
    }
    assert_eq!(sizes, vec![5, 5, 3]);
    let p = sched.progress();
    assert_eq!(p.files_scanned, 13);
    assert_eq!(p.percent, 100);
}

#[test]
fn concurrency_bound_holds_on_every_batch() {
    let names: Vec<String> = (0..23).map(|i| format!("f{}.php", i)).collect();
    let mut sched = Scheduler::new(names, 4, 5);
    let mut in_flight_peak = 0;
    while !sched.is_finished() {
        let batch = sched.next_batch();
        // Each batch is scanned by one task per file, joined before the next
        // batch, so the batch size is the number of tasks in flight.
        if batch.len() > in_flight_peak {
            in_flight_peak = batch.len();
        }
        let outcomes: Vec<ScanOutcome> = batch.iter().map(|_| rules(&[])).collect();
        sched.record_batch(outcomes);
    }
    assert!(in_flight_peak <= 4);
    assert_eq!(sched.progress().percent, 100);
}

#[test]
fn timeout_is_recorded_and_run_continues() {
    let files = paths(&["a.php", "b.php", "c.php"]);
    let outcomes = vec![
        rules(&["R1"]),
        ScanOutcome::Failed(ScanErrorKind::Timeout),
        rules(&["R2"]),
    ];
    let report = run(files, outcomes, 2, 1, 0);
    assert_eq!(report.files_scanned, 3);
    assert_eq!(report.failed_timeouts, 1);
    assert_eq!(report.total_matches, 2);
    assert_eq!(
        report.per_file[1].1,
        ScanOutcome::Failed(ScanErrorKind::Timeout)
    );
}

#[test]
fn total_matches_sums_over_matched_outcomes() {
    let files = paths(&["a.php", "b.php", "c.php", "d.php", "e.php"]);
    let outcomes = vec![
        rules(&["R1", "R2", "R3"]),
        rules(&[]),
        ScanOutcome::Failed(ScanErrorKind::MatcherError),
        rules(&["R1"]),
        rules(&["R4", "R5"]),
    ];
    let report = run(files, outcomes, 2, 5, 0);
    assert_eq!(report.total_matches, 6);
    assert_eq!(report.failed_matcher, 1);
}

#[test]
fn each_file_has_exactly_one_outcome() {
    let names: Vec<String> = (0..9).map(|i| format!("f{}.php", i)).collect();
    let outcomes: Vec<ScanOutcome> = (0..9).map(|_| rules(&["R1"])).collect();
    let report = run(names.clone(), outcomes, 4, 5, 0);
    for name in &names {
        let occurrences = report
            .per_file
            .iter()
            .filter(|(path, _)| path == name)
            .count();
        assert_eq!(occurrences, 1);
    }
}

#[test]
fn progress_is_monotone_across_batches() {
    let names: Vec<String> = (0..11).map(|i| format!("f{}.php", i)).collect();
    let mut sched = Scheduler::new(names, 3, 5);
    let mut last = sched.progress().percent;
    while !sched.is_finished() {
        let batch = sched.next_batch();
        let outcomes: Vec<ScanOutcome> = batch.iter().map(|_| rules(&[])).collect();
        sched.record_batch(outcomes);
        let now = sched.progress().percent;
        assert!(now >= last);
        last = now;
    }
    assert_eq!(last, 100);
}

#[test]
fn cancelled_run_reports_completed_files_only() {
    let names: Vec<String> = (0..6).map(|i| format!("f{}.php", i)).collect();
    let mut sched = Scheduler::new(names, 2, 5);
    let batch = sched.next_batch();
    let outcomes: Vec<ScanOutcome> = batch.iter().map(|_| rules(&["R1"])).collect();
    sched.record_batch(outcomes);
    // Cancellation between batches: the report covers exactly what finished.
    let p = sched.progress();
    assert_eq!(p.files_scanned, 2);
    assert_eq!(p.total_files, 6);
    assert_eq!(p.percent, 33);
    let report = sched.into_report(0);
    assert_eq!(report.files_scanned, 2);
    assert_eq!(report.total_matches, 2);
    assert_eq!(report.per_file.len(), 2);
}

#[test]
fn summarize_counts_failures_by_kind() {
    let table = vec![
        ("a.php".to_string(), ScanOutcome::Failed(ScanErrorKind::Timeout)),
        ("b.php".to_string(), ScanOutcome::Failed(ScanErrorKind::IoError)),
        ("c.php".to_string(), ScanOutcome::Failed(ScanErrorKind::Timeout)),
        ("d.php".to_string(), rules(&["R9"])),
        ("e.php".to_string(), ScanOutcome::Failed(ScanErrorKind::MatcherError)),
    ];
    let report = summarize(table, 1234);
    assert_eq!(report.files_scanned, 5);
    assert_eq!(report.total_matches, 1);
    assert_eq!(report.failed_timeouts, 2);
    assert_eq!(report.failed_io, 1);
    assert_eq!(report.failed_matcher, 1);
    assert_eq!(report.elapsed_ms, 1234);
}

#[test]
fn elapsed_passes_through_run() {
    let report = run(paths(&["a.php"]), vec![rules(&[])], 5, 5, 987);
    assert_eq!(report.elapsed_ms, 987);
}
