use flaky_finder::builder::FlakyFinderBuilder;
use flaky_finder::error::{ErrorKind, FlakyFinderError};
use flaky_finder::finder::{Consumed, FlakyFinder};
use flaky_finder::model::Trial;
use flaky_finder::report::{failure_rate_tenths, report_layout, ReportPiece};

fn trial(index: u64, success: bool) -> Trial {
    Trial {
        index,
        success,
        stdout: format!("out {}", index).into_bytes(),
        stderr: format!("err {}", index).into_bytes(),
    }
}

fn finder(runs: u64, nb_threads: u32, should_continue: bool) -> FlakyFinder {
    FlakyFinderBuilder::new()
        .cmd("sh-command")
        .runs(runs)
        .nb_threads(nb_threads)
        .should_continue(should_continue)
        .build()
}

/// Drives a run on one thread: the warm-up, then one trial per wanted run.
/// Returns the indices of the measured trials that were dispatched.
fn run_sequential(ff: &mut FlakyFinder, warm_up_ok: bool, ok: impl Fn(u64) -> bool) -> Vec<u64> {
    assert!(ff.needs_warm_up());
    assert_eq!(ff.on_trial(trial(u64::MAX, warm_up_ok)), Consumed::Discarded);
    let mut dispatched = Vec::new();
    for i in 0..ff.runs() {
        if !ff.wants_more() {
            break;
        }
        dispatched.push(i);
        ff.on_trial(trial(i, ok(i)));
    }
    dispatched
}

#[test]
fn new_test() {
    let _cmd = "cargo test -- --nocapture release_test";
    let cmd = "ls";
    let _ff = FlakyFinderBuilder::new().cmd(cmd).nb_threads(1).build();
}

#[test]
fn builder_defaults() {
    let ff = FlakyFinderBuilder::new().build();
    assert_eq!(ff.cmd(), "");
    assert_eq!(ff.runs(), 10);
    assert_eq!(ff.nb_threads(), 1);
    assert!(!ff.should_continue());
    assert!(ff.needs_warm_up());
    assert!(!ff.wants_more());
    assert_eq!(ff.failure_count(), 0);
}

#[test]
fn builder_sets_every_parameter() {
    let ff = FlakyFinderBuilder::new().cmd("ls").runs(3).nb_threads(2).should_continue(true).build();
    assert_eq!(ff.cmd(), "ls");
    assert_eq!(ff.runs(), 3);
    assert_eq!(ff.nb_threads(), 2);
    assert!(ff.should_continue());
}

#[test]
fn scenario_always_succeeds() {
    let mut ff = finder(5, 1, false);
    assert!(ff.check_config().is_ok());
    let dispatched = run_sequential(&mut ff, true, |_| true);
    assert_eq!(dispatched, vec![0, 1, 2, 3, 4]);
    assert_eq!(ff.failure_count(), 0);
    assert_eq!(ff.consumed(), 5);
    assert_eq!(ff.show_errors(), vec![ReportPiece::Success]);
}

#[test]
fn always_succeeds_for_every_concurrency() {
    for runs in 1..=6u64 {
        for threads in 1..=runs as u32 {
            let mut ff = finder(runs, threads, true);
            ff.on_trial(trial(u64::MAX, true));
            // arrivals in reverse dispatch order, as a pool may deliver them
            for i in (0..runs).rev() {
                assert_eq!(ff.on_trial(trial(i, true)), Consumed::Passed);
            }
            assert_eq!(ff.failure_count(), 0);
            assert_eq!(ff.show_errors(), vec![ReportPiece::Success]);
        }
    }
}

#[test]
fn scenario_stop_at_first_failure() {
    let mut ff = finder(5, 1, false);
    let dispatched = run_sequential(&mut ff, false, |_| false);
    assert_eq!(dispatched, vec![0]);
    assert_eq!(ff.failure_count(), 1);
    assert_eq!(ff.consumed(), 1);
    assert!(!ff.wants_more());
    assert_eq!(ff.percent_of_error_found(), 200);
    assert_eq!(
        ff.show_errors(),
        vec![ReportPiece::Header(200), ReportPiece::Output(0)]
    );
    assert_eq!(ff.outputs()[0].index, 0);
}

#[test]
fn stopped_run_ignores_late_arrivals() {
    let mut ff = finder(4, 3, false);
    ff.on_trial(trial(u64::MAX, true));
    assert_eq!(ff.on_trial(trial(2, false)), Consumed::Failed(None));
    assert_eq!(ff.on_trial(trial(0, false)), Consumed::Discarded);
    assert_eq!(ff.on_trial(trial(1, true)), Consumed::Discarded);
    assert_eq!(ff.failure_count(), 1);
    assert_eq!(ff.outputs()[0].index, 2);
}

#[test]
fn scenario_parallel_continue_all_fail() {
    let mut ff = finder(10, 4, true);
    assert!(ff.check_config().is_ok());
    ff.on_trial(trial(u64::MAX, false));
    let order = [3u64, 0, 1, 2, 7, 4, 5, 6, 9, 8];
    for (k, i) in order.iter().enumerate() {
        let expected = ((k as u64 + 1) * 100 * 10 * 2 + 10) / 20;
        assert_eq!(ff.on_trial(trial(*i, false)), Consumed::Failed(Some(expected)));
    }
    assert_eq!(ff.failure_count(), 10);
    assert_eq!(ff.percent_of_error_found(), 1000);
    let arrival: Vec<u64> = ff.outputs().iter().map(|t| t.index).collect();
    assert_eq!(arrival, order.to_vec());
    assert!(!ff.wants_more());
    assert_eq!(ff.on_trial(trial(10, false)), Consumed::Discarded);
    assert_eq!(ff.failure_count(), 10);
}

#[test]
fn scenario_zero_runs_is_a_configuration_error() {
    let ff = finder(0, 1, false);
    let err = ff.check_config().unwrap_err();
    assert!(matches!(err.kind(), ErrorKind::Config(_)));
    assert_eq!(err.exit_code(), 2);
    assert!(ff.needs_warm_up());
    assert_eq!(ff.consumed(), 0);
}

#[test]
fn zero_threads_is_a_configuration_error() {
    let ff = finder(3, 0, false);
    let err = ff.check_config().unwrap_err();
    assert!(matches!(err.into_kind(), ErrorKind::Config(_)));
}

#[test]
fn scenario_intermittent_even_indices_fail() {
    let mut ff = finder(6, 1, true);
    let dispatched = run_sequential(&mut ff, true, |i| i % 2 == 1);
    assert_eq!(dispatched, vec![0, 1, 2, 3, 4, 5]);
    assert_eq!(ff.failure_count(), 3);
    assert_eq!(ff.percent_of_error_found(), 500);
    let failed: Vec<u64> = ff.outputs().iter().map(|t| t.index).collect();
    assert_eq!(failed, vec![0, 2, 4]);
    assert_eq!(ff.outputs()[1].stdout, b"out 2".to_vec());
    assert_eq!(ff.outputs()[1].stderr, b"err 2".to_vec());
    assert_eq!(
        ff.show_errors(),
        vec![
            ReportPiece::Header(500),
            ReportPiece::Output(0),
            ReportPiece::Separator,
            ReportPiece::Output(1),
            ReportPiece::Separator,
            ReportPiece::Output(2),
        ]
    );
}

#[test]
fn continue_reports_running_rate() {
    let mut ff = finder(3, 1, true);
    ff.on_trial(trial(u64::MAX, true));
    assert_eq!(ff.on_trial(trial(0, true)), Consumed::Passed);
    assert_eq!(ff.on_trial(trial(1, false)), Consumed::Failed(Some(333)));
    assert_eq!(ff.on_trial(trial(2, false)), Consumed::Failed(Some(667)));
    assert!(!ff.wants_more());
}

#[test]
fn failing_warm_up_is_never_reported() {
    let mut ff = finder(3, 1, false);
    assert_eq!(ff.on_trial(trial(u64::MAX, false)), Consumed::Discarded);
    assert!(!ff.needs_warm_up());
    assert!(ff.wants_more());
    assert_eq!(ff.failure_count(), 0);
    assert_eq!(ff.consumed(), 0);
    let mut other = finder(3, 1, false);
    let dispatched = run_sequential(&mut other, false, |_| true);
    assert_eq!(dispatched.len(), 3);
    assert_eq!(other.failure_count(), 0);
    assert_eq!(other.show_errors(), vec![ReportPiece::Success]);
}

#[test]
fn rate_is_rounded_to_one_decimal() {
    assert_eq!(failure_rate_tenths(0, 7), 0);
    assert_eq!(failure_rate_tenths(1, 3), 333);
    assert_eq!(failure_rate_tenths(2, 3), 667);
    assert_eq!(failure_rate_tenths(1, 8), 125);
    assert_eq!(failure_rate_tenths(1, 16), 63);
    assert_eq!(failure_rate_tenths(1, 2000), 1);
    assert_eq!(failure_rate_tenths(1, 2001), 0);
    assert_eq!(failure_rate_tenths(5, 5), 1000);
    assert_eq!(failure_rate_tenths(u64::MAX, u64::MAX), 1000);
    assert_eq!(failure_rate_tenths(u64::MAX / 2, u64::MAX), 500);
}

#[test]
fn report_layout_shapes() {
    assert_eq!(report_layout(0, 0), vec![ReportPiece::Success]);
    assert_eq!(
        report_layout(1, 1000),
        vec![ReportPiece::Header(1000), ReportPiece::Output(0)]
    );
    assert_eq!(
        report_layout(2, 40),
        vec![
            ReportPiece::Header(40),
            ReportPiece::Output(0),
            ReportPiece::Separator,
            ReportPiece::Output(1),
        ]
    );
}

#[test]
fn error_constructors_and_messages() {
    let e = FlakyFinderError::new_other("boom");
    assert!(matches!(e.kind(), ErrorKind::Other(s) if s == "boom"));
    assert_eq!(e.message(), "Unknown error encountered: 'boom'.");
    assert_eq!(e.exit_code(), 1);

    let e = FlakyFinderError::new_config("bad");
    assert_eq!(e.message(), "Invalid configuration: bad");
    assert_eq!(e.exit_code(), 2);

    let e = FlakyFinderError::new_spawn("no sh");
    assert_eq!(e.message(), "Fail to launch the command: no sh");
    assert_eq!(e.exit_code(), 3);

    let e = FlakyFinderError::new(ErrorKind::Other(String::from("x")));
    assert!(matches!(e.into_kind(), ErrorKind::Other(s) if s == "x"));
}

#[test]
fn io_error_converts() {
    let io = std::io::Error::new(std::io::ErrorKind::BrokenPipe, "pipe closed");
    let e = FlakyFinderError::from(io);
    assert!(matches!(e.kind(), ErrorKind::Io(_)));
    assert_eq!(e.exit_code(), 4);
    assert_eq!(e.message(), "pipe closed");
}
