use timed_exec::duration::Duration;
use timed_exec::invocation::Invocation;
use timed_exec::outcome::{wrapper_exit_code, ChildStatus, Failure, FAILURE_EXIT_CODE};
use timed_exec::run::{format_report, report_and_outcome};
use timed_exec::rusage::ResourceUsage;

fn sample_usage() -> ResourceUsage {
    ResourceUsage {
        user_cpu: Duration { secs: 0, nanos: 20_000_000 },
        sys_cpu: Duration { secs: 0, nanos: 10_000_000 },
        max_rss_bytes: 2_097_152,
    }
}

#[test]
fn report_block_exact() {
    let wall = Duration { secs: 0, nanos: 1_500_000 };
    assert_eq!(
        format_report(&wall, &sample_usage()),
        "\nreal 1.50ms\ncpu  30.00ms (20.00ms user + 10.00ms sys)\nrss  2.00mb"
    );
}

#[test]
fn report_block_has_labelled_lines() {
    let wall = Duration { secs: 3, nanos: 0 };
    let report = format_report(&wall, &sample_usage());
    assert!(report.contains("\nreal "));
    assert!(report.contains("\ncpu  "));
    assert!(report.contains("\nrss  "));
    assert!(report.ends_with("mb"));
}

#[test]
fn successful_run_reports_and_succeeds() {
    let wall = Duration { secs: 0, nanos: 1_500_000 };
    let (report, outcome) = report_and_outcome(&wall, &sample_usage(), &ChildStatus::Exited(0));
    assert!(report.contains("real"));
    assert!(report.contains("cpu"));
    assert!(report.contains("rss"));
    assert_eq!(outcome, Ok(()));
}

#[test]
fn failing_run_still_reports() {
    let wall = Duration { secs: 0, nanos: 1_500_000 };
    let ok = report_and_outcome(&wall, &sample_usage(), &ChildStatus::Exited(0));
    let failed = report_and_outcome(&wall, &sample_usage(), &ChildStatus::Exited(3));
    assert_eq!(ok.0, failed.0);
    assert_eq!(failed.1, Err(Failure::NonZeroExit(3)));
}

#[test]
fn true_scenario() {
    // the command line ["true"]: a program that exits 0 immediately
    let inv = Invocation::from_arg_list(vec![String::from("true")]).unwrap();
    assert_eq!(inv.program, "true");
    assert!(inv.args.is_empty());
    let wall = Duration { secs: 0, nanos: 2_100_000 };
    let usage = ResourceUsage {
        user_cpu: Duration { secs: 0, nanos: 1_000_000 },
        sys_cpu: Duration { secs: 0, nanos: 500_000 },
        max_rss_bytes: 1_048_576,
    };
    let (report, outcome) = report_and_outcome(&wall, &usage, &ChildStatus::Exited(0));
    assert_eq!(outcome, Ok(()));
    assert_eq!(wrapper_exit_code(&outcome), 0);
    // the wall-clock line shows a sub-second value
    assert_eq!(report, "\nreal 2.10ms\ncpu  1.50ms (1.00ms user + 500.00\u{b5}s sys)\nrss  1.00mb");
}

#[test]
fn false_scenario() {
    // the command line ["false"]: a program that always exits 1
    let inv = Invocation::from_arg_list(vec![String::from("false")]).unwrap();
    assert_eq!(inv.program, "false");
    let outcome = timed_exec::outcome::child_outcome(&ChildStatus::Exited(1));
    let failure = outcome.unwrap_err();
    assert_eq!(
        failure.message(),
        "\ncommand exited with non-zero code: 1"
    );
    assert!(failure.message().contains("command exited with non-zero code: 1"));
    assert_eq!(wrapper_exit_code(&Err(failure)), FAILURE_EXIT_CODE);
}
