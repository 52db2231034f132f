use icmpmolester::config::{Config, LineSettings};
use icmpmolester::decimal::Millionths;
use icmpmolester::diagnostics::Platform;
use icmpmolester::report::format_summary;
use icmpmolester::runner::{
    LineResult, LineRunner, ProbeKind, ProbeOutcome, ProbeRequest, RunOptions, RunStep,
};

fn line(name: &str, target: &str, threshold: u64) -> LineSettings {
    LineSettings {
        name: name.to_string(),
        target: target.to_string(),
        ping_count: 4,
        ping_timeout_ms: 1500,
        traceroute_max_hops: 20,
        packet_loss_alert_threshold: Millionths(threshold),
    }
}

fn two_lines() -> Config {
    Config {
        lines: vec![line("Primary", "192.0.2.7", 1_000_000), line("Backup", "198.51.100.9", 2_000_000)],
    }
}

fn exited(success: bool, stdout: &str, stderr: &str) -> ProbeOutcome {
    ProbeOutcome::Exited {
        success,
        stdout: stdout.as_bytes().to_vec(),
        stderr: stderr.as_bytes().to_vec(),
    }
}

fn pending(step: RunStep) -> (LineRunner, ProbeRequest) {
    match step {
        RunStep::Probe(runner) => {
            let request = runner.request();
            (runner, request)
        }
        other => panic!("no probe pending: {:?}", other),
    }
}

fn finished(step: RunStep) -> Vec<LineResult> {
    match step {
        RunStep::Finished(results) => results,
        other => panic!("not finished: {:?}", other),
    }
}

#[test]
fn run_without_lines_is_finished_at_once() {
    let step = LineRunner::start(
        Config { lines: Vec::new() },
        RunOptions { skip_traceroute: false },
        Platform::Linux,
    );
    assert!(finished(step).is_empty());
}

#[test]
fn run_pings_then_traces_each_line_in_order() {
    let step =
        LineRunner::start(two_lines(), RunOptions { skip_traceroute: false }, Platform::Linux);

    let (runner, request) = pending(step);
    assert_eq!(request.kind, ProbeKind::Ping);
    assert_eq!(request.line, 0);
    assert_eq!(request.command, "ping");
    assert_eq!(request.args, vec!["-c", "4", "-W", "2", "192.0.2.7"]);
    let step = runner.advance(exited(true, "4 sent, 0.5% packet loss\nrtt = 1/12.3/20\n", ""));

    let (runner, request) = pending(step);
    assert_eq!(request.kind, ProbeKind::Traceroute);
    assert_eq!(request.line, 0);
    assert_eq!(request.command, "traceroute");
    assert_eq!(request.args, vec!["-m", "20", "192.0.2.7"]);
    let step = runner.advance(exited(true, " 1  gw  1 ms\n 2  192.0.2.7  2 ms\n", ""));

    let (runner, request) = pending(step);
    assert_eq!(request.kind, ProbeKind::Ping);
    assert_eq!(request.line, 1);
    assert_eq!(request.args, vec!["-c", "4", "-W", "2", "198.51.100.9"]);
    let step = runner.advance(exited(false, "4 sent, 5% packet loss\n", "ping: sendmsg\n"));

    let (runner, request) = pending(step);
    assert_eq!(request.kind, ProbeKind::Traceroute);
    assert_eq!(request.line, 1);
    assert_eq!(request.args, vec!["-m", "20", "198.51.100.9"]);
    let step = runner.advance(exited(false, " 1  gw  1 ms\n 2  * * *\n", ""));

    let results = finished(step);
    assert_eq!(results.len(), 2);

    assert_eq!(results[0].name, "Primary");
    assert_eq!(results[0].target, "192.0.2.7");
    assert_eq!(results[0].loss_threshold, Millionths(1_000_000));
    assert!(results[0].traceroute_requested);
    assert!(results[0].ping.success);
    assert_eq!(results[0].ping.packet_loss_pct, Some(Millionths(500_000)));
    assert_eq!(results[0].ping.average_latency_ms, Some(Millionths(12_300_000)));
    let traced = results[0].traceroute.as_ref().unwrap();
    assert!(traced.success);
    assert_eq!(traced.hop_count, Some(2));

    assert_eq!(results[1].name, "Backup");
    assert_eq!(results[1].target, "198.51.100.9");
    assert_eq!(results[1].loss_threshold, Millionths(2_000_000));
    assert!(!results[1].ping.success);
    assert_eq!(results[1].ping.packet_loss_pct, Some(Millionths(5_000_000)));
    assert_eq!(results[1].ping.average_latency_ms, None);
    assert_eq!(results[1].ping.raw_output, "4 sent, 5% packet loss\nping: sendmsg\n");
    let traced = results[1].traceroute.as_ref().unwrap();
    assert!(!traced.success);
    assert_eq!(traced.hop_count, Some(2));

    assert_eq!(
        format_summary(&results),
        "ICMPMolester summary\n\
         - Primary (192.0.2.7): ping=OK, loss=0.50% (OK), latency=12.30 ms, traceroute=OK\n\
         - Backup (198.51.100.9): ping=ALERT, loss=5.00% (ALERT), latency=n/a, traceroute=ALERT\n"
    );
}

#[test]
fn run_without_traceroute_only_pings() {
    let step =
        LineRunner::start(two_lines(), RunOptions { skip_traceroute: true }, Platform::Windows);

    let (runner, request) = pending(step);
    assert_eq!(request.kind, ProbeKind::Ping);
    assert_eq!(request.line, 0);
    assert_eq!(request.args, vec!["-n", "4", "-w", "1500", "192.0.2.7"]);
    let step = runner.advance(exited(true, "Lost = 0 (0% loss),\nAverage = 37ms\n", ""));

    let (runner, request) = pending(step);
    assert_eq!(request.kind, ProbeKind::Ping);
    assert_eq!(request.line, 1);
    let step = runner.advance(exited(true, "", ""));

    let results = finished(step);
    assert_eq!(results.len(), 2);
    for result in &results {
        assert!(result.traceroute.is_none());
        assert!(!result.traceroute_requested);
    }
    assert_eq!(results[0].ping.average_latency_ms, Some(Millionths(37_000_000)));
    assert_eq!(results[1].ping.packet_loss_pct, None);
    assert_eq!(
        format_summary(&results),
        "ICMPMolester summary\n\
         - Primary (192.0.2.7): ping=OK, loss=0.00% (OK), latency=37.00 ms, traceroute=SKIPPED\n\
         - Backup (198.51.100.9): ping=OK, loss=n/a (UNKNOWN), latency=n/a, traceroute=SKIPPED\n"
    );
}

#[test]
fn ping_that_cannot_start_ends_the_run() {
    let step =
        LineRunner::start(two_lines(), RunOptions { skip_traceroute: false }, Platform::Unix);
    let (runner, _) = pending(step);
    match runner.advance(ProbeOutcome::NotStarted) {
        RunStep::Failed(error) => {
            assert_eq!(error.kind, ProbeKind::Ping);
            assert_eq!(error.line, "Primary");
            assert_eq!(error.message(), "Ping check failed for line 'Primary'");
        }
        other => panic!("{:?}", other),
    }
}

#[test]
fn traceroute_that_cannot_start_ends_the_run() {
    let step =
        LineRunner::start(two_lines(), RunOptions { skip_traceroute: false }, Platform::Unix);
    let (runner, _) = pending(step);
    let (runner, _) = pending(runner.advance(exited(true, "", "")));
    let (runner, _) = pending(runner.advance(exited(true, "", "")));
    let (runner, request) = pending(runner.advance(exited(true, "", "")));
    assert_eq!(request.kind, ProbeKind::Traceroute);
    assert_eq!(request.line, 1);
    match runner.advance(ProbeOutcome::NotStarted) {
        RunStep::Failed(error) => {
            assert_eq!(error.kind, ProbeKind::Traceroute);
            assert_eq!(error.line, "Backup");
            assert_eq!(error.message(), "Traceroute failed for line 'Backup'");
        }
        other => panic!("{:?}", other),
    }
}

#[test]
fn failing_exit_status_does_not_end_the_run() {
    let config = Config { lines: vec![line("Only", "203.0.113.1", 0)] };
    let step = LineRunner::start(config, RunOptions { skip_traceroute: false }, Platform::Linux);
    let (runner, _) = pending(step);
    let (runner, request) = pending(runner.advance(exited(false, "", "ping: fatal\n")));
    assert_eq!(request.kind, ProbeKind::Traceroute);
    let results = finished(runner.advance(exited(false, "", "")));
    assert_eq!(results.len(), 1);
    assert!(!results[0].ping.success);
    assert!(!results[0].traceroute.as_ref().unwrap().success);
}

fn count_probes(lines: usize, skip_traceroute: bool) -> (usize, usize) {
    let config = Config {
        lines: (0..lines).map(|i| line(&format!("Line {}", i), "192.0.2.1", 1_000_000)).collect(),
    };
    let mut step = LineRunner::start(config, RunOptions { skip_traceroute }, Platform::Linux);
    let mut pings = Vec::new();
    let mut traces = Vec::new();
    loop {
        match step {
            RunStep::Probe(runner) => {
                let request = runner.request();
                match request.kind {
                    ProbeKind::Ping => pings.push(request.line),
                    ProbeKind::Traceroute => traces.push(request.line),
                }
                step = runner.advance(exited(true, "", ""));
            }
            RunStep::Finished(results) => {
                assert_eq!(results.len(), lines);
                for (i, result) in results.iter().enumerate() {
                    assert_eq!(result.name, format!("Line {}", i));
                }
                break;
            }
            RunStep::Failed(error) => panic!("{:?}", error),
        }
    }
    assert_eq!(pings, (0..lines).collect::<Vec<usize>>());
    if !skip_traceroute {
        assert_eq!(traces, (0..lines).collect::<Vec<usize>>());
    }
    (pings.len(), traces.len())
}

#[test]
fn each_probe_runs_once_for_each_line() {
    for lines in 0..5usize {
        assert_eq!(count_probes(lines, false), (lines, lines));
        assert_eq!(count_probes(lines, true), (lines, 0));
    }
}
