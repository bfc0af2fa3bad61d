use qtop_verifier::circuit::check_circuit;
use qtop_verifier::circuit::emergency_shutdown;
use qtop_verifier::circuit::winding_valid;
use qtop_verifier::dispatch::dispatch;
use qtop_verifier::dispatch::Config;
use qtop_verifier::dispatch::Outcome;
use qtop_verifier::dispatch::DEFAULT_PORT;
use qtop_verifier::monitor::monitor_start;
use qtop_verifier::monitor::monitor_step;
use qtop_verifier::monitor::MonitorState;
use qtop_verifier::monitor::MONITOR_INTERVAL_SECS;
use qtop_verifier::report::OutputLine;

fn config(
    monitor: bool,
    check_circuit: Option<u64>,
    emergency_shutdown: Option<u64>,
) -> Config {
    Config {
        port: DEFAULT_PORT,
        monitor,
        check_circuit,
        emergency_shutdown,
    }
}

#[test]
fn even_identifiers_are_valid() {
    assert!(winding_valid(0));
    assert!(winding_valid(4));
    assert!(winding_valid(u64::MAX - 1));
    assert_eq!(
        check_circuit(4),
        vec![OutputLine::CheckingWinding(4), OutputLine::WindingValid(4)]
    );
    assert_eq!(
        check_circuit(0),
        vec![OutputLine::CheckingWinding(0), OutputLine::WindingValid(0)]
    );
}

#[test]
fn odd_identifiers_are_violations() {
    assert!(!winding_valid(1));
    assert!(!winding_valid(7));
    assert!(!winding_valid(u64::MAX));
    assert_eq!(
        check_circuit(7),
        vec![
            OutputLine::CheckingWinding(7),
            OutputLine::WindingViolation(7)
        ]
    );
    assert_eq!(
        check_circuit(u64::MAX),
        vec![
            OutputLine::CheckingWinding(u64::MAX),
            OutputLine::WindingViolation(u64::MAX)
        ]
    );
}

#[test]
fn shutdown_succeeds_for_every_identifier() {
    for id in [0, 1, 7, u64::MAX] {
        assert_eq!(
            emergency_shutdown(id),
            vec![
                OutputLine::ShutdownTriggered(id),
                OutputLine::ShutdownComplete(id)
            ]
        );
    }
}

#[test]
fn no_flags_prints_banner_only_and_exits() {
    let (lines, outcome) = dispatch(&config(false, None, None));
    assert_eq!(
        lines,
        vec![OutputLine::Banner, OutputLine::StartupPort(DEFAULT_PORT)]
    );
    assert_eq!(outcome, Outcome::Completed);
}

#[test]
fn monitor_prints_fixed_line_each_step_and_never_exits() {
    let (lines, outcome) = dispatch(&config(true, None, None));
    assert_eq!(
        lines,
        vec![
            OutputLine::Banner,
            OutputLine::StartupPort(DEFAULT_PORT),
            OutputLine::MonitorStarting,
            OutputLine::MonitorStarted(DEFAULT_PORT),
        ]
    );
    assert_eq!(outcome, Outcome::Monitoring);

    let (started, state) = monitor_start(DEFAULT_PORT);
    assert_eq!(started, OutputLine::MonitorStarted(DEFAULT_PORT));
    // The first step prints the fixed line; the next step, due after the
    // fixed pause, prints it again, and no step leaves the loop.
    let (line, pause, state) = monitor_step(state);
    assert_eq!(line, OutputLine::MonitorTick);
    assert_eq!(pause, MONITOR_INTERVAL_SECS);
    assert_eq!(pause, 10);
    let (line, pause, state) = monitor_step(state);
    assert_eq!(line, OutputLine::MonitorTick);
    assert_eq!(pause, 10);
    assert_eq!(state, MonitorState::Waiting);
}

#[test]
fn monitor_preempts_other_actions() {
    let (lines, outcome) = dispatch(&config(true, Some(4), Some(7)));
    assert_eq!(
        lines,
        vec![
            OutputLine::Banner,
            OutputLine::StartupPort(DEFAULT_PORT),
            OutputLine::MonitorStarting,
            OutputLine::MonitorStarted(DEFAULT_PORT),
        ]
    );
    assert_eq!(outcome, Outcome::Monitoring);
}

#[test]
fn check_four_then_shutdown_seven() {
    let (lines, outcome) = dispatch(&config(false, Some(4), Some(7)));
    assert_eq!(
        lines,
        vec![
            OutputLine::Banner,
            OutputLine::StartupPort(DEFAULT_PORT),
            OutputLine::CheckAnnounce(4),
            OutputLine::CheckingWinding(4),
            OutputLine::WindingValid(4),
            OutputLine::ShutdownAnnounce(7),
            OutputLine::ShutdownTriggered(7),
            OutputLine::ShutdownComplete(7),
        ]
    );
    assert_eq!(outcome, Outcome::Completed);
}

#[test]
fn check_alone_runs_only_the_check() {
    let (lines, outcome) = dispatch(&config(false, Some(3), None));
    assert_eq!(
        lines,
        vec![
            OutputLine::Banner,
            OutputLine::StartupPort(DEFAULT_PORT),
            OutputLine::CheckAnnounce(3),
            OutputLine::CheckingWinding(3),
            OutputLine::WindingViolation(3),
        ]
    );
    assert_eq!(outcome, Outcome::Completed);
}

#[test]
fn shutdown_alone_runs_only_the_shutdown() {
    let (lines, outcome) = dispatch(&config(false, None, Some(0)));
    assert_eq!(
        lines,
        vec![
            OutputLine::Banner,
            OutputLine::StartupPort(DEFAULT_PORT),
            OutputLine::ShutdownAnnounce(0),
            OutputLine::ShutdownTriggered(0),
            OutputLine::ShutdownComplete(0),
        ]
    );
    assert_eq!(outcome, Outcome::Completed);
}

#[test]
fn configured_port_is_echoed() {
    assert_eq!(DEFAULT_PORT, 9090);
    let custom = Config {
        port: 8080,
        monitor: false,
        check_circuit: None,
        emergency_shutdown: None,
    };
    let (lines, _) = dispatch(&custom);
    assert_eq!(lines[1], OutputLine::StartupPort(8080));
}
