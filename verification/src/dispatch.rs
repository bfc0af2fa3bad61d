use vstd::prelude::*;

use crate::circuit::check_circuit;
use crate::circuit::emergency_shutdown;
use crate::circuit::spec_check_lines;
use crate::circuit::spec_shutdown_lines;
use crate::monitor::monitor_start;
use crate::report::OutputLine;

verus! {

/// Port echoed in the startup notice when the caller names none.
pub const DEFAULT_PORT: u16 = 9090;

/// The parsed command-line configuration.
///
/// Every option is independent of the others, and absence of all of
/// them is legal. The port is echoed at startup and never bound to a
/// listener.
#[derive(Clone, Copy, Debug)]
pub struct Config {
    pub port: u16,
    pub monitor: bool,
    pub check_circuit: Option<u64>,
    pub emergency_shutdown: Option<u64>,
}

/// How a run of the dispatcher ends.
#[derive(Clone, Copy, Debug, PartialEq, Eq, Structural)]
pub enum Outcome {
    /// All requested actions ran; the process exits with status 0.
    Completed,
    /// Control passed to the monitor loop, which never returns.
    Monitoring,
}

/// The two startup lines every run prints: the banner, then the notice
/// echoing the configured port.
pub open spec fn spec_startup_lines(port: u16) -> Seq<OutputLine> {
    seq![OutputLine::Banner, OutputLine::StartupPort(port)]
}

/// The lines of the check action as the dispatcher runs it: its
/// announcement, then the action's own lines; nothing when the option
/// is absent.
pub open spec fn spec_check_action(opt: Option<u64>) -> Seq<OutputLine> {
    match opt {
        Some(circuit_id) => seq![OutputLine::CheckAnnounce(circuit_id)]
            + spec_check_lines(circuit_id),
        None => Seq::empty(),
    }
}

/// The lines of the shutdown action as the dispatcher runs it: its
/// announcement, then the action's own lines; nothing when the option
/// is absent.
pub open spec fn spec_shutdown_action(opt: Option<u64>) -> Seq<OutputLine> {
    match opt {
        Some(circuit_id) => seq![OutputLine::ShutdownAnnounce(circuit_id)]
            + spec_shutdown_lines(circuit_id),
        None => Seq::empty(),
    }
}

/// Every line a run prints before it either exits or enters the
/// monitor loop.
///
/// The startup lines always come first. When monitoring is requested,
/// control passes to the monitor loop right after its two notices, so
/// the check and shutdown actions never run. Otherwise the check
/// action's lines come before the shutdown action's, each present
/// exactly when its option is.
pub open spec fn spec_transcript(c: Config) -> Seq<OutputLine> {
    if c.monitor {
        spec_startup_lines(c.port)
            + seq![OutputLine::MonitorStarting, OutputLine::MonitorStarted(c.port)]
    } else {
        spec_startup_lines(c.port)
            + spec_check_action(c.check_circuit)
            + spec_shutdown_action(c.emergency_shutdown)
    }
}

/// Whether a run terminates: it enters the monitor loop exactly when
/// monitoring is requested, and exits normally otherwise.
pub open spec fn spec_outcome(c: Config) -> Outcome {
    if c.monitor {
        Outcome::Monitoring
    } else {
        Outcome::Completed
    }
}

/// Runs the dispatcher on a configuration.
///
/// Returns every line printed up to the point where the process either
/// exits or enters the monitor loop, and which of the two happens. The
/// actions run in the fixed order monitor, check, shutdown, each only
/// if its option was supplied; the monitor loop never returns, so when
/// it is requested the later actions are unreachable.
pub fn dispatch(config: &Config) -> (r: (Vec<OutputLine>, Outcome))
    ensures
        r.0@ == spec_transcript(*config),
        r.1 == spec_outcome(*config),
{
    let mut lines: Vec<OutputLine> = Vec::new();
    lines.push(OutputLine::Banner);
    lines.push(OutputLine::StartupPort(config.port));
    if config.monitor {
        lines.push(OutputLine::MonitorStarting);
        let (started, _state) = monitor_start(config.port);
        lines.push(started);
        proof {
            assert(lines@ =~= spec_transcript(*config));
        }
        return (lines, Outcome::Monitoring);
    }
    if let Some(circuit_id) = config.check_circuit {
        lines.push(OutputLine::CheckAnnounce(circuit_id));
        let mut check_lines = check_circuit(circuit_id);
        lines.append(&mut check_lines);
    }
    if let Some(circuit_id) = config.emergency_shutdown {
        lines.push(OutputLine::ShutdownAnnounce(circuit_id));
        let mut shutdown_lines = emergency_shutdown(circuit_id);
        lines.append(&mut shutdown_lines);
    }
    proof {
        assert(lines@ =~= spec_transcript(*config));
    }
    (lines, Outcome::Completed)
}

/// Law: with no options supplied, a run prints only the two startup
/// lines and exits normally.
pub proof fn lemma_no_flags_banner_only(c: Config)
    requires
        !c.monitor,
        c.check_circuit is None,
        c.emergency_shutdown is None,
    ensures
        spec_transcript(c) == spec_startup_lines(c.port),
        spec_outcome(c) == Outcome::Completed,
{
    assert(spec_transcript(c) =~= spec_startup_lines(c.port));
}

/// Law: when monitoring is requested, the run hands control to the
/// monitor loop and never exits on its own; the check and shutdown
/// actions never run, whether or not their options were supplied.
pub proof fn lemma_monitor_preempts_actions(c: Config)
    requires
        c.monitor,
    ensures
        spec_transcript(c) == spec_startup_lines(c.port)
            + seq![OutputLine::MonitorStarting, OutputLine::MonitorStarted(c.port)],
        spec_outcome(c) == Outcome::Monitoring,
{
}

/// Law: without monitoring, a run with both a check and a shutdown
/// identifier runs the check action first and the shutdown action
/// second, and then exits normally.
pub proof fn lemma_check_precedes_shutdown(c: Config, check_id: u64, shutdown_id: u64)
    requires
        !c.monitor,
        c.check_circuit == Some(check_id),
        c.emergency_shutdown == Some(shutdown_id),
    ensures
        spec_transcript(c) == spec_startup_lines(c.port)
            + (seq![OutputLine::CheckAnnounce(check_id)] + spec_check_lines(check_id))
            + (seq![OutputLine::ShutdownAnnounce(shutdown_id)]
                + spec_shutdown_lines(shutdown_id)),
        spec_outcome(c) == Outcome::Completed,
{
}

} // verus!
