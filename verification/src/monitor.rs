use vstd::prelude::*;

use crate::report::OutputLine;

verus! {

/// Seconds between two success lines of the monitor loop.
pub const MONITOR_INTERVAL_SECS: u64 = 10;

/// The state of the monitor loop.
///
/// The loop is a one-state machine: it is always waiting for the next
/// tick, and no step leads anywhere else, so the loop never terminates
/// on its own. The caller drives it: print the line each step returns,
/// pause for the returned number of seconds, and step again.
#[derive(Clone, Copy, Debug, PartialEq, Eq, Structural)]
pub enum MonitorState {
    Waiting,
}

/// Starts the monitor loop on a port.
///
/// Returns the line announcing that monitoring runs on that port,
/// and the loop's initial state.
pub fn monitor_start(port: u16) -> (r: (OutputLine, MonitorState))
    ensures
        r.0 == OutputLine::MonitorStarted(port),
        r.1 == MonitorState::Waiting,
{
    (OutputLine::MonitorStarted(port), MonitorState::Waiting)
}

/// One step of the monitor loop.
///
/// From every state the step emits the fixed success line, asks for the
/// fixed pause before the next step, and stays in the waiting state:
/// the loop has no terminal state.
pub fn monitor_step(state: MonitorState) -> (r: (OutputLine, u64, MonitorState))
    ensures
        r.0 == OutputLine::MonitorTick,
        r.1 == MONITOR_INTERVAL_SECS,
        r.2 == MonitorState::Waiting,
{
    match state {
        MonitorState::Waiting => (
            OutputLine::MonitorTick,
            MONITOR_INTERVAL_SECS,
            MonitorState::Waiting,
        ),
    }
}

} // verus!
