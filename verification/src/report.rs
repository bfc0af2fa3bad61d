use vstd::prelude::*;

verus! {

/// One console line of the verifier, as a value.
///
/// The library never formats text: each action returns the lines it
/// wants printed as `OutputLine` values, carrying the integers that the
/// final text interpolates. The binary maps each variant to its fixed
/// message.
#[derive(Clone, Copy, Debug, PartialEq, Eq, Structural)]
pub enum OutputLine {
    /// The startup banner naming the verifier and its version.
    Banner,
    /// The startup notice echoing the configured port.
    StartupPort(u16),
    /// The notice that monitoring mode is about to start.
    MonitorStarting,
    /// The notice that the monitor loop is running, echoing the port.
    MonitorStarted(u16),
    /// The periodic success line of the monitor loop.
    MonitorTick,
    /// The dispatcher's announcement that a circuit is being checked.
    CheckAnnounce(u64),
    /// The check action's own notice that it examines the winding number.
    CheckingWinding(u64),
    /// The verdict that the circuit's winding number is valid.
    WindingValid(u64),
    /// The verdict that a winding number violation was detected.
    WindingViolation(u64),
    /// The dispatcher's announcement of an emergency shutdown.
    ShutdownAnnounce(u64),
    /// The shutdown action's notice that the shutdown was triggered.
    ShutdownTriggered(u64),
    /// The acknowledgement that the circuit was safely shut down.
    ShutdownComplete(u64),
}

} // verus!
