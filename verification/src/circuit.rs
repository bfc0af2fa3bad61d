use vstd::prelude::*;

use crate::report::OutputLine;

verus! {

/// A circuit's winding number passes the placeholder verification
/// exactly when its identifier is even.
pub open spec fn spec_winding_valid(circuit_id: u64) -> bool {
    circuit_id % 2 == 0
}

/// Computes the verdict of the placeholder winding-number check:
/// valid if and only if the identifier is even.
pub fn winding_valid(circuit_id: u64) -> (valid: bool)
    ensures
        valid == spec_winding_valid(circuit_id),
{
    circuit_id % 2 == 0
}

/// The lines the circuit check emits: its own notice, then the verdict.
pub open spec fn spec_check_lines(circuit_id: u64) -> Seq<OutputLine> {
    seq![
        OutputLine::CheckingWinding(circuit_id),
        if spec_winding_valid(circuit_id) {
            OutputLine::WindingValid(circuit_id)
        } else {
            OutputLine::WindingViolation(circuit_id)
        },
    ]
}

/// Runs the circuit check action on an identifier.
///
/// Every identifier is accepted. The action reports that it examines
/// the winding number, and then the outcome of the check; an even
/// identifier is valid, an odd one a violation.
pub fn check_circuit(circuit_id: u64) -> (lines: Vec<OutputLine>)
    ensures
        lines@ == spec_check_lines(circuit_id),
{
    let mut lines: Vec<OutputLine> = Vec::new();
    lines.push(OutputLine::CheckingWinding(circuit_id));
    if winding_valid(circuit_id) {
        lines.push(OutputLine::WindingValid(circuit_id));
    } else {
        lines.push(OutputLine::WindingViolation(circuit_id));
    }
    proof {
        assert(lines@ =~= spec_check_lines(circuit_id));
    }
    lines
}

/// The lines the shutdown action emits: the trigger notice, then the
/// acknowledgement of a safe shutdown.
pub open spec fn spec_shutdown_lines(circuit_id: u64) -> Seq<OutputLine> {
    seq![
        OutputLine::ShutdownTriggered(circuit_id),
        OutputLine::ShutdownComplete(circuit_id),
    ]
}

/// Runs the emergency shutdown action on an identifier.
///
/// Every identifier is accepted, and the action always succeeds: for
/// any identifier, zero and the largest included, it reports the
/// trigger and then the safe-shutdown acknowledgement, and nothing else.
pub fn emergency_shutdown(circuit_id: u64) -> (lines: Vec<OutputLine>)
    ensures
        lines@ == spec_shutdown_lines(circuit_id),
{
    let mut lines: Vec<OutputLine> = Vec::new();
    lines.push(OutputLine::ShutdownTriggered(circuit_id));
    lines.push(OutputLine::ShutdownComplete(circuit_id));
    proof {
        assert(lines@ =~= spec_shutdown_lines(circuit_id));
    }
    lines
}

} // verus!
