//! Command dispatcher for the quantum topological winding-number verifier.
//!
//! The dispatcher takes a parsed configuration and decides, in a fixed
//! order, which of three actions run: the monitor loop, the circuit
//! check, and the emergency shutdown. Every decision is returned as a
//! sequence of [`report::OutputLine`] values; the binary around the
//! library turns each value into one console line. Keeping the console
//! text out of the library lets every action and the dispatcher itself
//! carry a full contract: which lines come out, in which order, and
//! whether the process terminates.

pub mod circuit;
pub mod dispatch;
pub mod monitor;
pub mod report;
