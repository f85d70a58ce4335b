//! Components, ports and counted channels for flow-based programs.
//!
//! A component reads information packets from its input ports and writes
//! them to its output ports. Ports are joined by bounded channels that count
//! the packets in flight, so that a scheduler can tell whether a component
//! has work waiting.

pub mod component;
pub mod mpsc_specs;
pub mod scheduler;
