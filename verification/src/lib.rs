//! Concurrent TCP reachability probing, the verified core.
//!
//! A batch probe attempts one TCP connection per input host, races each
//! attempt against a per-probe timeout, and emits one structured result
//! per host. The verified core classifies each probe's terminal event
//! into an outcome, aggregates the per-host results into a report, and
//! renders each record field by field for external representations.
//! The runner that performs the network I/O and the timeout races hands
//! the core plain events and takes plain records back.

pub mod probe;
pub mod render;
pub mod report;
