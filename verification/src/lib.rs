//! Supervision of a single bundled backend process (the "sidecar") by a
//! desktop host: a store that tracks at most one process handle, the steps of
//! launching and of cooperative shutdown, the relay of the child's output
//! lines to named front-end events, and the replies of the command surface.
//!
//! The library decides; the host performs. Spawning, writing to the child's
//! input, awaiting its output and emitting events are done by the caller,
//! which hands each outcome back to the functions here.

pub mod command;
pub mod error;
pub mod protocol;
pub mod relay;
pub mod store;
