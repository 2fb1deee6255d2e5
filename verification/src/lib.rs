//! A cross-thread fence over a command-queue backend.
//!
//! A fence is an opaque completion marker injected into the backend's command
//! stream.  Once every command issued before the marker has finished, the
//! marker becomes signaled.  Creating, polling and destroying markers is the
//! privilege of a single executor thread that owns the command context; any
//! other thread interacts with it only through submitted closures.
//!
//! This crate verifies the fence protocol itself: capability gating at
//! creation, the two-phase prototype-to-handle hand-off, the blocking wait
//! (poll, then unconditional destroy), and cleanup of unwaited handles.  The
//! command context is modelled as a state machine that records every device
//! entry point it performs, so the contracts can state exactly which calls a
//! protocol step issues and in what order.

pub mod context;
pub mod sync;
