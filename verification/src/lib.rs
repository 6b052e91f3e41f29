//! A high-precision time service core for a capability-based microkernel.
//!
//! The library holds the verified logic of the service: the tick-to-nanosecond
//! time base with live drift correction, the deadline heap that multiplexes
//! outstanding sleep requests onto one hardware alarm, the timer-source
//! registry with reference reselection, and the dispatch step of the
//! single-threaded IPC loop. Kernel IPC, capability management and device
//! drivers are collaborators outside this crate: every function here takes
//! their observations (tick samples, discovered devices, allocated slots) as
//! plain values and states exactly what it computes and how it changes the
//! service state.

pub mod heap;
pub mod laws;
pub mod server;
pub mod service;
pub mod time;
