//! Readiness tracking for I/O objects driven by a readiness-based event loop.
//!
//! The library keeps a cheap, per-object cache of the readiness that the
//! event loop reported, split into a read class and a write class, and decides
//! from it when an object may be read or written, when the event loop has to
//! be asked again, and when the current task has to be re-armed.
//!
//! Everything that talks to the event loop or to the task system is done by
//! the caller: the functions here take what the registration answered as
//! plain values and return what has to happen next.
pub mod ready;
pub mod poll_evented;
