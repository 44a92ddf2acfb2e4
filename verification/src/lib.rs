//! State machine of an interactive download front end.
//!
//! The library holds everything the terminal front end decides: the
//! application state with its input line, mode, status, popup timer and
//! history, the per-tick synchronisation with a background worker, and the
//! interpretation of key events. The front end itself (terminal setup,
//! rendering, spawning the worker, running the external tool) lives outside
//! and calls into these verified functions.

pub mod app;
pub mod tick;
pub mod worker;
