//! Ambient-light display brightness control.
//!
//! The crate holds the decisions of a brightness control cycle: how a camera
//! frame becomes a luminance percentage, how that percentage is mapped into
//! the configured range, when a change is large enough to be written to the
//! display, how often a capture is retried, and how the daemon loop reacts to
//! failures. Everything that touches a device is left to the caller, which
//! performs the actions the state machines ask for and hands the results back
//! as events.

pub mod camera;
pub mod cli;
pub mod cycle;
pub mod error;
pub mod monitor;
pub mod scheduler;
pub mod utils;
