//! Focus/break interval enforcer core.
//!
//! A repeating cycle of focus and break intervals, driven by a one-second
//! tick. During breaks an overlay must be kept in front of everything else
//! and, after a short grace period, the screen is locked exactly once.
//! This crate holds the state machine and every decision that policy needs;
//! the windowing and OS glue around it only carries the decisions out.

pub mod config;
pub mod engine;
pub mod guard;
pub mod laws;
pub mod types;
