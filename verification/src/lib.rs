//! Orchestration of a single benchmark-target run: the protocol state
//! machine that drives a spawned benchmark executable over a framed
//! message channel, deciding after every poll and every message whether
//! the run goes on, succeeds, or fails with one classified error.

pub mod errors;
pub mod events;
pub mod laws;
pub mod messages;
pub mod target;
