//! Activity-monitoring core of a desktop productivity tracker.
//!
//! The library holds the decisions: how a platform reading becomes a window
//! snapshot and an idle duration, how the shared tracking state moves under
//! the start / stop commands and the periodic sampler, and what an activity
//! report sent to the backend carries. Reading the platform, holding the lock,
//! running the timer and sending the request belong to the embedding program.

pub mod probe;
pub mod tracking;
pub mod report;
pub mod dashboard;
