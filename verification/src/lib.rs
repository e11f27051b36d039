//! A small Generic Cell Rate (GCR) limiter that allows for dynamic rate
//! adjustment, with its rules proved against a mathematical model of the
//! schedule.
//!
//! A limiter refills `rate` units per `period` and admits up to `max_burst`
//! units at once. Each operation comes in two forms: one that reads the
//! limiter's own monotonic clock, and one, named with `_at`, that takes the
//! reading from the caller.

pub mod error;
pub mod laws;
pub mod limiter;
pub mod schedule;
pub mod time;

pub use crate::error::GcrCreationError;
pub use crate::error::GcrRequestError;
pub use crate::limiter::Gcr;
