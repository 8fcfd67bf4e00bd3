//! Verified core of three interactive Rust teaching demos: a zero-cost
//! abstraction benchmark, a type-system walkthrough and an unsafe-Rust tour.
//! Each demo is a small animated state machine driven by elapsed time.

pub mod clock;
pub mod demos;
