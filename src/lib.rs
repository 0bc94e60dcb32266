//! Schedule a single pointer click at a chosen time of day.
//!
//! The library holds the logic of the program: the time-of-day and
//! calendar model, the target of a scheduled click, the decisions of a
//! scheduled task from one clock reading to the next, and the form state
//! that keeps the latest reported outcome and renders it as a status line.
//! Reading the wall clock goes through `chrono`; the click itself and the
//! window are the caller's business.
pub mod time;
pub mod text;
pub mod task;
pub mod controller;
