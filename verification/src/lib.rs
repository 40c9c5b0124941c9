//! Decision logic of `cargo rush`: the guarded checks that precede a run, the
//! one-time creation of the per-project marker file, and the offer to list
//! that marker in the project's ignore file.
//!
//! The library never touches a disk or a terminal. It says what to do next,
//! what to tell the user, and with which status to leave; a caller carries
//! that out and reports back what happened.

pub mod message;
pub mod response;
pub mod workflow;
pub mod project;
pub mod laws;
