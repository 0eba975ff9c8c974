//! User registration as a verified state machine.
//!
//! A registration validates a username, checks that it is free, creates an
//! identity, stores a user record and its default allowance, and sends a
//! confirmation email. The decisions are made here; the network calls are made
//! by whoever drives the machine, one [`flow::Action`] at a time.

pub mod email;
pub mod flow;
pub mod guarantees;
pub mod model;
pub mod records;
pub mod reply;
pub mod username;
