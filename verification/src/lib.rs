//! Lifecycle manager for per-requester SSH sandboxes.
//!
//! A requester gets one disposable container, reachable over SSH on a host
//! port of its own, with a key that was generated for them or that they
//! supplied. The manager keeps track of who has which sandbox, creates and
//! destroys sandboxes one by one, and sweeps away every container of the
//! sandbox image, also those it has lost track of.
//!
//! The manager decides; it performs no I/O itself. Every operation is a small
//! state machine: it hands out the next request to perform and is resumed
//! with the reply that came back. [`model`] says what the machine does,
//! [`manager`] does it, and [`laws`] holds what follows for whole operations.

pub mod command;
pub mod credential;
pub mod engine;
pub mod key;
pub mod laws;
pub mod manager;
pub mod model;
pub mod protocol;
pub mod sandbox;
pub mod text;
