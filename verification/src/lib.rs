//! Bridges a single-threaded asynchronous caller to blocking relational
//! database work: units of work are shipped to a pool of dedicated worker
//! threads, each of which checks a connection out of a bounded connection
//! pool, runs the unit of work on it, and sends the outcome back.
//!
//! This crate holds the verified core of that bridge: the lazy, at-most-once
//! initialization discipline of the worker pool, the worker's dispatch step,
//! the unification of the three failure channels (delivery, checkout timeout,
//! operation failure) into one error type, the transaction commit/roll-back
//! rule, and the optional-row adapter. The unverifiable rim — actor plumbing,
//! thread spawning, the live connection pool — stays outside and hands this
//! crate plain values.

pub mod config;
pub mod dsl;
pub mod error;
pub mod lazy;
pub mod outside;
pub mod protocol;
pub mod transaction;

pub use config::Builder;
pub use error::AsyncError;
pub use lazy::OnceSlot;
