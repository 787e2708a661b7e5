//! The configuration a database handle is built from. Every option is
//! optional; one left unset means the connection pool's own default. The
//! acquire/release hooks of the pool are side-effecting callbacks and are
//! installed where the live pool is built, outside this crate; the plain
//! options are collected here.

use vstd::prelude::*;

verus! {

/// The recognized connection-pool options, each `None` until set.
pub struct Builder {
    /// Maximum number of live connections the pool may hold.
    pub max_size: Option<u32>,
    /// Minimum number of idle connections the pool keeps ready.
    pub min_idle: Option<u32>,
    /// Maximum lifetime of one connection, in milliseconds.
    pub max_lifetime_ms: Option<u64>,
}

impl Builder {
    /// A builder with no option set: the pool's defaults throughout.
    pub fn new() -> (b: Builder)
        ensures
            b.max_size is None,
            b.min_idle is None,
            b.max_lifetime_ms is None,
    {
        Builder { max_size: None, min_idle: None, max_lifetime_ms: None }
    }

    /// Sets the maximum pool size, leaving the other options as they were.
    pub fn pool_max_size(self, max_size: u32) -> (b: Builder)
        ensures
            b.max_size == Some(max_size),
            b.min_idle == self.min_idle,
            b.max_lifetime_ms == self.max_lifetime_ms,
    {
        Builder { max_size: Some(max_size), ..self }
    }

    /// Sets the minimum idle-connection count, leaving the other options as
    /// they were.
    pub fn pool_min_idle(self, min_idle: u32) -> (b: Builder)
        ensures
            b.min_idle == Some(min_idle),
            b.max_size == self.max_size,
            b.max_lifetime_ms == self.max_lifetime_ms,
    {
        Builder { min_idle: Some(min_idle), ..self }
    }

    /// Sets the maximum connection lifetime in milliseconds, leaving the
    /// other options as they were.
    pub fn pool_max_lifetime_ms(self, max_lifetime_ms: u64) -> (b: Builder)
        ensures
            b.max_lifetime_ms == Some(max_lifetime_ms),
            b.max_size == self.max_size,
            b.min_idle == self.min_idle,
    {
        Builder { max_lifetime_ms: Some(max_lifetime_ms), ..self }
    }
}

} // verus!
