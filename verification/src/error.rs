//! The unified error taxonomy. Three independent failure channels exist
//! between the caller and its database result, and a caller must be able to
//! tell them apart (a checkout timeout is often transient, an operation
//! error usually is not), so they are collapsed into one tagged union
//! rather than flattened.

use vstd::prelude::*;

verus! {

/// Everything that can go wrong with one dispatched unit of work.
pub enum AsyncError<E> {
    /// The unit of work never reached a worker: the dispatch mechanism
    /// failed (for example, all workers are gone).
    Delivery(actix::MailboxError),
    /// A worker received the unit of work but the connection pool denied a
    /// connection within its configured wait time; the work was not run.
    Timeout(r2d2::Error),
    /// The work ran on a connection and reported this application-level
    /// error itself.
    Execute(E),
}

} // verus!
