//! The work dispatch protocol: what a worker does with one unit of work, and
//! how the nested outcome that travels back to the caller is unified into a
//! single result.
//!
//! A unit of work is a one-shot closure over a connection. The worker first
//! tries to check a connection out of the pool; on failure it answers with
//! the pool's error at once, without running the closure (the fast-fail
//! path), and on success it runs the closure exactly once with exclusive
//! ownership of that connection. The reply is therefore a nested result: the
//! outer layer is the checkout, the inner layer the closure's own outcome.
//! Delivery of the reply adds one more layer, and [`resolve`] collapses the
//! three layers into `Result<R, AsyncError<E>>`.

use vstd::prelude::*;
use crate::error::AsyncError;

verus! {

/// A worker's reply to one unit of work: `Err` when no connection could be
/// checked out in time (the closure was never run), `Ok` with the closure's
/// own result otherwise.
pub type WorkerReply<R, E> = Result<Result<R, E>, r2d2::Error>;

/// What a dispatched unit of work came back as, delivery included: `Err`
/// when the unit of work never reached a worker.
pub type Delivered<R, E> = Result<WorkerReply<R, E>, actix::MailboxError>;

/// The single result the caller sees for a delivered outcome: each of the
/// three failure channels keeps its identity.
pub open spec fn unified<R, E>(outcome: Delivered<R, E>) -> Result<R, AsyncError<E>> {
    match outcome {
        Ok(reply) => match reply {
            Ok(done) => match done {
                Ok(value) => Ok(value),
                Err(err) => Err(AsyncError::Execute(err)),
            },
            Err(err) => Err(AsyncError::Timeout(err)),
        },
        Err(err) => Err(AsyncError::Delivery(err)),
    }
}

/// Collapses the three result layers of a delivered outcome — delivery,
/// connection checkout, closure execution — into the one result the caller
/// matches on.
pub fn resolve<R, E>(outcome: Delivered<R, E>) -> (r: Result<R, AsyncError<E>>)
    ensures
        r == unified(outcome),
{
    match outcome {
        Ok(reply) => match reply {
            Ok(done) => match done {
                Ok(value) => Ok(value),
                Err(err) => Err(AsyncError::Execute(err)),
            },
            Err(err) => Err(AsyncError::Timeout(err)),
        },
        Err(err) => Err(AsyncError::Delivery(err)),
    }
}

/// One worker's handling of one unit of work, given the outcome of its
/// connection checkout.
///
/// On a failed checkout the pool's error is passed through and the unit of
/// work is dropped unrun: nothing is demanded of the closure then, and the
/// reply is fixed to the checkout error alone. On a successful checkout the
/// closure runs exactly once, owning the connection, and its result is the
/// reply.
pub fn run_unit<C, R, E, F: FnOnce(C) -> Result<R, E>>(
    checkout: Result<C, r2d2::Error>,
    work: F,
) -> (reply: WorkerReply<R, E>)
    requires
        checkout matches Ok(conn) ==> call_requires(work, (conn,)),
    ensures
        checkout matches Err(err) ==> reply == WorkerReply::<R, E>::Err(err),
        checkout matches Ok(conn) ==> (reply matches Ok(done) && call_ensures(
            work,
            (conn,),
            done,
        )),
{
    match checkout {
        Ok(conn) => Ok(work(conn)),
        Err(err) => Err(err),
    }
}

/// Result fidelity: a unit of work that ran and finished with `done`
/// resolves at the caller to exactly that outcome — a success stays the same
/// success, and the work's own error arrives on the execute channel carrying
/// that same error. The worker's and the delivery layer add nothing and lose
/// nothing on the way back.
pub proof fn lemma_result_fidelity<R, E>(done: Result<R, E>)
    ensures
        done matches Ok(value) ==> unified::<R, E>(Ok(Ok(done))) == Ok::<R, AsyncError<E>>(
            value,
        ),
        done matches Err(err) ==> unified::<R, E>(Ok(Ok(done))) == Err::<R, AsyncError<E>>(
            AsyncError::Execute(err),
        ),
{
}

/// Timeout isolation: a unit of work whose connection checkout was denied
/// resolves at the caller to the timeout channel carrying the pool's error,
/// and to nothing else. Together with [`run_unit`] — which fixes a worker's
/// reply to the checkout error alone and demands nothing of the closure when
/// the checkout fails — the closure plays no part in such an outcome.
pub proof fn lemma_timeout_isolation<R, E>(err: r2d2::Error)
    ensures
        unified::<R, E>(Ok(Err(err))) == Err::<R, AsyncError<E>>(AsyncError::Timeout(err)),
{
}

} // verus!
