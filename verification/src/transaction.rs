//! The transaction rule the library relies on: the database driver commits
//! the work's effects when the transaction closure succeeds and rolls every
//! one of them back when it fails. The live driver enforces this on the real
//! database; this module states the rule itself over an explicit state, so
//! that what "atomic" means here is pinned down and proved rather than
//! implied.

use vstd::prelude::*;

verus! {

/// Runs one transaction attempt against an explicit state and settles it:
/// the state the database is left in, together with the caller's result.
///
/// The closure receives the current state and reports either the state as
/// rewritten by its writes along with its value, or an error. On success the
/// rewritten state is committed; on error every write is rolled back — the
/// state handed out is exactly the one the transaction began with, however
/// much the closure wrote before failing.
pub fn settle_transaction<S: Copy, R, E, F: FnOnce(S) -> Result<(S, R), E>>(
    state: S,
    work: F,
) -> (out: (S, Result<R, E>))
    requires
        call_requires(work, (state,)),
    ensures
        out.1 matches Ok(value) ==> call_ensures(work, (state,), Ok((out.0, value))),
        out.1 matches Err(err) ==> out.0 == state && call_ensures(work, (state,), Err(err)),
{
    match work(state) {
        Ok((written, value)) => (written, Ok(value)),
        Err(err) => (state, Err(err)),
    }
}

} // verus!
