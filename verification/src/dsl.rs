//! The one query adapter with logic of its own: the optional-row adapter.
//! A query expected to return one row reports a dedicated "no rows" error
//! when it matches none; the optional adapter turns exactly that error into
//! a successful `None`, leaves a found row as `Some`, and passes every other
//! error through untouched, before the result leaves the worker.

use vstd::prelude::*;

verus! {

/// Relies on `diesel::result::Error::NotFound` being the variant the query
/// builder reports when a query expected to return at least one row matched
/// none; this tells that variant apart from every other error.
#[verifier::external_body]
fn is_not_found(err: &diesel::result::Error) -> bool {
    matches!(err, diesel::result::Error::NotFound)
}

/// Turns a single-row result into an optional-row result, given whether its
/// error, if any, is the "no rows" marker: a found row becomes `Some`, the
/// marker becomes a successful `None`, and any other error passes through
/// unchanged.
pub fn optionalize<U, E>(found: Result<U, E>, not_found: bool) -> (out: Result<Option<U>, E>)
    ensures
        found matches Ok(row) ==> out == Ok::<Option<U>, E>(Some(row)),
        found matches Err(err) ==> out == (if not_found {
            Ok::<Option<U>, E>(None)
        } else {
            Err::<Option<U>, E>(err)
        }),
{
    match found {
        Ok(row) => Ok(Some(row)),
        Err(err) => {
            if not_found {
                Ok(None)
            } else {
                Err(err)
            }
        },
    }
}

/// The optional-row adapter over the query builder's own error type: a found
/// row resolves to `Some`, a query matching zero rows to a successful
/// `None`, and an error for any other reason stays that same error.
pub fn optional_of<U>(found: Result<U, diesel::result::Error>) -> (out: Result<
    Option<U>,
    diesel::result::Error,
>)
    ensures
        found matches Ok(row) ==> out == Ok::<Option<U>, diesel::result::Error>(Some(row)),
        found matches Err(err) ==> (out == Ok::<Option<U>, diesel::result::Error>(None) || out
            == Err::<Option<U>, diesel::result::Error>(err)),
{
    let not_found = match &found {
        Ok(_) => false,
        Err(err) => is_not_found(err),
    };
    optionalize(found, not_found)
}

} // verus!
