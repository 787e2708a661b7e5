//! Declarations of the collaborator types that flow through the library's
//! results. Each is opaque here: the library never looks inside a value of
//! one of these types, it only carries the value from the collaborator to
//! the caller.

use vstd::prelude::*;

verus! {

/// Relies on `actix::MailboxError`: the error the actor mailbox reports when
/// a message could not be delivered to any worker. Carried through unchanged.
#[verifier::external_type_specification]
#[verifier::external_body]
pub struct ExMailboxError(actix::MailboxError);

/// Relies on `r2d2::Error`: the error the connection pool reports when no
/// connection could be checked out within the configured wait time. Carried
/// through unchanged.
#[verifier::external_type_specification]
#[verifier::external_body]
pub struct ExPoolError(r2d2::Error);

/// Relies on `diesel::result::Error`: the query builder's own error type for
/// a failed database operation. Carried through unchanged.
#[verifier::external_type_specification]
#[verifier::external_body]
pub struct ExQueryError(diesel::result::Error);

} // verus!
