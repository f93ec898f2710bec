//! The two categorically different failure channels of a wrapped operation.

use vstd::prelude::*;

verus! {

/// The error type of a wrapped unit of work.
///
/// The two variants are never conflated:
///
/// * `Model` carries a business-level failure. It is always rendered as an
///   ordinary transport response and never escapes as a transport error.
/// * `PollReady` carries an infrastructure-level readiness failure. It may
///   only be raised by a readiness check, never by an active invocation.
pub enum OperationError<ModelError, PollError> {
    /// A business-level failure of the operation, convertible to a response.
    Model(ModelError),
    /// An infrastructure-level failure raised while checking readiness.
    PollReady(PollError),
}

} // verus!
