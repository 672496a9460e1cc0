//! Error taxonomy of the bridge: setup-time validation errors, registry
//! misuse, and non-fatal event-delivery failure.

use vstd::prelude::*;

verus! {

/// Errors surfaced by the registry and the stream bridge.
///
/// `InvalidRequest`: malformed or unsupported setup parameters; the stream is
/// never started. `InvalidHandle` / `TypeMismatch`: registry misuse.
/// `DuplicateHandle`: an insert hit an occupied handle. `DeliveryFailure`: an
/// event could not be sent to the external side; never fatal to a producer.
#[derive(Clone, Copy, Debug, PartialEq, Eq, Structural)]
pub enum FfiError {
    InvalidRequest,
    InvalidHandle,
    TypeMismatch,
    DuplicateHandle,
    DeliveryFailure,
}

} // verus!
