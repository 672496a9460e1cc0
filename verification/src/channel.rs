//! Declarations and trusted wrappers for the asynchronous channels the
//! bridge delivers through: an unbounded sender for event delivery and a
//! single-shot pair for the cooperative close signal.

use vstd::prelude::*;

verus! {

#[verifier::external_type_specification]
#[verifier::external_body]
#[verifier::reject_recursive_types(T)]
pub struct ExUnboundedSender<T>(tokio::sync::mpsc::UnboundedSender<T>);

#[verifier::external_type_specification]
#[verifier::external_body]
#[verifier::reject_recursive_types(T)]
pub struct ExOneshotSender<T>(tokio::sync::oneshot::Sender<T>);

#[verifier::external_type_specification]
#[verifier::external_body]
#[verifier::reject_recursive_types(T)]
pub struct ExOneshotReceiver<T>(tokio::sync::oneshot::Receiver<T>);

#[verifier::external_type_specification]
#[verifier::external_body]
pub struct ExOneshotRecvError(tokio::sync::oneshot::error::RecvError);

/// Relies on tokio::sync::mpsc::UnboundedSender::send: enqueues the message
/// and returns Ok, or hands the message back in an error once the receiving
/// half is gone. Whether delivery succeeds depends on the receiver's state,
/// so nothing more is promised of the result.
#[verifier::external_body]
pub(crate) fn send_unbounded<T>(tx: &tokio::sync::mpsc::UnboundedSender<T>, value: T) -> (delivered:
    bool) {
    match tx.send(value) {
        Ok(()) => true,
        Err(_) => false,
    }
}

/// Relies on tokio::sync::oneshot::channel: returns a connected single-shot
/// sender / receiver pair, used as the stream's cancellation signal.
#[verifier::external_body]
pub(crate) fn new_close_signal() -> (pair: (
    tokio::sync::oneshot::Sender<()>,
    tokio::sync::oneshot::Receiver<()>,
)) {
    tokio::sync::oneshot::channel()
}

/// Relies on tokio::sync::oneshot::Sender::send: consumes the single-shot
/// sender; the send fails silently once the receiving side is gone, which
/// makes a close signal after producer termination a no-op.
#[verifier::external_body]
pub(crate) fn fire_close_signal(tx: tokio::sync::oneshot::Sender<()>) -> (delivered: bool) {
    match tx.send(()) {
        Ok(()) => true,
        Err(()) => false,
    }
}

} // verus!
