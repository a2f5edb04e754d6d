//! The single-shot rendezvous between the event pump and the awaiting guest.
//!
//! Each submitted transfer gets a fresh one-shot channel: the completion
//! callback (event pump thread) sends exactly one outcome, the awaiting
//! guest call receives it. The channel and the shared completion flag are
//! the only pieces of the bridge whose behaviour crosses threads; they are
//! taken on trust from `tokio::sync::oneshot` and `std::sync::atomic`, and
//! everything computed around them is verified.

use vstd::prelude::*;

verus! {

use std::sync::Arc;
use std::sync::atomic::AtomicBool;
use crate::errors::LibusbError;

/// The outcome a completed transfer delivers: the received payload, or the
/// error the completion status mapped to.
pub type TransferOutcome = Result<Vec<u8>, LibusbError>;

#[verifier::external_type_specification]
#[verifier::external_body]
#[verifier::reject_recursive_types(T)]
pub struct ExOneshotSender<T>(tokio::sync::oneshot::Sender<T>);

#[verifier::external_type_specification]
#[verifier::external_body]
#[verifier::reject_recursive_types(T)]
pub struct ExOneshotReceiver<T>(tokio::sync::oneshot::Receiver<T>);

#[verifier::external_type_specification]
#[verifier::external_body]
pub struct ExOneshotRecvError(tokio::sync::oneshot::error::RecvError);

/// Relies on `tokio::sync::oneshot::channel`: the returned halves form one
/// connected single-use channel.
#[verifier::external_body]
pub(crate) fn outcome_channel() -> (r: (
    tokio::sync::oneshot::Sender<TransferOutcome>,
    tokio::sync::oneshot::Receiver<TransferOutcome>,
))
{
    tokio::sync::oneshot::channel()
}

/// Relies on `tokio::sync::oneshot::Sender::send`: the value is delivered to
/// the receiving half if it still exists, and handed back unchanged
/// otherwise.
#[verifier::external_body]
pub(crate) fn outcome_send(
    sender: tokio::sync::oneshot::Sender<TransferOutcome>,
    value: TransferOutcome,
) -> (r: Result<(), TransferOutcome>)
    ensures
        r matches Err(v) ==> v == value,
{
    sender.send(value)
}

/// Relies on `tokio::sync::oneshot::Receiver::blocking_recv`: waits until
/// the sending half sends a value, and yields `None` when the sender was
/// dropped without sending. The bridge is synchronous, so the call never
/// runs inside an asynchronous runtime (where it would panic).
#[verifier::external_body]
pub(crate) fn outcome_receive(receiver: tokio::sync::oneshot::Receiver<TransferOutcome>) -> (r: Option<
    TransferOutcome,
>)
{
    receiver.blocking_recv().ok()
}

/// Relies on `std::sync::Arc::clone`: the result is a second handle to the
/// same shared completion flag.
#[verifier::external_body]
pub(crate) fn share_flag(flag: &Arc<AtomicBool>) -> (r: Arc<AtomicBool>)
    ensures
        r == *flag,
{
    Arc::clone(flag)
}

} // verus!
