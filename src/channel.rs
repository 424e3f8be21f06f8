//! The tokio channels that carry requests, replies and completion signals.

use vstd::prelude::*;
use tokio::sync::mpsc::error::TryRecvError;
use tokio::sync::mpsc::{UnboundedReceiver, UnboundedSender};
use tokio::sync::oneshot;

verus! {

#[verifier::external_type_specification]
#[verifier::external_body]
#[verifier::reject_recursive_types(T)]
pub struct ExUnboundedSender<T>(UnboundedSender<T>);

#[verifier::external_type_specification]
#[verifier::external_body]
#[verifier::reject_recursive_types(T)]
pub struct ExUnboundedReceiver<T>(UnboundedReceiver<T>);

#[verifier::external_type_specification]
#[verifier::external_body]
#[verifier::reject_recursive_types(T)]
pub struct ExOneshotSender<T>(oneshot::Sender<T>);

#[verifier::external_type_specification]
#[verifier::external_body]
#[verifier::reject_recursive_types(T)]
pub struct ExOneshotReceiver<T>(oneshot::Receiver<T>);

// The receiving end's `Future` impl names this error, so Verus needs it
// declared beside the receiver.
#[verifier::external_type_specification]
#[verifier::external_body]
pub struct ExOneshotRecvError(oneshot::error::RecvError);

/// Relies on UnboundedSender's Clone: another sending end of the same
/// channel.
pub assume_specification<T>[ <UnboundedSender<T> as Clone>::clone ](
    tx: &UnboundedSender<T>,
) -> UnboundedSender<T>;

/// What a non-blocking receive found.
pub enum Received<T> {
    /// The next value in the channel.
    Value(T),
    /// Nothing yet; senders are still there.
    Empty,
    /// Nothing, and every sender is gone.
    Closed,
}

/// Relies on tokio::sync::mpsc::unbounded_channel: the two ends of a fresh
/// unbounded channel.
#[verifier::external_body]
pub(crate) fn unbounded<T>() -> (UnboundedSender<T>, UnboundedReceiver<T>) {
    tokio::sync::mpsc::unbounded_channel()
}

/// Relies on UnboundedSender::send: queues the value without waiting, or
/// hands it back when the receiving end is gone.
#[verifier::external_body]
pub(crate) fn enqueue<T>(tx: &UnboundedSender<T>, value: T) -> (r: Result<(), T>)
    ensures
        r is Err ==> r->Err_0 == value,
{
    tx.send(value).map_err(|e| e.0)
}

/// Relies on UnboundedReceiver::try_recv: the next value, or why there is
/// none, without waiting.
#[verifier::external_body]
pub(crate) fn try_receive<T>(rx: &mut UnboundedReceiver<T>) -> Received<T> {
    match rx.try_recv() {
        Ok(v) => Received::Value(v),
        Err(TryRecvError::Empty) => Received::Empty,
        Err(TryRecvError::Disconnected) => Received::Closed,
    }
}

/// Relies on tokio::sync::oneshot::channel: the two ends of a fresh
/// completion signal.
#[verifier::external_body]
pub(crate) fn completion_channel() -> (oneshot::Sender<()>, oneshot::Receiver<()>) {
    oneshot::channel()
}

/// Relies on oneshot::Sender::send: fires the signal, which is consumed; an
/// `Err` says that nobody waits for it any more.
#[verifier::external_body]
pub(crate) fn fire(tx: oneshot::Sender<()>) -> Result<(), ()> {
    tx.send(())
}

} // verus!
