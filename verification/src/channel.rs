use vstd::prelude::*;

verus! {

#[verifier::external_type_specification]
#[verifier::external_body]
#[verifier::reject_recursive_types(T)]
pub struct ExMpscSender<T>(tokio::sync::mpsc::Sender<T>);

#[verifier::external_type_specification]
#[verifier::external_body]
#[verifier::reject_recursive_types(T)]
pub struct ExOneshotSender<T>(tokio::sync::oneshot::Sender<T>);

#[verifier::external_type_specification]
#[verifier::external_body]
#[verifier::reject_recursive_types(T)]
pub struct ExOneshotReceiver<T>(tokio::sync::oneshot::Receiver<T>);

#[verifier::external_type_specification]
#[verifier::external_body]
pub struct ExOneshotRecvError(tokio::sync::oneshot::error::RecvError);

/// Hands a value to the queue, suspending the calling thread while the
/// queue is full (backpressure) rather than growing it. True when the value
/// was enqueued; false when the receiving side is gone, in which case the
/// value is given up. What the queue holds depends on every other producer,
/// so nothing more is claimed.
///
/// Relies on tokio::sync::mpsc::Sender::blocking_send; it must be called
/// from outside any async executor.
#[verifier::external_body]
pub(crate) fn queue_send<T>(tx: &tokio::sync::mpsc::Sender<T>, value: T) -> (sent: bool) {
    tx.blocking_send(value).is_ok()
}

/// A fresh single-use reply slot: one write-once producer and one read-once
/// consumer, connected to each other and to nothing else.
///
/// Relies on tokio::sync::oneshot::channel.
#[verifier::external_body]
pub(crate) fn reply_slot<T>() -> (slot: (
    tokio::sync::oneshot::Sender<T>,
    tokio::sync::oneshot::Receiver<T>,
)) {
    tokio::sync::oneshot::channel()
}

/// Writes the single value of a reply slot. If the consumer stopped
/// waiting, the value is dropped silently: a dropped reply is never an
/// error to the sender.
///
/// Relies on tokio::sync::oneshot::Sender::send.
#[verifier::external_body]
pub(crate) fn answer_reply<T>(slot: tokio::sync::oneshot::Sender<T>, value: T) {
    let _ = slot.send(value);
}

/// Waits for the single value of a reply slot, suspending the calling
/// thread; none when the producer was dropped without writing. What arrives
/// depends on the producing thread, so nothing more is claimed.
///
/// Relies on tokio::sync::oneshot::Receiver::blocking_recv; it must be
/// called from outside any async executor.
#[verifier::external_body]
pub(crate) fn wait_reply<T>(slot: tokio::sync::oneshot::Receiver<T>) -> (reply: Option<T>) {
    slot.blocking_recv().ok()
}

/// A second producer for the same queue.
///
/// Relies on tokio::sync::mpsc::Sender::clone: the clone feeds the queue
/// the original feeds.
#[verifier::external_body]
pub(crate) fn clone_queue_sender<T>(tx: &tokio::sync::mpsc::Sender<T>) -> (c:
    tokio::sync::mpsc::Sender<T>) {
    tx.clone()
}

} // verus!
