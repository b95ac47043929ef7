//! The trusted boundary around the standard multi-producer, single-consumer
//! channel that carries every message between actors.
//!
//! The channel is the one shared resource of the runtime and is taken as
//! given: its endpoints are opaque here, and each operation is wrapped once.
//! Nothing about delivery order or channel contents is assumed; the verified
//! state machines in the rest of the crate speak only about what a driver
//! does with the messages it receives, in the order it receives them.

use vstd::prelude::*;

verus! {

/// Outcome of a non-blocking look at the consuming end of a mailbox.
pub enum Poll<T> {
    /// A message was waiting.
    Item(T),
    /// Nothing is waiting right now, but a producer may still send later.
    NothingYet,
    /// Nothing is waiting and every producer is gone; nothing can arrive.
    Closed,
}

#[verifier::external_type_specification]
#[verifier::external_body]
#[verifier::reject_recursive_types(T)]
pub struct ExSender<T>(std::sync::mpsc::Sender<T>);

#[verifier::external_type_specification]
#[verifier::external_body]
#[verifier::reject_recursive_types(T)]
pub struct ExReceiver<T>(std::sync::mpsc::Receiver<T>);

/// Relies on std::sync::mpsc::channel: returns the producing and the
/// consuming end of one new, empty, unbounded queue.
#[verifier::external_body]
pub(crate) fn new_channel<T>() -> (std::sync::mpsc::Sender<T>, std::sync::mpsc::Receiver<T>) {
    std::sync::mpsc::channel()
}

/// Take a value and let it go at once. A producing end must be given up
/// before a blocking drain can end; moving it into this call makes that
/// explicit and immediate, where a discarding pattern binding would not.
pub(crate) fn drop_now<T>(t: T) {
}

/// Relies on std::sync::mpsc::Sender::clone: the copy is another producing
/// end of the same queue.
#[verifier::external_body]
pub(crate) fn clone_sender<T>(tx: &std::sync::mpsc::Sender<T>) -> std::sync::mpsc::Sender<T> {
    tx.clone()
}

/// Relies on std::sync::mpsc::Sender::send: sending never blocks, fails only
/// when the consuming end has been dropped, and a failed send hands the
/// undelivered message back inside the error.
#[verifier::external_body]
pub(crate) fn send<T>(tx: &std::sync::mpsc::Sender<T>, msg: T) -> (r: Result<(), T>)
    ensures
        r matches Err(m) ==> m == msg,
{
    match tx.send(msg) {
        Ok(()) => Ok(()),
        Err(e) => Err(e.0),
    }
}

/// Relies on std::sync::mpsc::Receiver::recv: blocks until a message arrives
/// (Some) or until every producing end is gone and the queue is empty (None).
#[verifier::external_body]
pub(crate) fn recv<T>(rx: &std::sync::mpsc::Receiver<T>) -> Option<T> {
    rx.recv().ok()
}

/// Relies on std::sync::mpsc::Receiver::try_recv: returns at once, telling a
/// waiting message apart from a momentarily empty queue and from a queue that
/// can never fill again.
#[verifier::external_body]
pub(crate) fn poll<T>(rx: &std::sync::mpsc::Receiver<T>) -> Poll<T> {
    match rx.try_recv() {
        Ok(m) => Poll::Item(m),
        Err(std::sync::mpsc::TryRecvError::Empty) => Poll::NothingYet,
        Err(std::sync::mpsc::TryRecvError::Disconnected) => Poll::Closed,
    }
}

/// Relies on std::sync::mpsc::Receiver::try_iter: yields, in delivery order
/// and without ever blocking, every message that is already waiting.
#[verifier::external_body]
pub(crate) fn poll_all<T>(rx: &std::sync::mpsc::Receiver<T>) -> Vec<T> {
    rx.try_iter().collect()
}

/// Relies on std::sync::mpsc::Receiver::iter: yields every message in
/// delivery order, blocking between messages, until every producer is gone.
#[verifier::external_body]
pub(crate) fn recv_all<T>(rx: std::sync::mpsc::Receiver<T>) -> Vec<T> {
    rx.iter().collect()
}

} // verus!
