//! The understudy: a sink actor used to observe message traffic.
//!
//! An understudy owns a mailbox-consuming end with no script. It hands out
//! ordinary handles, so it can be wired into the same constructors as any
//! actor, and it accumulates the payloads sent to it until they are read
//! back — either one at a time, or all at once when every producer handle is
//! gone.

use vstd::prelude::*;

use crate::actors::Actor;
use crate::channel;
use crate::channel::Poll;

verus! {

/// Why reading from an understudy yielded no payload.
#[derive(Debug, PartialEq, Eq, Structural)]
pub enum ReadError {
    /// Nothing is waiting right now, but a producer may still send later.
    Empty,
    /// Nothing is waiting and every producer handle is gone.
    Closed,
}

/// A sink actor with a consuming end and no script. It keeps one producing
/// end of its own mailbox, from which the handles it stages are duplicated.
#[verifier::reject_recursive_types(M)]
pub struct Understudy<M> {
    tx: std::sync::mpsc::Sender<M>,
    rx: std::sync::mpsc::Receiver<M>,
}

impl<M> Understudy<M> {
    /// A fresh understudy: an empty mailbox, nothing received yet.
    pub fn new() -> Understudy<M> {
        let (tx, rx) = channel::new_channel();
        Understudy { tx, rx }
    }

    /// A handle feeding this understudy's mailbox.
    pub fn stage(&self) -> (r: Actor<M>)
        ensures
            r is Understudy,
            r.cue_capable(),
    {
        Actor::new_understudy(channel::clone_sender(&self.tx))
    }

    /// Block until every producer handle is gone, then return everything
    /// ever sent to this understudy, in the channel's delivery order. The
    /// understudy's own producing end is given up first, so only staged
    /// handles keep the mailbox open.
    pub fn read_all(self) -> Vec<M> {
        let Understudy { tx, rx } = self;
        channel::drop_now(tx);
        channel::recv_all(rx)
    }

    /// The next payload, if one is already waiting; never blocks.
    pub fn try_recv(&self) -> Result<M, ReadError> {
        match channel::poll(&self.rx) {
            Poll::Item(m) => Ok(m),
            Poll::NothingYet => Err(ReadError::Empty),
            Poll::Closed => Err(ReadError::Closed),
        }
    }

    /// The next payload, blocking until one arrives; fails only once every
    /// producer handle is gone and the mailbox is empty.
    pub fn recv(&self) -> Result<M, ReadError> {
        match channel::recv(&self.rx) {
            Some(m) => Ok(m),
            None => Err(ReadError::Closed),
        }
    }

    /// Give up the consuming end itself.
    pub fn into_receiver(self) -> std::sync::mpsc::Receiver<M> {
        let Understudy { tx, rx } = self;
        channel::drop_now(tx);
        rx
    }
}

} // verus!
