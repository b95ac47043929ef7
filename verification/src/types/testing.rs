//! A sink for observing message traffic in tests, matching the shape of the
//! types in [`crate::types`]: it hands out bare [`Actor`](super::Actor)
//! handles and reads back what was sent through them.

use vstd::prelude::*;

use crate::channel;
use crate::types::Actor;
use crate::types::ActorError;
use crate::types::Cueable;

verus! {

/// A sink owning both ends of its own mailbox: payloads sent through staged
/// handles (or cued directly) wait here until read back.
#[verifier::reject_recursive_types(T)]
pub struct Understudy<T>(
    pub(crate) std::sync::mpsc::Sender<T>,
    pub(crate) std::sync::mpsc::Receiver<T>,
);

impl<T> Understudy<T> {
    /// A fresh sink with an empty mailbox.
    pub fn new() -> Understudy<T> {
        let (tx, rx) = channel::new_channel();
        Understudy(tx, rx)
    }

    /// A handle feeding this sink's mailbox.
    pub fn stage(&self) -> Actor<T> {
        Actor(channel::clone_sender(&self.0))
    }

    /// Everything waiting right now, in the channel's delivery order; never
    /// blocks, and leaves the sink usable.
    pub fn read(&mut self) -> Vec<T> {
        channel::poll_all(&self.1)
    }

    /// Block until every producer handle is gone, then return everything
    /// ever sent to this sink, in the channel's delivery order. The sink's
    /// own producing end is given up first, so only staged handles keep the
    /// mailbox open.
    pub fn read_all(self) -> Vec<T> {
        let Understudy(tx, rx) = self;
        channel::drop_now(tx);
        channel::recv_all(rx)
    }
}

impl<T> Cueable for Understudy<T> {
    type Message = T;

    /// Send one payload straight into the sink's own mailbox.
    fn cue(&self, data: T) -> Result<(), ActorError> {
        match channel::send(&self.0, data) {
            Ok(()) => Ok(()),
            Err(_) => Err(ActorError::CueError),
        }
    }
}

} // verus!
