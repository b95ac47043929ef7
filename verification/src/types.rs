//! An earlier, smaller shape of the actor surface: a bare cueing handle, a
//! constructed-but-not-yet-running actor, and the capability traits that tie
//! them together. The lifecycle state machine of [`crate::actors`] is the
//! full runtime; these types cover wiring-and-go programs where an actor's
//! body is a single run to completion.

pub mod testing;

use vstd::prelude::*;

use crate::channel;

verus! {

/// Cueing failed: the mailbox behind the handle has no consumer any more.
#[derive(Debug, PartialEq, Eq, Structural)]
pub enum ActorError {
    CueError,
}

/// A payload for actors that carry no data.
pub struct Null;

/// A bare handle: the producing end of one actor's mailbox.
#[verifier::reject_recursive_types(T)]
pub struct Actor<T>(pub(crate) std::sync::mpsc::Sender<T>);

impl<T> Actor<T> {
    /// Another handle feeding the same mailbox.
    pub fn duplicate(&self) -> Actor<T> {
        Actor(channel::clone_sender(&self.0))
    }
}

/// The body of an actor: one run to completion, consuming the actor.
pub trait ActorThread<T> {
    fn go(self);
}

/// An actor that has been constructed but not yet run, still holding a
/// producing end of its own mailbox so that others can be wired to it.
#[verifier::reject_recursive_types(T)]
pub struct ProspectiveActor<T, A: ActorThread<T>>(
    pub(crate) A,
    pub(crate) std::sync::mpsc::Sender<T>,
);

impl<T, A: ActorThread<T>> ProspectiveActor<T, A> {
    /// The body this actor will run.
    pub closed spec fn body(&self) -> A {
        self.0
    }

    /// The producing end of its own mailbox that it still holds.
    pub closed spec fn producer(&self) -> std::sync::mpsc::Sender<T> {
        self.1
    }

    pub fn new(actor: A, tx: std::sync::mpsc::Sender<T>) -> (r: ProspectiveActor<T, A>)
        ensures
            r.body() == actor,
            r.producer() == tx,
    {
        ProspectiveActor(actor, tx)
    }

    /// A handle feeding this actor's mailbox.
    pub fn stage(&self) -> Actor<T> {
        Actor(channel::clone_sender(&self.1))
    }
}

/// An actor with no mailbox at all: nothing can be wired to it.
pub struct IsolatedActor<A: ActorThread<Null>>(pub(crate) A);

impl<A: ActorThread<Null>> IsolatedActor<A> {
    /// The body this actor will run.
    pub closed spec fn body(&self) -> A {
        self.0
    }

    pub fn new(actor: A) -> (r: IsolatedActor<A>)
        ensures
            r.body() == actor,
    {
        IsolatedActor(actor)
    }
}

/// The capability to be set running.
pub trait Actionable {
    fn action(self);
}

impl<T, A: ActorThread<T>> Actionable for ProspectiveActor<T, A> {
    /// Run the actor's body; the producing end it held is dropped, so the
    /// mailbox closes once every staged handle is gone too.
    fn action(self) {
        let ProspectiveActor(body, _tx) = self;
        body.go();
    }
}

impl<A: ActorThread<Null>> Actionable for IsolatedActor<A> {
    fn action(self) {
        let IsolatedActor(body) = self;
        body.go();
    }
}

/// The capability to be sent a payload.
pub trait Cueable {
    type Message;

    fn cue(&self, data: Self::Message) -> Result<(), ActorError>;
}

impl<T> Cueable for Actor<T> {
    type Message = T;

    /// Send one payload; fails exactly when the consuming end is gone.
    fn cue(&self, data: T) -> Result<(), ActorError> {
        match channel::send(&self.0, data) {
            Ok(()) => Ok(()),
            Err(_) => Err(ActorError::CueError),
        }
    }
}

impl<T, A: ActorThread<T>> Cueable for ProspectiveActor<T, A> {
    type Message = T;

    /// Send one payload into the actor's own mailbox before it runs.
    fn cue(&self, data: T) -> Result<(), ActorError> {
        match channel::send(&self.1, data) {
            Ok(()) => Ok(()),
            Err(_) => Err(ActorError::CueError),
        }
    }
}

} // verus!
