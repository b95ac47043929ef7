//! Actor handles, control messages, and the orchestrator.
//!
//! A handle is the producer-side capability for one actor's mailbox. Every
//! holder of a handle can cue payloads and send lifecycle signals; the
//! consuming side is driven by the state machines in [`driver`] and
//! [`loop_driver`].

pub mod driver;
pub mod loop_driver;
pub mod understudy;

use vstd::prelude::*;

use crate::channel;

verus! {

/// A control message: either a payload to be processed (`Cue`) or a
/// lifecycle signal. Messages are consumed by a driver in receipt order.
#[derive(PartialEq)]
pub enum Message<M> {
    Cue(M),
    Start,
    Pause,
    Cut,
}

impl<M> Message<M> {
    /// The payload carried by a `Cue`, if any.
    pub fn payload(self) -> (r: Option<M>)
        ensures
            r == (match self {
                Message::Cue(m) => Some(m),
                _ => None::<M>,
            }),
    {
        match self {
            Message::Cue(data) => Some(data),
            _ => None,
        }
    }
}

/// The one failure an actor operation reports: the counterpart has finished
/// working, so nothing consumes its mailbox any more. A script also returns
/// this value, through [`curtain_call`], to signal its own completion.
#[derive(Debug, PartialEq, Eq, Structural)]
pub struct ActorFinished;

impl ActorFinished {
    /// A fixed, human-readable account of this error.
    pub fn description(&self) -> (r: &'static str)
        ensures
            r@ == "actor has finished working"@,
    {
        "actor has finished working"
    }
}

/// The result of cueing, cutting, starting or pausing an actor, and of one
/// step of a script. `Err` never escalates beyond the caller: a terminated
/// downstream actor is an expected condition, not a crash.
pub type ActorResult = Result<(), ActorFinished>;

/// A payload for actors that carry no data.
#[derive(PartialEq)]
pub struct Null;

/// The producer-side capability for one actor's mailbox.
///
/// The four kinds differ only in capability, not in the consuming state
/// machine: an immutable actor's handle may be staged (duplicated) freely; a
/// mutable actor's handle refuses duplication outright — staging it yields
/// nothing, so the producer side of a state-mutating actor is never aliased;
/// a loop actor has no payload channel, so cueing it is a no-op; an
/// understudy takes bare payloads with no lifecycle signals.
#[verifier::reject_recursive_types(M)]
pub enum Actor<M> {
    Actor(std::sync::mpsc::Sender<Message<M>>),
    ActorMut(std::sync::mpsc::Sender<Message<M>>),
    ActorLoop(std::sync::mpsc::Sender<Message<M>>),
    Understudy(std::sync::mpsc::Sender<M>),
}

impl<M> Actor<M> {
    /// Whether a `cue` through this handle places a payload in a mailbox.
    /// False only for a loop handle, which has no payload channel.
    pub open spec fn cue_capable(&self) -> bool {
        match self {
            Actor::Actor(_) => true,
            Actor::ActorMut(_) => true,
            Actor::ActorLoop(_) => false,
            Actor::Understudy(_) => true,
        }
    }

    /// The handle of an immutable actor.
    pub fn new(tx: std::sync::mpsc::Sender<Message<M>>) -> (r: Actor<M>)
        ensures
            r == Actor::<M>::Actor(tx),
    {
        Actor::Actor(tx)
    }

    /// The sole handle of a mutable actor: the one producer its mailbox will
    /// ever have.
    pub fn new_mut(tx: std::sync::mpsc::Sender<Message<M>>) -> (r: Actor<M>)
        ensures
            r == Actor::<M>::ActorMut(tx),
            r.cue_capable(),
    {
        Actor::ActorMut(tx)
    }

    /// The handle of a loop actor, which consumes lifecycle signals only.
    pub fn new_loop(tx: std::sync::mpsc::Sender<Message<M>>) -> (r: Actor<M>)
        ensures
            r == Actor::<M>::ActorLoop(tx),
    {
        Actor::ActorLoop(tx)
    }

    /// The handle of an understudy, which takes bare payloads.
    pub fn new_understudy(tx: std::sync::mpsc::Sender<M>) -> (r: Actor<M>)
        ensures
            r == Actor::<M>::Understudy(tx),
    {
        Actor::Understudy(tx)
    }

    /// Send one payload to the actor behind this handle. Fails exactly when
    /// the mailbox has a consumer no longer; a loop handle has no payload
    /// channel, so cueing it is a no-op that trivially succeeds.
    pub fn cue(&self, msg: M) -> (r: ActorResult)
        ensures
            !self.cue_capable() ==> r is Ok,
    {
        match self {
            Actor::Actor(tx) | Actor::ActorMut(tx) => {
                match channel::send(tx, Message::Cue(msg)) {
                    Ok(()) => Ok(()),
                    Err(_) => Err(ActorFinished),
                }
            },
            Actor::Understudy(tx) => match channel::send(tx, msg) {
                Ok(()) => Ok(()),
                Err(_) => Err(ActorFinished),
            },
            Actor::ActorLoop(_) => Ok(()),
        }
    }

    /// Cue every payload of `msgs` in order, stopping at the first failure.
    pub fn cue_all(&self, msgs: Vec<M>) -> (r: ActorResult)
        ensures
            !self.cue_capable() ==> r is Ok,
    {
        let mut rest = msgs;
        while rest.len() > 0
            decreases rest.len(),
        {
            let msg = rest.remove(0);
            let sent = self.cue(msg);
            if sent.is_err() {
                return sent;
            }
        }
        Ok(())
    }

    /// Ask the actor to drain whatever it has buffered and then terminate.
    pub fn cut(&self) -> (r: ActorResult)
        ensures
            self is Understudy ==> r is Ok,
    {
        self.pass_msg(Message::Cut)
    }

    /// Duplicate this handle. The duplicate feeds the same mailbox.
    /// Duplicating a mutable actor's handle never succeeds: its mailbox has
    /// exactly one producer, ever, so exclusive mutation is safe without
    /// locking, and the refusal is this reported value, never a silently
    /// aliased handle.
    pub fn stage(&self) -> (r: Option<Actor<M>>)
        ensures
            self is ActorMut <==> r is None,
            self is Actor ==> (r matches Some(h) && h is Actor),
            self is ActorLoop ==> (r matches Some(h) && h is ActorLoop),
            self is Understudy ==> (r matches Some(h) && h is Understudy),
    {
        match self {
            Actor::Actor(tx) => Some(Actor::new(channel::clone_sender(tx))),
            Actor::ActorMut(_) => None,
            Actor::ActorLoop(tx) => Some(Actor::new_loop(channel::clone_sender(tx))),
            Actor::Understudy(tx) => Some(Actor::new_understudy(channel::clone_sender(tx))),
        }
    }

    /// Send a lifecycle signal. An understudy has no lifecycle, so the call
    /// trivially succeeds there.
    fn pass_msg(&self, msg: Message<M>) -> (r: ActorResult)
        ensures
            self is Understudy ==> r is Ok,
    {
        match self {
            Actor::Actor(tx) | Actor::ActorMut(tx) | Actor::ActorLoop(tx) => {
                match channel::send(tx, msg) {
                    Ok(()) => Ok(()),
                    Err(_) => Err(ActorFinished),
                }
            },
            Actor::Understudy(_) => Ok(()),
        }
    }
}

/// The lifecycle signals every handle can send: begin (or resume)
/// processing, and suspend processing.
pub trait Direction {
    /// Whether this handle's lifecycle sends are sure to succeed — nothing
    /// stands behind them that could be gone.
    spec fn unfailing(&self) -> bool;

    fn start(&self) -> (r: ActorResult)
        ensures
            self.unfailing() ==> r is Ok,
    ;

    fn pause(&self) -> (r: ActorResult)
        ensures
            self.unfailing() ==> r is Ok,
    ;
}

impl<M> Direction for Actor<M> {
    /// An understudy consumes no lifecycle signals, so sending it one cannot
    /// fail; every other kind sends into a mailbox whose consumer may be
    /// gone.
    open spec fn unfailing(&self) -> bool {
        self is Understudy
    }

    fn start(&self) -> (r: ActorResult)
        ensures
            self.unfailing() ==> r is Ok,
    {
        self.pass_msg(Message::Start)
    }

    fn pause(&self) -> (r: ActorResult)
        ensures
            self.unfailing() ==> r is Ok,
    {
        self.pass_msg(Message::Pause)
    }
}

/// Send `Start` to each actor in the given order, returning the first
/// failure and starting no actor after it. The order decides only which
/// backlog is committed first; it imposes no synchronization between the
/// actors afterwards. Starting nobody trivially succeeds, as does starting
/// only actors whose lifecycle sends cannot fail.
pub fn from_the_top<D: Direction>(actors: Vec<&D>) -> (r: ActorResult)
    ensures
        actors@.len() == 0 ==> r is Ok,
        (forall|i: int| 0 <= i < actors@.len() ==> #[trigger] actors@[i].unfailing()) ==> r is Ok,
{
    let mut i: usize = 0;
    while i < actors.len()
        invariant
            i <= actors.len(),
        decreases actors.len() - i,
    {
        let started = actors[i].start();
        if started.is_err() {
            proof {
                assert(!actors@[i as int].unfailing());
            }
            return started;
        }
        i = i + 1;
    }
    Ok(())
}

/// A script's explicit completion signal: the actor is done, further input
/// is moot.
pub fn curtain_call() -> (r: ActorResult)
    ensures
        r == Err::<(), ActorFinished>(ActorFinished),
{
    Err(ActorFinished)
}

/// Cast an immutable actor: a fresh mailbox, a driver that is not yet
/// processing, and a freely duplicable handle feeding it.
pub fn cast<M, S: driver::Script<M>>(script: S) -> (r: (driver::Driver<M, S>, Actor<M>))
    ensures
        r.0@ == driver::DriverView::<M>::initial(),
        r.1 is Actor,
{
    let (tx, rx) = channel::new_channel();
    (driver::Driver::new(rx, script), Actor::new(tx))
}

/// Cast a mutable actor: as [`cast`], but the handle is the one cue-capable
/// producer its mailbox will ever have.
pub fn cast_mut<M, S: driver::Script<M>>(script: S) -> (r: (driver::Driver<M, S>, Actor<M>))
    ensures
        r.0@ == driver::DriverView::<M>::initial(),
        r.1 is ActorMut,
        r.1.cue_capable(),
{
    let (tx, rx) = channel::new_channel();
    (driver::Driver::new(rx, script), Actor::new_mut(tx))
}

/// Cast a loop actor: a fresh signal mailbox, an idle driver, and a handle
/// that carries lifecycle signals only.
pub fn cast_loop<M, S: loop_driver::LoopScript>(script: S) -> (r: (
    loop_driver::LoopDriver<M, S>,
    Actor<M>,
))
    ensures
        r.0@ == loop_driver::LoopView::initial(),
        r.1 is ActorLoop,
{
    let (tx, rx) = channel::new_channel();
    (loop_driver::LoopDriver::new(rx, script), Actor::new_loop(tx))
}

} // verus!
