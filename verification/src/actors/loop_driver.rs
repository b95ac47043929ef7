//! The loop actor variant: a driver with no payload delivery.
//!
//! A loop actor has no upstream input; its script is invoked repeatedly with
//! no argument while the actor is running. The mailbox carries only
//! lifecycle signals: `Start` begins the free run, `Pause` suspends it, and
//! `Cut` (or a closed mailbox) ends it at once — there is no buffer, so
//! there is nothing to drain. Between script invocations the driver checks
//! the mailbox without blocking, so a hot loop stays responsive to `Pause`
//! and `Cut`; while idle it blocks until a signal arrives. `Cue` is a no-op
//! for this variant.

use vstd::prelude::*;

use crate::actors::ActorResult;
use crate::actors::Message;
use crate::channel;
use crate::channel::Poll;

verus! {

/// The script of a loop actor: one free-running iteration. Returning `Err`
/// is the script's own completion signal and stops the actor at once.
pub trait LoopScript {
    fn on_iter(&mut self) -> ActorResult;
}

/// The abstract state of a loop driver. `runs` counts the script
/// invocations so far; `done` and `finished` mean what they mean for a
/// script driver.
#[verifier::ext_equal]
pub struct LoopView {
    pub running: bool,
    pub done: bool,
    pub finished: bool,
    pub runs: nat,
}

impl LoopView {
    /// A finished loop driver is done, and a done one is not running.
    pub open spec fn wf(self) -> bool {
        &&& self.finished ==> self.done
        &&& self.done ==> !self.running
    }

    /// The state a fresh loop driver is in: idle, never run.
    pub open spec fn initial() -> LoopView {
        LoopView { running: false, done: false, finished: false, runs: 0 }
    }
}

/// How one consumed lifecycle signal changes a loop driver's abstract state.
/// No row invokes the script, so `runs` and `finished` never change here.
pub open spec fn signal_rel<M>(pre: LoopView, msg: Message<M>, post: LoopView) -> bool {
    if pre.done {
        post == pre
    } else {
        match msg {
            Message::Cue(_) => post == pre,
            Message::Start => post == (LoopView { running: true, ..pre }),
            Message::Pause => post == (LoopView { running: false, ..pre }),
            Message::Cut => post == (LoopView { running: false, done: true, ..pre }),
        }
    }
}

/// One script invocation: the run count grows by one, and the driver ends at
/// once if the script signals its own completion.
pub open spec fn tick_rel(pre: LoopView, post: LoopView) -> bool {
    &&& pre.running && !pre.done
    &&& post.runs == pre.runs + 1
    &&& (!post.finished ==> post == (LoopView { runs: pre.runs + 1, ..pre }))
    &&& (post.finished ==> post == (LoopView {
        running: false,
        done: true,
        finished: true,
        runs: pre.runs + 1,
    }))
}

/// A loop driver whose signal mailbox closed: every handle is gone, so it
/// stops for good.
pub open spec fn loop_hangup_rel(pre: LoopView, post: LoopView) -> bool {
    post == (LoopView { running: false, done: true, ..pre })
}

/// What one call to [`LoopDriver::poll_step`] can do: one lifecycle signal
/// was obeyed; or the script ran once, because nothing was waiting or the
/// waiting signal was one this variant ignores; or the mailbox closed; or
/// the driver was already done and nothing happened.
pub open spec fn loop_polled_rel<M>(pre: LoopView, post: LoopView) -> bool {
    ||| post == pre
    ||| (exists|msg: Message<M>| #[trigger] signal_rel(pre, msg, post))
    ||| tick_rel(pre, post)
    ||| loop_hangup_rel(pre, post)
}

/// The runtime of one loop actor: the consuming end of its signal mailbox
/// and its script (which owns the actor's private state).
#[verifier::reject_recursive_types(M)]
pub struct LoopDriver<M, S> {
    rx: std::sync::mpsc::Receiver<Message<M>>,
    script: S,
    running: bool,
    done: bool,
    finished: bool,
    runs: Ghost<nat>,
}

impl<M, S> View for LoopDriver<M, S> {
    type V = LoopView;

    closed spec fn view(&self) -> LoopView {
        LoopView {
            running: self.running,
            done: self.done,
            finished: self.finished,
            runs: self.runs@,
        }
    }
}

impl<M, S: LoopScript> LoopDriver<M, S> {
    /// A loop driver over the consuming end of a signal mailbox, idle until
    /// told to start.
    pub fn new(rx: std::sync::mpsc::Receiver<Message<M>>, script: S) -> (r: LoopDriver<M, S>)
        ensures
            r@ == LoopView::initial(),
    {
        LoopDriver { rx, script, running: false, done: false, finished: false, runs: Ghost(0) }
    }

    /// Whether the driver consumes no further signals and runs no more.
    pub fn is_done(&self) -> (r: bool)
        ensures
            r == self@.done,
    {
        self.done
    }

    /// Whether the stop was the script's own completion signal.
    pub fn is_finished(&self) -> (r: bool)
        ensures
            r == self@.finished,
    {
        self.finished
    }

    /// Whether the script is currently free-running.
    pub fn is_running(&self) -> (r: bool)
        ensures
            r == self@.running,
    {
        self.running
    }

    /// Consume one lifecycle signal: the transition table of the loop
    /// variant. A done driver ignores everything; `Cue` is a no-op.
    pub fn signal(&mut self, msg: Message<M>)
        requires
            old(self)@.wf(),
        ensures
            final(self)@.wf(),
            signal_rel(old(self)@, msg, final(self)@),
    {
        let ghost pre = self@;
        if self.done {
            return ;
        }
        match msg {
            Message::Cue(_) => {},
            Message::Start => {
                self.running = true;
            },
            Message::Pause => {
                self.running = false;
            },
            Message::Cut => {
                self.running = false;
                self.done = true;
            },
        }
        proof {
            assert(signal_rel(pre, msg, self@));
        }
    }

    /// Run the script once. Only meaningful while running; if the script
    /// signals completion the driver is done at once.
    pub fn tick(&mut self)
        requires
            old(self)@.wf(),
            old(self)@.running,
            !old(self)@.done,
        ensures
            final(self)@.wf(),
            final(self)@.runs == old(self)@.runs + 1,
            !final(self)@.finished ==> final(self)@ == (LoopView {
                runs: old(self)@.runs + 1,
                ..old(self)@
            }),
            final(self)@.finished ==> final(self)@ == (LoopView {
                runs: old(self)@.runs + 1,
                running: false,
                done: true,
                finished: true,
                ..old(self)@
            }),
    {
        let r = self.script.on_iter();
        proof {
            self.runs@ = self.runs@ + 1;
        }
        if r.is_err() {
            self.finished = true;
            self.done = true;
            self.running = false;
        }
    }

    /// Make one unit of progress: while running, check the mailbox without
    /// blocking and either obey a signal or run the script once; while idle,
    /// block until a signal arrives. A closed mailbox ends the driver.
    pub fn poll_step(&mut self)
        requires
            old(self)@.wf(),
        ensures
            final(self)@.wf(),
            loop_polled_rel::<M>(old(self)@, final(self)@),
            old(self)@.done ==> final(self)@ == old(self)@,
            final(self)@.runs >= old(self)@.runs,
            old(self)@.finished ==> final(self)@.finished,
    {
        let ghost pre = self@;
        if self.done {
            return ;
        }
        if self.running {
            match channel::poll(&self.rx) {
                Poll::Item(msg) => {
                    match msg {
                        Message::Pause => {
                            self.running = false;
                            proof {
                                assert(self@ =~= (LoopView { running: false, ..pre }));
                                assert(signal_rel(pre, Message::<M>::Pause, self@));
                            }
                        },
                        Message::Cut => {
                            self.running = false;
                            self.done = true;
                            proof {
                                assert(self@ =~= (LoopView { running: false, done: true, ..pre }));
                                assert(signal_rel(pre, Message::<M>::Cut, self@));
                            }
                        },
                        _ => {
                            self.tick();
                        },
                    }
                },
                Poll::NothingYet => {
                    self.tick();
                },
                Poll::Closed => {
                    self.running = false;
                    self.done = true;
                    proof {
                        assert(self@ =~= (LoopView { running: false, done: true, ..pre }));
                    }
                },
            }
        } else {
            match channel::recv(&self.rx) {
                Some(msg) => {
                    self.signal(msg);
                },
                None => {
                    self.done = true;
                    proof {
                        assert(self@ =~= (LoopView { running: false, done: true, ..pre }));
                    }
                },
            }
        }
    }
}

} // verus!
