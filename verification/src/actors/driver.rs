//! The script driver: the lifecycle state machine at the heart of the
//! runtime.
//!
//! A driver owns the consuming end of one mailbox and a user-supplied
//! script. Messages are consumed in receipt order and drive three phases:
//! while inactive the driver buffers every cued payload; `Start` commits the
//! backlog to the script, in order, and switches to active processing;
//! `Pause` returns to buffering; `Cut` drains whatever is buffered and then
//! terminates. A script may end the actor itself by returning an error, and
//! such self-termination stops delivery at once — unlike `Cut`, it does not
//! drain.
//!
//! Everything the driver ever hands to the script is recorded in a ghost
//! sequence, `delivered`. The transition relation [`step_rel`] pins down how
//! one consumed message changes the driver's abstract state, and the proof
//! functions at the end of this module state the delivery guarantees of the
//! whole machine: backlogs are flushed in send order, pausing never reorders,
//! `Cut` delivers each buffered payload exactly once and in order, and a
//! finished actor never receives anything again.

use vstd::prelude::*;

use crate::actors::ActorResult;
use crate::actors::Message;
use crate::channel;
use crate::channel::Poll;

verus! {

/// A script: the pure computation step an actor performs per payload. The
/// driver calls `on_cue` once for each payload it delivers; returning `Err`
/// is the script's own completion signal and makes the driver stop consuming
/// at once.
pub trait Script<M> {
    fn on_cue(&mut self, msg: M) -> ActorResult;
}

/// The abstract state of a script driver.
///
/// `buffer` holds the payloads cued while inactive, oldest first.
/// `delivered` records every payload ever handed to the script, in delivery
/// order. `done` says the driver consumes no further messages; `finished`
/// says the stop was the script's own completion signal rather than `Cut` or
/// a closed mailbox.
#[verifier::ext_equal]
pub struct DriverView<M> {
    pub active: bool,
    pub done: bool,
    pub finished: bool,
    pub buffer: Seq<M>,
    pub delivered: Seq<M>,
}

impl<M> DriverView<M> {
    /// What every reachable driver state satisfies: a finished driver is
    /// done, a done driver is not active, and an active driver has an empty
    /// buffer (its backlog was flushed when it started).
    pub open spec fn wf(self) -> bool {
        &&& self.finished ==> self.done
        &&& self.done ==> !self.active
        &&& self.active ==> self.buffer.len() == 0
    }

    /// The state a fresh driver is in: inactive, nothing buffered, nothing
    /// delivered.
    pub open spec fn initial() -> DriverView<M> {
        DriverView {
            active: false,
            done: false,
            finished: false,
            buffer: Seq::empty(),
            delivered: Seq::empty(),
        }
    }
}

/// The drain at `Start` and `Cut`: some prefix of the buffered payloads, in
/// order and each exactly once, is handed to the script; the prefix is the
/// whole buffer unless the script signals completion partway, and afterwards
/// nothing is buffered.
pub open spec fn drain_rel<M>(pre: DriverView<M>, post: DriverView<M>) -> bool {
    &&& post.buffer == Seq::<M>::empty()
    &&& exists|k: int|
        0 <= k <= pre.buffer.len() && post.delivered == pre.delivered + #[trigger] pre.buffer.take(
            k,
        ) && (post.finished || k == pre.buffer.len())
}

/// How consuming one message changes the driver's abstract state. This is
/// the transition table of the lifecycle state machine; the nondeterminism
/// in the active-`Cue` and drain rows is exactly the script's freedom to
/// signal its own completion.
pub open spec fn step_rel<M>(pre: DriverView<M>, msg: Message<M>, post: DriverView<M>) -> bool {
    if pre.done {
        post == pre
    } else {
        match msg {
            Message::Cue(m) => {
                if pre.active {
                    &&& post.buffer == pre.buffer
                    &&& post.delivered == pre.delivered.push(m)
                    &&& post.done == post.finished
                    &&& post.active == !post.finished
                } else {
                    post == (DriverView { buffer: pre.buffer.push(m), ..pre })
                }
            },
            Message::Start => {
                if pre.active {
                    post == pre
                } else {
                    &&& drain_rel(pre, post)
                    &&& post.done == post.finished
                    &&& post.active == !post.finished
                }
            },
            Message::Pause => post == (DriverView { active: false, ..pre }),
            Message::Cut => {
                &&& drain_rel(pre, post)
                &&& post.done
                &&& !post.active
            },
        }
    }
}

/// `steps_rel(pre, msgs, post)` says the machine can go from `pre` to `post`
/// by consuming the messages of `msgs` in order.
pub open spec fn steps_rel<M>(
    pre: DriverView<M>,
    msgs: Seq<Message<M>>,
    post: DriverView<M>,
) -> bool
    decreases msgs.len(),
{
    if msgs.len() == 0 {
        post == pre
    } else {
        exists|mid: DriverView<M>|
            #[trigger] step_rel(pre, msgs[0], mid) && steps_rel(mid, msgs.skip(1), post)
    }
}

/// A driver that stops consuming because its mailbox closed: every producer
/// handle is gone, so it is done, with its backlog undelivered.
pub open spec fn hangup_rel<M>(pre: DriverView<M>, post: DriverView<M>) -> bool {
    post == (DriverView { done: true, active: false, ..pre })
}

/// What one call to [`Driver::pump`] or [`Driver::step_blocking`] can do:
/// consume some sequence of messages, possibly followed by a hangup of the
/// mailbox.
pub open spec fn pumped_rel<M>(pre: DriverView<M>, post: DriverView<M>) -> bool {
    exists|msgs: Seq<Message<M>>, mid: DriverView<M>|
        #[trigger] steps_rel(pre, msgs, mid) && (post == mid || hangup_rel(mid, post))
}

/// The runtime of one actor: the consuming end of its mailbox, its script
/// (which owns the actor's private state), and the lifecycle state.
#[verifier::reject_recursive_types(M)]
pub struct Driver<M, S> {
    rx: std::sync::mpsc::Receiver<Message<M>>,
    script: S,
    active: bool,
    done: bool,
    finished: bool,
    buffer: Vec<M>,
    delivered: Ghost<Seq<M>>,
}

impl<M, S> View for Driver<M, S> {
    type V = DriverView<M>;

    closed spec fn view(&self) -> DriverView<M> {
        DriverView {
            active: self.active,
            done: self.done,
            finished: self.finished,
            buffer: self.buffer@,
            delivered: self.delivered@,
        }
    }
}

impl<M, S: Script<M>> Driver<M, S> {
    /// A driver over the consuming end of a mailbox, not yet processing:
    /// payloads cued before `Start` will be buffered, not delivered.
    pub fn new(rx: std::sync::mpsc::Receiver<Message<M>>, script: S) -> (r: Driver<M, S>)
        ensures
            r@ == DriverView::<M>::initial(),
    {
        let r = Driver {
            rx,
            script,
            active: false,
            done: false,
            finished: false,
            buffer: Vec::new(),
            delivered: Ghost(Seq::empty()),
        };
        proof {
            assert(r@ =~= DriverView::<M>::initial());
        }
        r
    }

    /// Whether the driver consumes no further messages.
    pub fn is_done(&self) -> (r: bool)
        ensures
            r == self@.done,
    {
        self.done
    }

    /// Whether the stop was the script's own completion signal.
    pub fn is_finished(&self) -> (r: bool)
        ensures
            r == self@.finished,
    {
        self.finished
    }

    /// Whether cued payloads are currently delivered at once rather than
    /// buffered.
    pub fn is_active(&self) -> (r: bool)
        ensures
            r == self@.active,
    {
        self.active
    }

    /// Hand every buffered payload to the script, in order, stopping early
    /// only if the script signals completion; afterwards nothing is
    /// buffered. Returns whether the script is still willing to continue.
    fn drain(&mut self) -> (completed: bool)
        ensures
            final(self).active == old(self).active,
            final(self).done == old(self).done,
            final(self).finished == old(self).finished,
            final(self).buffer@ == Seq::<M>::empty(),
            exists|k: int|
                0 <= k <= old(self).buffer@.len() && final(self).delivered@ == old(
                    self,
                ).delivered@ + #[trigger] old(self).buffer@.take(k) && (completed ==> k == old(
                    self,
                ).buffer@.len()),
    {
        let ghost buf0 = self.buffer@;
        let ghost del0 = self.delivered@;
        let ghost act0 = self.active;
        let ghost don0 = self.done;
        let ghost fin0 = self.finished;
        let ghost mut k: int = 0;
        let mut completed: bool = true;
        proof {
            assert(buf0.take(0) =~= Seq::<M>::empty());
            assert(del0 + buf0.take(0) =~= del0);
            assert(buf0.skip(0) =~= buf0);
        }
        while completed && self.buffer.len() > 0
            invariant
                0 <= k <= buf0.len(),
                self.buffer@ == buf0.skip(k),
                self.delivered@ == del0 + buf0.take(k),
                self.active == act0,
                self.done == don0,
                self.finished == fin0,
            decreases self.buffer@.len(),
        {
            let m = self.buffer.remove(0);
            let ghost gm = m;
            proof {
                assert(gm == buf0[k]);
                assert(self.buffer@ =~= buf0.skip(k + 1));
            }
            let r = self.script.on_cue(m);
            proof {
                self.delivered@ = self.delivered@.push(gm);
                assert(self.delivered@ =~= del0 + buf0.take(k + 1));
                k = k + 1;
            }
            if r.is_err() {
                completed = false;
            }
        }
        if !completed {
            self.buffer.clear();
        }
        proof {
            if completed {
                assert(buf0.skip(k).len() == 0);
                assert(k == buf0.len());
            }
            assert(self.buffer@ =~= Seq::<M>::empty());
            assert(0 <= k <= buf0.len() && self.delivered@ == del0 + buf0.take(k) && (completed
                ==> k == buf0.len()));
        }
        completed
    }

    /// Consume one message: the transition table of the lifecycle state
    /// machine. A done driver ignores everything.
    pub fn step(&mut self, msg: Message<M>)
        requires
            old(self)@.wf(),
        ensures
            final(self)@.wf(),
            step_rel(old(self)@, msg, final(self)@),
    {
        let ghost pre = self@;
        if self.done {
            return ;
        }
        match msg {
            Message::Cue(m) => {
                if self.active {
                    let ghost gm = m;
                    let r = self.script.on_cue(m);
                    proof {
                        self.delivered@ = self.delivered@.push(gm);
                    }
                    if r.is_err() {
                        self.finished = true;
                        self.done = true;
                        self.active = false;
                    }
                } else {
                    let ghost gm = m;
                    self.buffer.push(m);
                    proof {
                        assert(self@ =~= (DriverView { buffer: pre.buffer.push(gm), ..pre }));
                    }
                }
            },
            Message::Start => {
                if !self.active {
                    let completed = self.drain();
                    let ghost drained = self@;
                    if completed {
                        self.active = true;
                    } else {
                        self.finished = true;
                        self.done = true;
                        self.active = false;
                    }
                    proof {
                        let k0 = choose|k: int|
                            0 <= k <= pre.buffer.len() && drained.delivered == pre.delivered
                                + #[trigger] pre.buffer.take(k) && (completed ==> k
                                == pre.buffer.len());
                        assert(0 <= k0 <= pre.buffer.len() && self@.delivered == pre.delivered
                            + pre.buffer.take(k0) && (self@.finished || k0 == pre.buffer.len()));
                        assert(drain_rel(pre, self@));
                    }
                }
            },
            Message::Pause => {
                self.active = false;
                proof {
                    assert(self@ =~= (DriverView { active: false, ..pre }));
                }
            },
            Message::Cut => {
                let completed = self.drain();
                let ghost drained = self@;
                if !completed {
                    self.finished = true;
                }
                self.done = true;
                self.active = false;
                proof {
                    let k0 = choose|k: int|
                        0 <= k <= pre.buffer.len() && drained.delivered == pre.delivered
                            + #[trigger] pre.buffer.take(k) && (completed ==> k
                            == pre.buffer.len());
                    assert(0 <= k0 <= pre.buffer.len() && self@.delivered == pre.delivered
                        + pre.buffer.take(k0) && (self@.finished || k0 == pre.buffer.len()));
                    assert(drain_rel(pre, self@));
                }
            },
        }
    }

    /// Consume everything already waiting in the mailbox, in receipt order,
    /// without ever blocking; if the mailbox turns out to be closed, the
    /// driver is done. Nothing handed to the script is ever lost or
    /// reordered: the result is some run of the transition relation.
    pub fn pump(&mut self)
        requires
            old(self)@.wf(),
        ensures
            final(self)@.wf(),
            pumped_rel(old(self)@, final(self)@),
            old(self)@.delivered.is_prefix_of(final(self)@.delivered),
            old(self)@.done ==> final(self)@ == old(self)@,
    {
        let ghost pre = self@;
        let ghost mut trace: Seq<Message<M>> = Seq::empty();
        let mut queued = channel::poll_all(&self.rx);
        while queued.len() > 0
            invariant
                old(self)@.wf(),
                self@.wf(),
                steps_rel(pre, trace, self@),
            decreases queued.len(),
        {
            let m = queued.remove(0);
            let ghost gm = m;
            let ghost vmid = self@;
            self.step(m);
            proof {
                lemma_steps_snoc(pre, trace, vmid, gm, self@);
                trace = trace.push(gm);
            }
        }
        match channel::poll(&self.rx) {
            Poll::Item(m) => {
                let ghost gm = m;
                let ghost vmid = self@;
                self.step(m);
                proof {
                    lemma_steps_snoc(pre, trace, vmid, gm, self@);
                    trace = trace.push(gm);
                }
            },
            Poll::NothingYet => {},
            Poll::Closed => {
                if !self.done {
                    self.done = true;
                    self.active = false;
                }
            },
        }
        proof {
            self.finish_pump_proof(pre, trace);
        }
    }

    /// Block for one message and consume it; if the mailbox closes instead,
    /// the driver is done. The embedding program's consume-loop is just this
    /// call repeated until [`Self::is_done`].
    pub fn step_blocking(&mut self)
        requires
            old(self)@.wf(),
        ensures
            final(self)@.wf(),
            pumped_rel(old(self)@, final(self)@),
            old(self)@.delivered.is_prefix_of(final(self)@.delivered),
            old(self)@.done ==> final(self)@ == old(self)@,
    {
        let ghost pre = self@;
        let ghost mut trace: Seq<Message<M>> = Seq::empty();
        if !self.done {
            match channel::recv(&self.rx) {
                Some(m) => {
                    let ghost gm = m;
                    self.step(m);
                    proof {
                        lemma_steps_snoc(pre, trace, pre, gm, self@);
                        trace = trace.push(gm);
                    }
                },
                None => {
                    self.done = true;
                    self.active = false;
                },
            }
        }
        proof {
            self.finish_pump_proof(pre, trace);
        }
    }

    /// The common closing argument of [`Self::pump`] and
    /// [`Self::step_blocking`]: the state is reached from `pre` by the traced
    /// messages, possibly followed by a hangup, and delivery only ever grows.
    proof fn finish_pump_proof(&self, pre: DriverView<M>, trace: Seq<Message<M>>)
        requires
            pre.wf(),
            steps_rel(pre, trace, self@) || (exists|mid: DriverView<M>|
                #[trigger] steps_rel(pre, trace, mid) && hangup_rel(mid, self@)),
        ensures
            pumped_rel(pre, self@),
            pre.delivered.is_prefix_of(self@.delivered),
            pre.done ==> self@ == pre,
    {
        if steps_rel(pre, trace, self@) {
            assert(pumped_rel(pre, self@));
            lemma_delivered_monotone(pre, trace, self@);
            if pre.done {
                lemma_done_absorbs(pre, trace, self@);
            }
        } else {
            let mid = choose|mid: DriverView<M>|
                #[trigger] steps_rel(pre, trace, mid) && hangup_rel(mid, self@);
            assert(pumped_rel(pre, self@));
            lemma_delivered_monotone(pre, trace, mid);
            assert(mid.delivered == self@.delivered);
            if pre.done {
                lemma_done_absorbs(pre, trace, mid);
                assert(self@ =~= pre);
            }
        }
    }
}

/// Appending one consumed message to a run of the machine extends the run.
pub proof fn lemma_steps_snoc<M>(
    pre: DriverView<M>,
    msgs: Seq<Message<M>>,
    mid: DriverView<M>,
    msg: Message<M>,
    post: DriverView<M>,
)
    requires
        steps_rel(pre, msgs, mid),
        step_rel(mid, msg, post),
    ensures
        steps_rel(pre, msgs.push(msg), post),
    decreases msgs.len(),
{
    let whole = msgs.push(msg);
    if msgs.len() == 0 {
        assert(mid == pre);
        assert(whole[0] == msg);
        assert(whole.skip(1) =~= Seq::<Message<M>>::empty());
        assert(steps_rel(post, whole.skip(1), post));
        assert(step_rel(pre, whole[0], post) && steps_rel(post, whole.skip(1), post));
    } else {
        let first = choose|x: DriverView<M>|
            #[trigger] step_rel(pre, msgs[0], x) && steps_rel(x, msgs.skip(1), mid);
        lemma_steps_snoc(first, msgs.skip(1), mid, msg, post);
        assert(whole[0] == msgs[0]);
        assert(whole.skip(1) =~= msgs.skip(1).push(msg));
        assert(step_rel(pre, whole[0], first) && steps_rel(first, whole.skip(1), post));
    }
}

/// Once a driver is done — by `Cut`, by the script's own completion signal,
/// or by a hangup — no later message changes anything: in particular, no
/// further payload is ever delivered.
pub proof fn lemma_done_absorbs<M>(pre: DriverView<M>, msgs: Seq<Message<M>>, post: DriverView<M>)
    requires
        pre.done,
        steps_rel(pre, msgs, post),
    ensures
        post == pre,
    decreases msgs.len(),
{
    if msgs.len() > 0 {
        let mid = choose|x: DriverView<M>|
            #[trigger] step_rel(pre, msgs[0], x) && steps_rel(x, msgs.skip(1), post);
        assert(mid == pre);
        lemma_done_absorbs(pre, msgs.skip(1), post);
    }
}

/// Once a script signals its own completion, no further message — buffered
/// or still to come — is ever delivered to it.
pub proof fn lemma_self_termination_stops<M>(
    pre: DriverView<M>,
    msgs: Seq<Message<M>>,
    post: DriverView<M>,
)
    requires
        pre.wf(),
        pre.finished,
        steps_rel(pre, msgs, post),
    ensures
        post.delivered == pre.delivered,
{
    lemma_done_absorbs(pre, msgs, post);
}

/// Delivery is append-only: whatever a driver consumes, everything already
/// delivered stays delivered, in its order, before anything newer.
pub proof fn lemma_delivered_monotone<M>(
    pre: DriverView<M>,
    msgs: Seq<Message<M>>,
    post: DriverView<M>,
)
    requires
        steps_rel(pre, msgs, post),
    ensures
        pre.delivered.is_prefix_of(post.delivered),
    decreases msgs.len(),
{
    if msgs.len() == 0 {
        assert(pre.delivered.is_prefix_of(post.delivered));
    } else {
        let mid = choose|x: DriverView<M>|
            #[trigger] step_rel(pre, msgs[0], x) && steps_rel(x, msgs.skip(1), post);
        lemma_step_delivered_monotone(pre, msgs[0], mid);
        lemma_delivered_monotone(mid, msgs.skip(1), post);
        assert(pre.delivered.is_prefix_of(post.delivered));
    }
}

/// One consumed message only ever appends to the delivered sequence.
proof fn lemma_step_delivered_monotone<M>(pre: DriverView<M>, msg: Message<M>, post: DriverView<M>)
    requires
        step_rel(pre, msg, post),
    ensures
        pre.delivered.is_prefix_of(post.delivered),
{
    if !pre.done {
        match msg {
            Message::Cue(m) => {
                if pre.active {
                    assert(post.delivered == pre.delivered.push(m));
                    assert(pre.delivered.is_prefix_of(post.delivered));
                }
            },
            Message::Start => {
                if !pre.active {
                    lemma_drain_delivered_monotone(pre, post);
                }
            },
            Message::Pause => {},
            Message::Cut => {
                lemma_drain_delivered_monotone(pre, post);
            },
        }
    }
}

/// A drain only ever appends to the delivered sequence.
proof fn lemma_drain_delivered_monotone<M>(pre: DriverView<M>, post: DriverView<M>)
    requires
        drain_rel(pre, post),
    ensures
        pre.delivered.is_prefix_of(post.delivered),
{
    let k = choose|k: int|
        0 <= k <= pre.buffer.len() && post.delivered == pre.delivered + #[trigger] pre.buffer.take(
            k,
        ) && (post.finished || k == pre.buffer.len());
    assert(post.delivered.take(pre.delivered.len() as int) =~= pre.delivered);
}

/// Buffering alone: while inactive and not done, consuming cues only appends
/// them, in order, to the buffer; nothing is delivered.
pub proof fn lemma_cues_buffer<M>(pre: DriverView<M>, cues: Seq<M>, post: DriverView<M>)
    requires
        pre.wf(),
        !pre.done,
        !pre.active,
        steps_rel(pre, cues.map_values(|m: M| Message::Cue(m)), post),
    ensures
        post == (DriverView { buffer: pre.buffer + cues, ..pre }),
    decreases cues.len(),
{
    let msgs = cues.map_values(|m: M| Message::Cue(m));
    if cues.len() == 0 {
        assert(msgs.len() == 0);
        assert(post == pre);
        assert(pre.buffer + cues =~= pre.buffer);
        assert((DriverView { buffer: pre.buffer + cues, ..pre }) =~= pre);
    } else {
        assert(msgs[0] == Message::Cue(cues[0]));
        let mid = choose|x: DriverView<M>|
            #[trigger] step_rel(pre, msgs[0], x) && steps_rel(x, msgs.skip(1), post);
        assert(mid == (DriverView { buffer: pre.buffer.push(cues[0]), ..pre }));
        assert(msgs.skip(1) =~= cues.skip(1).map_values(|m: M| Message::Cue(m)));
        lemma_cues_buffer(mid, cues.skip(1), post);
        assert(pre.buffer.push(cues[0]) + cues.skip(1) =~= pre.buffer + cues);
        assert(post =~= (DriverView { buffer: pre.buffer + cues, ..pre }));
    }
}

/// Buffer-then-flush: payloads cued while inactive are not delivered at
/// once, but a `Start` hands the script exactly the backlog — everything
/// already buffered and everything cued since, in send order — before
/// anything sent after the `Start` can be seen; if the script does not cut
/// its run short, the whole backlog arrives and the driver ends up active
/// with an empty buffer.
pub proof fn lemma_buffer_then_flush<M>(pre: DriverView<M>, cues: Seq<M>, post: DriverView<M>)
    requires
        pre.wf(),
        !pre.done,
        !pre.active,
        steps_rel(pre, cues.map_values(|m: M| Message::Cue(m)).push(Message::Start), post),
    ensures
        post.finished ==> exists|k: int|
            0 <= k <= pre.buffer.len() + cues.len() && post.delivered == pre.delivered + #[trigger] (
            pre.buffer + cues).take(k),
        !post.finished ==> post.delivered == pre.delivered + pre.buffer + cues,
        !post.finished ==> post.active && !post.done && post.buffer.len() == 0,
{
    let msgs = cues.map_values(|m: M| Message::Cue(m));
    let whole = msgs.push(Message::Start);
    lemma_steps_unsnoc(pre, msgs, Message::Start, post);
    let mid = choose|x: DriverView<M>|
        #[trigger] steps_rel(pre, msgs, x) && step_rel(x, Message::Start, post);
    lemma_cues_buffer(pre, cues, mid);
    assert(mid.buffer == pre.buffer + cues);
    assert(!mid.active && !mid.done);
    let k = choose|k: int|
        0 <= k <= mid.buffer.len() && post.delivered == mid.delivered + #[trigger] mid.buffer.take(
            k,
        ) && (post.finished || k == mid.buffer.len());
    if !post.finished {
        assert(k == mid.buffer.len());
        assert(mid.buffer.take(k) =~= mid.buffer);
        assert(post.delivered == pre.delivered + (pre.buffer + cues));
        assert(pre.delivered + (pre.buffer + cues) =~= pre.delivered + pre.buffer + cues);
    }
}

/// A run that ends in one known last message splits into the run before it
/// and that final step.
pub proof fn lemma_steps_unsnoc<M>(
    pre: DriverView<M>,
    msgs: Seq<Message<M>>,
    msg: Message<M>,
    post: DriverView<M>,
)
    requires
        steps_rel(pre, msgs.push(msg), post),
    ensures
        exists|mid: DriverView<M>| #[trigger] steps_rel(pre, msgs, mid) && step_rel(
            mid,
            msg,
            post,
        ),
    decreases msgs.len(),
{
    let whole = msgs.push(msg);
    if msgs.len() == 0 {
        let mid = choose|x: DriverView<M>|
            #[trigger] step_rel(pre, whole[0], x) && steps_rel(x, whole.skip(1), post);
        assert(whole[0] == msg);
        assert(whole.skip(1) =~= Seq::<Message<M>>::empty());
        assert(post == mid);
        assert(steps_rel(pre, msgs, pre));
        assert(step_rel(pre, msg, post));
    } else {
        let first = choose|x: DriverView<M>|
            #[trigger] step_rel(pre, whole[0], x) && steps_rel(x, whole.skip(1), post);
        assert(whole[0] == msgs[0]);
        assert(whole.skip(1) =~= msgs.skip(1).push(msg));
        lemma_steps_unsnoc(first, msgs.skip(1), msg, post);
        let mid = choose|x: DriverView<M>|
            #[trigger] steps_rel(first, msgs.skip(1), x) && step_rel(x, msg, post);
        lemma_steps_cons(pre, msgs, first, mid);
        assert(steps_rel(pre, msgs, mid) && step_rel(mid, msg, post));
    }
}

/// Prepending the known first step to a run of the rest gives a run of the
/// whole.
proof fn lemma_steps_cons<M>(
    pre: DriverView<M>,
    msgs: Seq<Message<M>>,
    first: DriverView<M>,
    post: DriverView<M>,
)
    requires
        msgs.len() > 0,
        step_rel(pre, msgs[0], first),
        steps_rel(first, msgs.skip(1), post),
    ensures
        steps_rel(pre, msgs, post),
{
}

/// A run over two stretches of messages passes through a state between them.
pub proof fn lemma_steps_split<M>(
    pre: DriverView<M>,
    head: Seq<Message<M>>,
    tail: Seq<Message<M>>,
    post: DriverView<M>,
)
    requires
        steps_rel(pre, head + tail, post),
    ensures
        exists|mid: DriverView<M>| #[trigger] steps_rel(pre, head, mid) && steps_rel(
            mid,
            tail,
            post,
        ),
    decreases head.len(),
{
    let whole = head + tail;
    if head.len() == 0 {
        assert(whole =~= tail);
        assert(steps_rel(pre, head, pre));
        assert(steps_rel(pre, head, pre) && steps_rel(pre, tail, post));
    } else {
        assert(whole[0] == head[0]);
        let first = choose|x: DriverView<M>|
            #[trigger] step_rel(pre, whole[0], x) && steps_rel(x, whole.skip(1), post);
        assert(whole.skip(1) =~= head.skip(1) + tail);
        lemma_steps_split(first, head.skip(1), tail, post);
        let mid = choose|x: DriverView<M>|
            #[trigger] steps_rel(first, head.skip(1), x) && steps_rel(x, tail, post);
        lemma_steps_cons(pre, head, first, mid);
        assert(steps_rel(pre, head, mid) && steps_rel(mid, tail, post));
    }
}

/// One consumed message keeps the driver's state well formed.
proof fn lemma_step_wf<M>(pre: DriverView<M>, msg: Message<M>, post: DriverView<M>)
    requires
        pre.wf(),
        step_rel(pre, msg, post),
    ensures
        post.wf(),
{
}

/// Every state the machine can reach from a well-formed state is well
/// formed: a finished driver is done, a done driver is not active, and an
/// active driver holds no backlog.
pub proof fn lemma_wf_preserved<M>(pre: DriverView<M>, msgs: Seq<Message<M>>, post: DriverView<M>)
    requires
        pre.wf(),
        steps_rel(pre, msgs, post),
    ensures
        post.wf(),
    decreases msgs.len(),
{
    if msgs.len() > 0 {
        let mid = choose|x: DriverView<M>|
            #[trigger] step_rel(pre, msgs[0], x) && steps_rel(x, msgs.skip(1), post);
        lemma_step_wf(pre, msgs[0], mid);
        lemma_wf_preserved(mid, msgs.skip(1), post);
    }
}

/// Buffer-then-flush, continued: in any longer run that begins with the
/// flush, every payload of the backlog stands in the delivered sequence
/// before anything the driver consumes after the `Start`.
pub proof fn lemma_backlog_first<M>(
    pre: DriverView<M>,
    cues: Seq<M>,
    later: Seq<Message<M>>,
    post: DriverView<M>,
)
    requires
        pre.wf(),
        !pre.done,
        !pre.active,
        steps_rel(pre, cues.map_values(|m: M| Message::Cue(m)).push(Message::Start) + later, post),
    ensures
        exists|mid: DriverView<M>|
            {
                &&& steps_rel(
                    pre,
                    cues.map_values(|m: M| Message::Cue(m)).push(Message::Start),
                    mid,
                )
                &&& #[trigger] steps_rel(mid, later, post)
                &&& mid.delivered.is_prefix_of(post.delivered)
                &&& (!mid.finished ==> mid.delivered == pre.delivered + pre.buffer + cues)
            },
{
    let flush = cues.map_values(|m: M| Message::Cue(m)).push(Message::Start);
    lemma_steps_split(pre, flush, later, post);
    let mid = choose|x: DriverView<M>| #[trigger] steps_rel(pre, flush, x) && steps_rel(
        x,
        later,
        post,
    );
    lemma_delivered_monotone(mid, later, post);
    lemma_buffer_then_flush(pre, cues, mid);
    assert(steps_rel(pre, flush, mid) && steps_rel(mid, later, post)
        && mid.delivered.is_prefix_of(post.delivered) && (!mid.finished ==> mid.delivered
        == pre.delivered + pre.buffer + cues));
}

/// Pause never reorders: cueing `m1`, pausing, cueing `m2` while paused and
/// then starting again delivers `m1` and then `m2`, in that order, after
/// whatever was already buffered — never `m2` first.
pub proof fn lemma_pause_keeps_order<M>(
    pre: DriverView<M>,
    m1: M,
    m2: M,
    post: DriverView<M>,
)
    requires
        pre.wf(),
        !pre.done,
        !pre.active,
        steps_rel(
            pre,
            seq![
                Message::Cue(m1),
                Message::Pause,
                Message::Cue(m2),
                Message::Start,
            ],
            post,
        ),
        !post.finished,
    ensures
        post.delivered == pre.delivered + pre.buffer + seq![m1, m2],
{
    let msgs = seq![
        Message::<M>::Cue(m1),
        Message::<M>::Pause,
        Message::<M>::Cue(m2),
        Message::<M>::Start,
    ];
    let mid1 = choose|x: DriverView<M>|
        #[trigger] step_rel(pre, msgs[0], x) && steps_rel(x, msgs.skip(1), post);
    assert(mid1 == (DriverView { buffer: pre.buffer.push(m1), ..pre }));
    let rest1 = msgs.skip(1);
    assert(rest1[0] == Message::<M>::Pause);
    let mid2 = choose|x: DriverView<M>|
        #[trigger] step_rel(mid1, rest1[0], x) && steps_rel(x, rest1.skip(1), post);
    assert(mid2 == (DriverView { active: false, ..mid1 }));
    let rest2 = rest1.skip(1);
    assert(rest2[0] == Message::<M>::Cue(m2));
    let mid3 = choose|x: DriverView<M>|
        #[trigger] step_rel(mid2, rest2[0], x) && steps_rel(x, rest2.skip(1), post);
    assert(mid3 == (DriverView { buffer: mid2.buffer.push(m2), ..mid2 }));
    let rest3 = rest2.skip(1);
    assert(rest3[0] == Message::<M>::Start);
    let mid4 = choose|x: DriverView<M>|
        #[trigger] step_rel(mid3, rest3[0], x) && steps_rel(x, rest3.skip(1), post);
    assert(rest3.skip(1) =~= Seq::<Message<M>>::empty());
    assert(post == mid4);
    let k = choose|k: int|
        0 <= k <= mid3.buffer.len() && post.delivered == mid3.delivered
            + #[trigger] mid3.buffer.take(k) && (post.finished || k == mid3.buffer.len());
    assert(k == mid3.buffer.len());
    assert(mid3.buffer.take(k) =~= mid3.buffer);
    assert(mid3.buffer =~= pre.buffer + seq![m1, m2]);
    assert(post.delivered =~= pre.delivered + pre.buffer + seq![m1, m2]);
}

/// Cut drains: every payload cued before the `Cut` — the backlog and the
/// cues in between — is handed to the script exactly once and in order
/// before the driver terminates, unless the script itself cuts the run
/// short; and even then what is delivered is exactly a prefix of that
/// sequence, so nothing is ever reordered, repeated, or silently skipped.
pub proof fn lemma_cut_drains<M>(pre: DriverView<M>, cues: Seq<M>, post: DriverView<M>)
    requires
        pre.wf(),
        !pre.done,
        !pre.active,
        steps_rel(pre, cues.map_values(|m: M| Message::Cue(m)).push(Message::Cut), post),
    ensures
        post.done,
        exists|k: int|
            0 <= k <= pre.buffer.len() + cues.len() && post.delivered == pre.delivered + #[trigger] (
            pre.buffer + cues).take(k),
        !post.finished ==> post.delivered == pre.delivered + pre.buffer + cues,
{
    let msgs = cues.map_values(|m: M| Message::Cue(m));
    lemma_steps_unsnoc(pre, msgs, Message::Cut, post);
    let mid = choose|x: DriverView<M>|
        #[trigger] steps_rel(pre, msgs, x) && step_rel(x, Message::Cut, post);
    lemma_cues_buffer(pre, cues, mid);
    assert(mid.buffer == pre.buffer + cues);
    let k = choose|k: int|
        0 <= k <= mid.buffer.len() && post.delivered == mid.delivered + #[trigger] mid.buffer.take(
            k,
        ) && (post.finished || k == mid.buffer.len());
    assert(0 <= k <= pre.buffer.len() + cues.len() && post.delivered == pre.delivered + (pre.buffer
        + cues).take(k));
    if !post.finished {
        assert(k == mid.buffer.len());
        assert(mid.buffer.take(k) =~= mid.buffer);
        assert(pre.delivered + (pre.buffer + cues) =~= pre.delivered + pre.buffer + cues);
    }
}

} // verus!
