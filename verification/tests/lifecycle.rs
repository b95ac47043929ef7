use chekhov::Actor;
use chekhov::ActorFinished;
use chekhov::ActorResult;
use chekhov::Direction;
use chekhov::LoopScript;
use chekhov::Message;
use chekhov::Script;
use chekhov::Understudy;
use chekhov::cast;
use chekhov::cast_loop;
use chekhov::cast_mut;
use chekhov::curtain_call;
use chekhov::from_the_top;

struct Forward {
    next: Actor<u8>,
}

impl Script<u8> for Forward {
    fn on_cue(&mut self, msg: u8) -> ActorResult {
        self.next.cue(msg)
    }
}

struct ForwardQuitOnNine {
    next: Actor<u8>,
}

impl Script<u8> for ForwardQuitOnNine {
    fn on_cue(&mut self, msg: u8) -> ActorResult {
        self.next.cue(msg)?;
        if msg == 9 { curtain_call() } else { Ok(()) }
    }
}

struct AcceptU8;

impl Script<u8> for AcceptU8 {
    fn on_cue(&mut self, _msg: u8) -> ActorResult {
        Ok(())
    }
}

struct Adder {
    x: u8,
    out: Actor<u8>,
}

impl Script<u8> for Adder {
    fn on_cue(&mut self, msg: u8) -> ActorResult {
        self.x += msg;
        self.out.cue(self.x)?;
        if self.x == 5 { curtain_call() } else { Ok(()) }
    }
}

struct FeedOne {
    next: Actor<u8>,
}

impl LoopScript for FeedOne {
    fn on_iter(&mut self) -> ActorResult {
        self.next.cue(1)
    }
}

struct EmitCount {
    n: u8,
    out: Actor<u8>,
}

impl LoopScript for EmitCount {
    fn on_iter(&mut self) -> ActorResult {
        self.n += 1;
        self.out.cue(self.n)
    }
}

#[test]
fn buffer_then_flush_keeps_send_order() {
    let sink = Understudy::new();
    let (mut driver, actor) = cast(Forward { next: sink.stage() });
    assert!(actor.cue(1).is_ok());
    assert!(actor.cue(2).is_ok());
    assert!(actor.cue(3).is_ok());
    driver.pump();
    assert!(!driver.is_done());
    assert!(actor.start().is_ok());
    assert!(actor.cue(4).is_ok());
    assert!(actor.cut().is_ok());
    driver.pump();
    drop(driver);
    assert_eq!(sink.read_all(), vec![1, 2, 3, 4]);
}

#[test]
fn pause_keeps_order() {
    let sink = Understudy::new();
    let (mut driver, actor) = cast(Forward { next: sink.stage() });
    assert!(actor.cue(1).is_ok());
    assert!(actor.pause().is_ok());
    assert!(actor.cue(2).is_ok());
    assert!(actor.start().is_ok());
    assert!(actor.cut().is_ok());
    driver.pump();
    drop(driver);
    assert_eq!(sink.read_all(), vec![1, 2]);
}

#[test]
fn pause_suspends_and_start_resumes() {
    let sink = Understudy::new();
    let (mut driver, actor) = cast(Forward { next: sink.stage() });
    assert!(actor.start().is_ok());
    assert!(actor.cue(1).is_ok());
    assert!(actor.pause().is_ok());
    assert!(actor.cue(2).is_ok());
    assert!(actor.cue(3).is_ok());
    driver.pump();
    assert!(!driver.is_done());
    assert!(actor.start().is_ok());
    assert!(actor.cut().is_ok());
    driver.pump();
    drop(driver);
    assert_eq!(sink.read_all(), vec![1, 2, 3]);
}

#[test]
fn cut_drains_backlog_exactly_once() {
    let sink = Understudy::new();
    let (mut driver, actor) = cast(Forward { next: sink.stage() });
    assert!(actor.cue(5).is_ok());
    assert!(actor.cue(6).is_ok());
    assert!(actor.cue(7).is_ok());
    assert!(actor.cut().is_ok());
    driver.pump();
    assert!(driver.is_done());
    assert!(!driver.is_finished());
    driver.pump();
    drop(driver);
    assert_eq!(sink.read_all(), vec![5, 6, 7]);
}

#[test]
fn self_termination_stops_delivery_at_once() {
    let sink = Understudy::new();
    let (mut driver, actor) = cast(ForwardQuitOnNine { next: sink.stage() });
    assert!(actor.cue(9).is_ok());
    assert!(actor.cue(1).is_ok());
    assert!(actor.cue(2).is_ok());
    assert!(actor.start().is_ok());
    driver.pump();
    assert!(driver.is_done());
    assert!(driver.is_finished());
    drop(driver);
    assert_eq!(sink.read_all(), vec![9]);
}

#[test]
fn duplicating_a_mutable_handle_never_succeeds() {
    let sink = Understudy::new();
    let (mut driver, actor) = cast_mut(Forward { next: sink.stage() });
    assert!(actor.stage().is_none());
    assert!(actor.start().is_ok());
    assert!(actor.cue(1).is_ok());
    assert!(actor.stage().is_none());
    assert!(actor.cut().is_ok());
    driver.pump();
    drop(driver);
    assert_eq!(sink.read_all(), vec![1]);
}

#[test]
fn cueing_a_terminated_actor_fails_without_crashing() {
    let (driver, actor) = cast(AcceptU8);
    drop(driver);
    assert!(actor.cue(0).is_err());
    assert!(actor.cut().is_err());
    assert!(actor.start().is_err());
    assert_eq!(actor.cue(1), Err(ActorFinished));
}

#[test]
fn adder_chain_counts_to_five_and_unwinds() {
    let sink = Understudy::new();
    let (mut adder, adder_handle) = cast_mut(Adder { x: 0, out: sink.stage() });
    assert!(adder_handle.start().is_ok());
    let (mut feeder, feeder_handle) = cast_loop::<u8, _>(FeedOne { next: adder_handle });
    assert!(feeder_handle.start().is_ok());
    for _ in 0..8 {
        feeder.poll_step();
    }
    adder.pump();
    assert!(adder.is_done());
    assert!(adder.is_finished());
    drop(adder);
    while !feeder.is_done() {
        feeder.poll_step();
    }
    assert!(feeder.is_finished());
    drop(feeder);
    assert_eq!(sink.read_all(), vec![1, 2, 3, 4, 5]);
}

#[test]
fn producer_doubles_into_sink_after_cut() {
    let sink = Understudy::new();
    let (mut doubler, doubler_handle) = cast(Doubler { next: sink.stage() });
    let (mut counter, counter_handle) = cast_loop::<u8, _>(CountInto {
        n: 0,
        next: doubler_handle.stage().unwrap(),
    });
    assert!(from_the_top(vec![&doubler_handle, &counter_handle]).is_ok());
    counter.poll_step();
    for _ in 0..5 {
        counter.poll_step();
    }
    assert!(counter_handle.cut().is_ok());
    counter.poll_step();
    assert!(counter.is_done());
    assert!(doubler_handle.cut().is_ok());
    doubler.pump();
    assert!(doubler.is_done());
    drop(doubler);
    drop(counter);
    assert_eq!(sink.read_all(), vec![0, 2, 4, 6, 8]);
}

struct Doubler {
    next: Actor<u8>,
}

impl Script<u8> for Doubler {
    fn on_cue(&mut self, msg: u8) -> ActorResult {
        self.next.cue(msg * 2)
    }
}

struct CountInto {
    n: u8,
    next: Actor<u8>,
}

impl LoopScript for CountInto {
    fn on_iter(&mut self) -> ActorResult {
        let sent = self.next.cue(self.n);
        self.n += 1;
        sent
    }
}

#[test]
fn loop_actor_obeys_pause_and_cut() {
    let sink = Understudy::new();
    let (mut driver, handle) = cast_loop::<u8, _>(EmitCount { n: 0, out: sink.stage() });
    assert!(handle.cue(42).is_ok());
    assert!(handle.start().is_ok());
    driver.poll_step();
    assert!(driver.is_running());
    driver.poll_step();
    driver.poll_step();
    assert!(handle.pause().is_ok());
    driver.poll_step();
    assert!(!driver.is_running());
    assert!(handle.cut().is_ok());
    driver.poll_step();
    assert!(driver.is_done());
    assert!(!driver.is_finished());
    drop(driver);
    assert_eq!(sink.read_all(), vec![1, 2]);
}

#[test]
fn cut_while_idle_ends_a_loop_actor() {
    let (mut driver, handle) = cast_loop::<u8, _>(EmitCount {
        n: 0,
        out: Understudy::new().stage(),
    });
    assert!(handle.cut().is_ok());
    driver.poll_step();
    assert!(driver.is_done());
}

#[test]
fn closed_mailbox_ends_a_driver_without_draining() {
    let sink = Understudy::new();
    let (mut driver, actor) = cast(Forward { next: sink.stage() });
    assert!(actor.cue(1).is_ok());
    drop(actor);
    driver.pump();
    assert!(driver.is_done());
    assert!(!driver.is_finished());
    drop(driver);
    assert_eq!(sink.read_all(), Vec::<u8>::new());
}

#[test]
fn message_payload_is_the_cue_payload() {
    assert_eq!(Message::Cue(5u8).payload(), Some(5));
    assert_eq!(Message::<u8>::Start.payload(), None);
    assert_eq!(Message::<u8>::Pause.payload(), None);
    assert_eq!(Message::<u8>::Cut.payload(), None);
}

#[test]
fn actor_finished_describes_itself() {
    assert_eq!(ActorFinished.description(), "actor has finished working");
    assert_eq!(curtain_call(), Err(ActorFinished));
}
