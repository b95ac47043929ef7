use chekhov::Actor;
use chekhov::ActorResult;
use chekhov::Direction;
use chekhov::LoopScript;
use chekhov::Script;
use chekhov::Understudy;
use chekhov::cast;
use chekhov::cast_loop;
use chekhov::cast_mut;
use chekhov::curtain_call;
use chekhov::from_the_top;

struct Forward {
    next: Actor<u8>,
}

impl Script<u8> for Forward {
    fn on_cue(&mut self, msg: u8) -> ActorResult {
        self.next.cue(msg)
    }
}

struct AddForward {
    x: u8,
    next: Actor<u8>,
}

impl Script<u8> for AddForward {
    fn on_cue(&mut self, msg: u8) -> ActorResult {
        self.x += msg;
        self.next.cue(self.x)
    }
}

struct DoubleForward {
    next: Actor<u8>,
}

impl Script<u8> for DoubleForward {
    fn on_cue(&mut self, msg: u8) -> ActorResult {
        self.next.cue(msg * 2)
    }
}

struct Quit;

impl Script<u8> for Quit {
    fn on_cue(&mut self, _msg: u8) -> ActorResult {
        curtain_call()
    }
}

struct AcceptU8;

impl Script<u8> for AcceptU8 {
    fn on_cue(&mut self, _msg: u8) -> ActorResult {
        Ok(())
    }
}

struct EmitZero {
    next: Actor<u8>,
}

impl LoopScript for EmitZero {
    fn on_iter(&mut self) -> ActorResult {
        self.next.cue(0)
    }
}

struct AcceptBool;

impl Script<bool> for AcceptBool {
    fn on_cue(&mut self, _msg: bool) -> ActorResult {
        Ok(())
    }
}

struct GateForward {
    next: Actor<bool>,
}

impl Script<bool> for GateForward {
    fn on_cue(&mut self, msg: bool) -> ActorResult {
        if msg == false { curtain_call() } else { self.next.cue(msg) }
    }
}

struct EmitTrue {
    next: Actor<bool>,
}

impl LoopScript for EmitTrue {
    fn on_iter(&mut self) -> ActorResult {
        self.next.cue(true)
    }
}

#[test]
fn can_cue() {
    let understudy = Understudy::new();
    let (mut driver, actor) = cast(Forward { next: understudy.stage() });
    assert!(actor.start().is_ok());
    assert!(actor.cue(0).is_ok());
    assert!(actor.cut().is_ok());
    driver.pump();
    drop(driver);
    assert_eq!(understudy.read_all(), vec![0]);
}

#[test]
fn can_be_mutable() {
    let understudy = Understudy::new();
    let (mut driver, actor) = cast_mut(AddForward { x: 1, next: understudy.stage() });
    assert!(actor.start().is_ok());
    assert!(actor.cue(1).is_ok());
    assert!(actor.cue(2).is_ok());
    assert!(actor.cut().is_ok());
    driver.pump();
    drop(driver);
    assert_eq!(understudy.read_all(), vec![2, 4]);
}

#[test]
fn can_cue_all() {
    let understudy = Understudy::new();
    let (mut driver, actor) = cast(DoubleForward { next: understudy.stage() });
    assert!(actor.cue_all(vec![0, 1, 2, 3, 4]).is_ok());
    assert!(actor.cut().is_ok());
    driver.pump();
    drop(driver);
    assert_eq!(understudy.read_all(), vec![0, 2, 4, 6, 8]);
}

#[test]
fn can_curtain_call() {
    let (mut driver, actor) = cast(Quit);
    assert!(actor.start().is_ok());
    assert!(actor.cue(0).is_ok());
    driver.pump();
    assert!(driver.is_finished());
}

#[test]
fn can_from_the_top() {
    let (driver, actor) = cast(AcceptU8);
    let (loop_driver, actor_loop) = cast_loop::<u8, _>(EmitZero { next: actor.stage().unwrap() });
    assert!(from_the_top(vec![&actor, &actor_loop]).is_ok());
    assert!(actor_loop.cut().is_ok());
    drop(driver);
    drop(loop_driver);
}

#[test]
fn propogates_failure_from_other_actors() {
    let (driver1, actor1) = cast(AcceptBool);
    let (driver2, actor2) = cast(GateForward { next: actor1.stage().unwrap() });
    let (loop_driver, actor_loop) = cast_loop::<bool, _>(EmitTrue { next: actor2.stage().unwrap() });
    assert!(from_the_top(vec![&actor1, &actor2, &actor_loop]).is_ok());
    assert!(actor1.cue(false).is_ok());
    drop(driver1);
    drop(driver2);
    drop(loop_driver);
}
