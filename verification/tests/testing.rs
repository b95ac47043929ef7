use chekhov::types::Actionable;
use chekhov::types::Actor;
use chekhov::types::ActorThread;
use chekhov::types::Cueable;
use chekhov::types::ProspectiveActor;
use chekhov::types::testing::Understudy;

struct Fount5 {
    next: Actor<u8>,
}

impl ActorThread<u8> for Fount5 {
    fn go(self) {
        for i in 1..5 {
            if self.next.cue(i).is_err() {
                return;
            }
        }
    }
}

#[test]
fn it_collects_messages_sent_to_it() {
    let next = Understudy::new();
    let (tx, _rx) = std::sync::mpsc::channel();
    let fount = ProspectiveActor::new(Fount5 { next: next.stage() }, tx);
    fount.action();
    assert_eq!(next.read_all(), vec![1, 2, 3, 4]);
}

#[test]
fn it_can_be_cued_directly() {
    let understudy: Understudy<u8> = Understudy::new();
    assert!(understudy.cue(0).is_ok());
    assert_eq!(understudy.read_all(), vec![0]);
}

#[test]
fn it_reads_without_blocking_and_stays_usable() {
    let mut understudy: Understudy<u8> = Understudy::new();
    let handle = understudy.stage();
    assert!(handle.cue(7).is_ok());
    assert!(handle.cue(8).is_ok());
    assert_eq!(understudy.read(), vec![7, 8]);
    assert_eq!(understudy.read(), Vec::<u8>::new());
    assert!(handle.cue(9).is_ok());
    assert_eq!(understudy.read(), vec![9]);
}

#[test]
fn prospective_actor_buffers_until_run() {
    let sink = Understudy::new();
    let (tx, rx) = std::sync::mpsc::channel::<u8>();
    let body = Drain { own: rx, out: sink.stage() };
    let prospective = ProspectiveActor::new(body, tx);
    assert!(prospective.cue(11).is_ok());
    assert!(prospective.stage().cue(12).is_ok());
    prospective.action();
    assert_eq!(sink.read_all(), vec![11, 12]);
}

struct Drain {
    own: std::sync::mpsc::Receiver<u8>,
    out: Actor<u8>,
}

impl ActorThread<u8> for Drain {
    fn go(self) {
        while let Ok(msg) = self.own.try_recv() {
            if self.out.cue(msg).is_err() {
                return;
            }
        }
    }
}
