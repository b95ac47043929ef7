use chekhov::Actor;
use chekhov::ReadError;
use chekhov::Understudy;

fn fountain_5(next: Actor<u8>) {
    for i in 0..5 {
        next.cue(i).ok();
    }
}

#[test]
fn collects_messages_sent_to_it() {
    let understudy = Understudy::new();
    fountain_5(understudy.stage());
    assert_eq!(understudy.read_all(), vec![0, 1, 2, 3, 4]);
}

#[test]
fn can_be_cast_to_a_receiver() {
    let _: std::sync::mpsc::Receiver<i32> = Understudy::new().into_receiver();
}

#[test]
fn reads_one_payload_at_a_time() {
    let understudy: Understudy<u8> = Understudy::new();
    assert_eq!(understudy.try_recv(), Err(ReadError::Empty));
    let handle = understudy.stage();
    assert!(handle.cue(3).is_ok());
    assert!(handle.cue(4).is_ok());
    assert_eq!(understudy.try_recv(), Ok(3));
    assert_eq!(understudy.recv(), Ok(4));
    assert_eq!(understudy.try_recv(), Err(ReadError::Empty));
}

#[test]
fn staged_handles_reach_the_same_mailbox() {
    let understudy: Understudy<u8> = Understudy::new();
    let one = understudy.stage();
    let two = one.stage().unwrap();
    assert!(one.cue(1).is_ok());
    assert!(two.cue(2).is_ok());
    drop(one);
    drop(two);
    assert_eq!(understudy.read_all(), vec![1, 2]);
}
