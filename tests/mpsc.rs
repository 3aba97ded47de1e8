use coro_sync::mpsc::{channel, RecvError, TryRecvError};
use coro_sync::wait_list::CoroutineId;

fn co(id: u64) -> CoroutineId {
    CoroutineId { id }
}

#[test]
fn test_channel_basic() {
    let (tx, rx, mut chan) = channel();
    tx.send(&mut chan, 1).ok().unwrap();
    tx.close(&mut chan);
    assert_eq!(1, rx.recv(&mut chan, Some(co(0))).ok().unwrap().unwrap());
}

#[test]
fn single_sender_values_arrive_in_send_order() {
    let (tx, rx, mut chan) = channel();
    for v in 0..20 {
        assert!(tx.send(&mut chan, v).is_ok());
    }
    assert_eq!(chan.len(), 20);
    for v in 0..20 {
        assert_eq!(rx.try_recv(&mut chan).ok(), Some(v));
    }
    assert_eq!(rx.try_recv(&mut chan).err(), Some(TryRecvError::Empty));
}

#[test]
fn try_recv_on_empty_channel_reports_empty() {
    let (_tx, rx, mut chan) = channel::<u8>();
    assert_eq!(rx.try_recv(&mut chan).err(), Some(TryRecvError::Empty));
    assert_eq!(chan.len(), 0);
}

#[test]
fn recv_after_all_senders_closed_is_disconnected_without_parking() {
    let (tx, rx, mut chan) = channel::<u8>();
    let tx2 = tx.clone_handle(&mut chan);
    tx.close(&mut chan);
    assert_eq!(rx.try_recv(&mut chan).err(), Some(TryRecvError::Empty));
    tx2.close(&mut chan);
    assert_eq!(rx.try_recv(&mut chan).err(), Some(TryRecvError::Disconnected));
    assert_eq!(rx.recv(&mut chan, Some(co(3))).err(), Some(RecvError));
    assert_eq!(chan.waiting(), 0);
    assert_eq!(chan.senders(), 0);
}

#[test]
fn queued_values_outlive_the_senders() {
    let (tx, rx, mut chan) = channel();
    tx.send(&mut chan, 'a').ok().unwrap();
    tx.close(&mut chan);
    assert_eq!(rx.recv(&mut chan, None).ok(), Some(Some('a')));
    assert_eq!(rx.recv(&mut chan, None).err(), Some(RecvError));
}

#[test]
fn empty_recv_parks_and_send_wakes_the_receiver() {
    let (tx, rx, mut chan) = channel();
    assert_eq!(rx.recv(&mut chan, Some(co(9))).ok(), Some(None));
    assert_eq!(chan.waiting(), 1);
    assert_eq!(tx.send(&mut chan, 5u32).ok(), Some(Some(co(9))));
    assert_eq!(rx.recv(&mut chan, Some(co(9))).ok(), Some(Some(5)));
    // The wake was spent: the next send wakes nobody.
    assert_eq!(tx.send(&mut chan, 6u32).ok(), Some(None));
}

#[test]
fn send_after_receiver_closed_returns_the_value() {
    let (tx, rx, mut chan) = channel();
    rx.close(&mut chan);
    match tx.send(&mut chan, String::from("lost?")) {
        Err(e) => assert_eq!(e.0, "lost?"),
        Ok(_) => panic!("send to a closed receiver succeeded"),
    }
    assert_eq!(chan.len(), 0);
}

#[test]
fn cloned_senders_lose_and_duplicate_nothing() {
    let (tx, rx, mut chan) = channel();
    let mut senders = Vec::new();
    for _ in 0..8 {
        senders.push(tx.clone_handle(&mut chan));
    }
    tx.close(&mut chan);
    for (i, s) in senders.iter().enumerate().rev() {
        s.send(&mut chan, i * 10).ok().unwrap();
    }
    for s in senders {
        s.close(&mut chan);
    }
    let mut got = Vec::new();
    loop {
        match rx.try_recv(&mut chan) {
            Ok(v) => got.push(v),
            Err(e) => {
                assert_eq!(e, TryRecvError::Disconnected);
                break;
            }
        }
    }
    got.sort();
    assert_eq!(got, (0..8).map(|i| i * 10).collect::<Vec<_>>());
}
