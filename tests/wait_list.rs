use coro_sync::wait_list::{CoroutineId, WaitList};

fn co(id: u64) -> CoroutineId {
    CoroutineId { id }
}

#[test]
fn parked_coroutines_are_released_in_park_order() {
    let mut q = WaitList::new();
    for i in 0..10u64 {
        q.push(Some(co(i)));
    }
    assert_eq!(q.len(), 10);
    for i in 0..10u64 {
        assert_eq!(q.wake(), Some(co(i)));
    }
    assert!(q.is_empty());
}

#[test]
fn wake_on_empty_queue_is_a_no_op() {
    let mut q = WaitList::new();
    assert_eq!(q.wake(), None);
    assert_eq!(q.wake(), None);
    assert!(q.is_empty());
}

#[test]
fn park_without_current_coroutine_is_a_no_op() {
    let mut q = WaitList::new();
    q.push(None);
    assert_eq!(q.len(), 0);
    q.push(Some(co(7)));
    q.push(None);
    assert_eq!(q.len(), 1);
    assert_eq!(q.wake(), Some(co(7)));
}

#[test]
fn parks_between_wakes_do_not_overtake_earlier_waiters() {
    let mut q = WaitList::new();
    q.push(Some(co(1)));
    q.push(Some(co(2)));
    assert_eq!(q.wake(), Some(co(1)));
    q.push(Some(co(3)));
    q.push(Some(co(4)));
    assert_eq!(q.wake(), Some(co(2)));
    assert_eq!(q.wake(), Some(co(3)));
    q.push(Some(co(5)));
    assert_eq!(q.wake(), Some(co(4)));
    assert_eq!(q.wake(), Some(co(5)));
    assert_eq!(q.wake(), None);
}
