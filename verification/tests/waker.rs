use may_future::park::Parker;
use may_future::waker::{WakerOp, WakeCount};
use std::sync::Arc;
use std::task::Waker;
use std::time::{Duration, Instant};
use tokio_executor::park::Park;

#[test]
fn waker_wakes_the_parker_it_was_made_from() {
    let mut parker = Parker::new();
    let waker = parker.unpark().into_waker();
    waker.wake_by_ref();
    let started = Instant::now();
    assert_eq!(parker.park(), Ok(()));
    assert!(started.elapsed() < Duration::from_secs(5));
    waker.wake();
    assert_eq!(parker.park(), Ok(()));
}

#[test]
fn cloned_waker_wakes_the_same_parker() {
    let mut parker = Parker::new();
    let waker = parker.unpark().into_waker();
    let clone = waker.clone();
    drop(waker);
    clone.wake();
    assert_eq!(parker.park(), Ok(()));
}

#[test]
fn fresh_count_holds_one_reference() {
    let count = WakeCount::new();
    assert_eq!(count.live(), 1);
    assert!(!count.released());
}

#[test]
fn clone_adds_one_and_drop_gives_one_up() {
    let mut count = WakeCount::new();
    assert!(count.apply(WakerOp::Clone));
    assert_eq!(count.live(), 2);
    assert!(count.apply(WakerOp::Clone));
    assert_eq!(count.live(), 3);
    assert!(count.apply(WakerOp::Drop));
    assert_eq!(count.live(), 2);
}

#[test]
fn wake_by_reference_keeps_the_count_and_wake_by_value_gives_one_up() {
    let mut count = WakeCount::new();
    assert!(count.apply(WakerOp::Clone));
    assert!(count.apply(WakerOp::WakeByRef));
    assert_eq!(count.live(), 2);
    assert!(count.apply(WakerOp::Wake));
    assert_eq!(count.live(), 1);
}

#[test]
fn last_drop_releases_and_nothing_is_accepted_afterwards() {
    let mut count = WakeCount::new();
    assert!(count.apply(WakerOp::Clone));
    assert!(count.apply(WakerOp::Drop));
    assert!(!count.released());
    assert!(count.apply(WakerOp::Drop));
    assert!(count.released());
    assert_eq!(count.live(), 0);
    for op in [WakerOp::Clone, WakerOp::Wake, WakerOp::WakeByRef, WakerOp::Drop] {
        assert!(!count.apply(op));
        assert_eq!(count.live(), 0);
    }
}

#[test]
fn increments_equal_decrements_when_every_waker_is_gone() {
    let ops = [
        WakerOp::Clone,
        WakerOp::Clone,
        WakerOp::WakeByRef,
        WakerOp::Drop,
        WakerOp::Clone,
        WakerOp::Wake,
        WakerOp::Drop,
        WakerOp::WakeByRef,
        WakerOp::Drop,
    ];
    let mut count = WakeCount::new();
    let mut increments = 1;
    let mut decrements = 0;
    for op in ops {
        assert!(count.apply(op));
        match op {
            WakerOp::Clone => increments += 1,
            WakerOp::Wake | WakerOp::Drop => decrements += 1,
            WakerOp::WakeByRef => {}
        }
        assert_eq!(count.live(), increments - decrements);
    }
    assert!(count.released());
    assert_eq!(increments, decrements);
}

#[test]
fn bridged_handle_keeps_to_the_count() {
    let mut parker = Parker::new();
    let handle = Arc::new(parker.unpark());
    // The test keeps one reference of its own to look at the count.
    let probe = Arc::clone(&handle);
    let waker = Waker::from(handle);
    let mut count = WakeCount::new();
    assert_eq!(Arc::strong_count(&probe), count.live() + 1);

    let second = waker.clone();
    assert!(count.apply(WakerOp::Clone));
    assert_eq!(Arc::strong_count(&probe), count.live() + 1);

    let third = second.clone();
    assert!(count.apply(WakerOp::Clone));
    assert_eq!(Arc::strong_count(&probe), count.live() + 1);

    third.wake_by_ref();
    assert!(count.apply(WakerOp::WakeByRef));
    assert_eq!(Arc::strong_count(&probe), count.live() + 1);
    assert_eq!(parker.park(), Ok(()));

    third.wake();
    assert!(count.apply(WakerOp::Wake));
    assert_eq!(Arc::strong_count(&probe), count.live() + 1);
    assert_eq!(parker.park(), Ok(()));

    drop(waker);
    assert!(count.apply(WakerOp::Drop));
    assert_eq!(Arc::strong_count(&probe), count.live() + 1);

    drop(second);
    assert!(count.apply(WakerOp::Drop));
    assert!(count.released());
    assert_eq!(Arc::strong_count(&probe), 1);
}
