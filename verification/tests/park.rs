use may_future::park::{suspend_result, Parked, Parker, SuspendError};
use std::time::{Duration, Instant};
use tokio_executor::park::{Park, Unpark};

#[test]
fn wake_before_suspend_is_not_lost() {
    let mut parker = Parker::new();
    let unparker = parker.unpark();
    unparker.unpark();
    let started = Instant::now();
    assert_eq!(parker.park(), Ok(()));
    assert!(started.elapsed() < Duration::from_secs(5));
}

#[test]
fn wakes_before_a_suspension_collapse_into_one() {
    let mut parker = Parker::new();
    let unparker = parker.unpark();
    unparker.unpark();
    unparker.unpark();
    unparker.unpark();
    assert_eq!(parker.park(), Ok(()));
    // The pending wake is used up: the next suspension waits for its deadline.
    let started = Instant::now();
    assert_eq!(parker.park_timeout(Duration::from_millis(50)), Ok(()));
    assert!(started.elapsed() >= Duration::from_millis(40));
}

#[test]
fn every_wake_handle_wakes_the_same_parker() {
    let mut parker = Parker::new();
    let first = parker.unpark();
    let second = parker.unpark();
    let third = second.clone();
    first.unpark();
    assert_eq!(parker.park(), Ok(()));
    second.unpark();
    assert_eq!(parker.park(), Ok(()));
    third.unpark();
    assert_eq!(parker.park(), Ok(()));
}

#[test]
fn suspension_with_deadline_returns_when_it_passes() {
    let mut parker = Parker::new();
    let started = Instant::now();
    assert_eq!(parker.suspend(Some(Duration::from_millis(30))), Ok(()));
    assert!(started.elapsed() >= Duration::from_millis(20));
}

#[test]
fn cancelled_suspension_is_an_error() {
    assert_eq!(suspend_result(Parked::Cancelled), Err(SuspendError));
}

#[test]
fn woken_and_timed_out_suspensions_resume() {
    assert_eq!(suspend_result(Parked::Woken), Ok(()));
    assert_eq!(suspend_result(Parked::TimedOut), Ok(()));
}

fn park_through_the_trait<P: Park>(park: &mut P) -> bool {
    let unpark = park.unpark();
    unpark.unpark();
    park.park().is_ok()
}

#[test]
fn parker_serves_as_a_park_implementation() {
    let mut parker = Parker::new();
    assert!(park_through_the_trait(&mut parker));
}
