//! Parking a fiber and waking it again.
//!
//! A [`Parker`] owns the right to suspend on one blocking primitive. Any number of
//! [`Unparker`]s may refer to the same primitive and wake whoever is suspended on
//! it. A wake that arrives before the suspension is remembered by the primitive, so
//! the next suspension returns at once.

use may::coroutine::ParkError;
use may::sync::Blocker;
use std::sync::Arc;
use std::time::Duration;
use tokio_executor::park::Park;
use tokio_executor::park::Unpark;
use vstd::prelude::*;

verus! {

/// `may::sync::Blocker`, the fiber scheduler's blocking primitive. Verus sees
/// nothing inside it: it is carried around and handed back to the scheduler.
#[verifier::external_type_specification]
#[verifier::external_body]
pub struct ExBlocker(Blocker);

/// How a suspension ended.
#[derive(Clone, Copy, Debug, PartialEq, Eq, Structural)]
pub enum Parked {
    /// A wake handle released the fiber, or a wake was already pending.
    Woken,
    /// The deadline passed before any wake arrived.
    TimedOut,
    /// The fiber was cancelled while it was suspended.
    Cancelled,
}

/// The fiber was cancelled while it was suspended. This is fatal for the fiber:
/// whoever receives it must unwind, not carry on with a partial result.
#[derive(Clone, Copy, Debug, PartialEq, Eq, Structural)]
pub struct SuspendError;

/// What a suspension reports to its caller: being woken and running into the
/// deadline both resume the fiber normally, cancellation is an error.
pub open spec fn suspend_outcome(parked: Parked) -> Result<(), SuspendError> {
    match parked {
        Parked::Woken => Ok(()),
        Parked::TimedOut => Ok(()),
        Parked::Cancelled => Err(SuspendError),
    }
}

/// Turns the way a suspension ended into what the suspending call returns.
pub fn suspend_result(parked: Parked) -> (r: Result<(), SuspendError>)
    ensures
        r == suspend_outcome(parked),
{
    match parked {
        Parked::Woken => Ok(()),
        Parked::TimedOut => Ok(()),
        Parked::Cancelled => Err(SuspendError),
    }
}

/// Calls `Blocker::new`, which creates a blocking primitive for the caller: one
/// that suspends the calling fiber, or the calling thread outside any fiber. With
/// `ignore_cancel` set, a suspension on it does not unwind a fiber that is
/// cancelled: it returns and reports the cancellation. Nothing is claimed of the
/// primitive.
#[verifier::external_body]
fn blocker_new(ignore_cancel: bool) -> (blocker: Blocker) {
    Blocker::new(ignore_cancel)
}

/// Calls `Blocker::park`, which blocks the caller until the primitive is woken or
/// the timeout passes, and consumes a pending wake if there is one. The three ways
/// in which the call returns are told apart and nothing more is claimed: which of
/// them happens is decided by other fibers and by the clock. On a primitive that
/// was not made to ignore cancellation the scheduler unwinds a cancelled fiber
/// from inside this call, which then does not return.
#[verifier::external_body]
fn blocker_park(blocker: &Blocker, timeout: Option<Duration>) -> (parked: Parked) {
    match blocker.park(timeout) {
        Ok(()) => Parked::Woken,
        Err(ParkError::Timeout) => Parked::TimedOut,
        Err(ParkError::Canceled) => Parked::Cancelled,
    }
}

/// Calls `Blocker::unpark`, which marks the primitive as woken and resumes the
/// fiber suspended on it, if there is one. The effect is on state shared between
/// fibers, of which no contract here speaks.
#[verifier::external_body]
fn blocker_unpark(blocker: &Blocker) {
    blocker.unpark()
}

/// Suspends the current fiber on its blocking primitive, and keeps the record of
/// the suspensions that were asked of it.
pub struct Parker {
    blocker: Arc<Blocker>,
    deadlines: Ghost<Seq<Option<Duration>>>,
}

/// Wakes the fiber that is suspended on a [`Parker`].
#[derive(Debug)]
pub struct Unparker {
    inner: Arc<Blocker>,
}

impl Parker {
    /// The blocking primitive that this handle suspends on.
    pub closed spec fn primitive(&self) -> Blocker {
        *self.blocker
    }

    /// The suspensions asked of this handle so far, oldest first: for each, the
    /// deadline that it was given, or none.
    pub closed spec fn deadlines(&self) -> Seq<Option<Duration>> {
        self.deadlines@
    }

    /// Creates a parking handle for the current fiber, of which no suspension has
    /// been asked yet. Its primitive reports a cancellation of the fiber as the
    /// error of the suspension. Never fails.
    pub fn new() -> (parker: Parker)
        ensures
            parker.deadlines() == Seq::<Option<Duration>>::empty(),
    {
        Parker { blocker: Arc::new(blocker_new(true)), deadlines: Ghost(Seq::empty()) }
    }

    /// Suspends the fiber until it is woken, or at most until `deadline` has
    /// passed where one is given. Returns at once if a wake is already pending.
    /// Fails only if the fiber was cancelled meanwhile. The suspension is on this
    /// handle's primitive, with the deadline as given, and is added to the record.
    pub fn suspend(&mut self, deadline: Option<Duration>) -> (r: Result<(), SuspendError>)
        ensures
            final(self).primitive() == old(self).primitive(),
            final(self).deadlines() == old(self).deadlines().push(deadline),
    {
        self.deadlines = Ghost(self.deadlines@.push(deadline));
        suspend_result(blocker_park(&self.blocker, deadline))
    }
}

impl Clone for Unparker {
    /// Another handle to the same primitive.
    fn clone(&self) -> (unparker: Unparker)
        ensures
            unparker.primitive() == self.primitive(),
    {
        Unparker { inner: self.inner.clone() }
    }
}

impl Unparker {
    /// The blocking primitive that this handle wakes.
    pub closed spec fn primitive(&self) -> Blocker {
        *self.inner
    }
}

impl Park for Parker {
    type Unpark = Unparker;

    type Error = SuspendError;

    /// Produces a wake handle for this parking handle. It may be moved to another
    /// thread or task; every handle produced refers to the same primitive.
    fn unpark(&self) -> (unparker: Unparker)
        ensures
            unparker.primitive() == self.primitive(),
    {
        Unparker { inner: self.blocker.clone() }
    }

    /// Suspends the fiber until it is woken: a suspension without a deadline.
    fn park(&mut self) -> (r: Result<(), SuspendError>)
        ensures
            final(self).primitive() == old(self).primitive(),
            final(self).deadlines() == old(self).deadlines().push(None),
    {
        self.suspend(None)
    }

    /// Suspends the fiber until it is woken or `duration` has passed: a
    /// suspension with `duration` as its deadline.
    fn park_timeout(&mut self, duration: Duration) -> (r: Result<(), SuspendError>)
        ensures
            final(self).primitive() == old(self).primitive(),
            final(self).deadlines() == old(self).deadlines().push(Some(duration)),
    {
        self.suspend(Some(duration))
    }
}

impl Unpark for Unparker {
    /// Wakes the fiber suspended on the primitive. If none is suspended, the wake
    /// stays pending and the next suspension returns at once; further wakes before
    /// that suspension add nothing.
    fn unpark(&self) {
        blocker_unpark(&self.inner)
    }
}

} // verus!
