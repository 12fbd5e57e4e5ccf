//! Driving a task to completion on the current fiber.
//!
//! The drive loop polls the task; if the task is not ready it suspends the fiber
//! until the task's waker fires, then polls again. [`Drive`] is that loop, one turn
//! at a time: a turn either yields the task's output, or hands the drive back for
//! another turn, or reports that the fiber was cancelled while suspended. A turn
//! uses the drive up, so a task that has completed cannot be polled again. A fiber
//! runs at most one drive loop at a time, which [`EnterScope`] enforces.
//!
//! A turn can wait for ever and a loop of turns need not end, so what is verified
//! here is the single turn and any bounded run of turns. Repeating a bounded run
//! until it stops handing the drive back is left to the caller. [`block_on`] marks
//! the fiber's scope as left when its own run ends the loop; a caller that goes on
//! with the drive it was handed does so itself, once a later turn has ended it.
//!
//! What a turn returns is decided by the poll and by the suspension, which are
//! calls out of this crate. The two functions that take their results,
//! [`Drive::completed`] and [`Drive::after_suspension`], say exactly what the turn
//! returns for each of them.
//!
//! The contracts speak of the output that a task completes with. That is the
//! task's view, written `task@`: the value that awaiting the task yields. They
//! also speak of the suspensions made so far in a drive, which the parking handle
//! records as it is asked for them.

use crate::park::Parker;
use crate::park::SuspendError;
use crate::waker::wakes;
use may::sync::Blocker;
use std::future::Future;
use std::pin::Pin;
use std::task::Context;
use std::task::Poll;
use std::task::Waker;
use std::time::Duration;
use tokio_executor::park::Park;
use vstd::future::FutureAdditionalSpecFns;
use vstd::prelude::*;

verus! {

/// `std::pin::Pin`, a pointer whose target stays where it is.
#[verifier::external_type_specification]
#[verifier::external_body]
#[verifier::reject_recursive_types(P)]
pub struct ExPin<P>(Pin<P>);

/// A drive loop was entered on a fiber that is already inside one.
#[derive(Clone, Copy, Debug, PartialEq, Eq, Structural)]
pub enum EnterError {
    /// The fiber is already driving a task.
    AlreadyEntered,
}

/// Whether a fiber is inside a drive loop. Each fiber keeps one of these.
#[derive(Clone, Copy, Debug, PartialEq, Eq, Structural)]
pub struct EnterScope {
    entered: bool,
}

impl EnterScope {
    /// Whether the fiber is inside a drive loop.
    pub closed spec fn is_entered(&self) -> bool {
        self.entered
    }

    /// The scope of a fiber that drives nothing.
    pub fn new() -> (scope: EnterScope)
        ensures
            !scope.is_entered(),
    {
        EnterScope { entered: false }
    }

    /// Whether the fiber is inside a drive loop.
    pub fn entered(&self) -> (inside: bool)
        ensures
            inside == self.is_entered(),
    {
        self.entered
    }

    /// Marks the fiber as inside a drive loop. Fails, and changes nothing, if it
    /// already is.
    pub fn enter(&mut self) -> (r: Result<(), EnterError>)
        ensures
            r is Err <==> old(self).is_entered(),
            r is Err ==> r == Err::<(), EnterError>(EnterError::AlreadyEntered),
            final(self).is_entered(),
    {
        if self.entered {
            Err(EnterError::AlreadyEntered)
        } else {
            self.entered = true;
            Ok(())
        }
    }

    /// Marks the fiber as outside any drive loop.
    pub fn exit(&mut self)
        ensures
            !final(self).is_entered(),
    {
        self.entered = false;
    }
}

/// Calls `Box::pin`, which moves the task to the heap and pins it there. The
/// pinned task is the same task: it completes with the output that `task` would
/// have completed with.
#[verifier::external_body]
fn pin_task<F: Future>(task: F) -> (pinned: Pin<Box<F>>)
    ensures
        pinned@ == task@,
{
    Box::pin(task)
}

/// Calls `Future::poll` once and takes the task for the call. The waker is wrapped
/// in a `Context` and the pinned box is reborrowed, which only brings the
/// arguments into the form that `poll` takes. A task that is ready hands out its
/// output, which is the output the task completes with, and is gone. A task that
/// is not ready has arranged for `waker` to be woken when polling it again is
/// worthwhile, and is handed back: it is still the same task. So no task is left
/// to poll once it has completed. A task that panics unwinds through this call.
#[verifier::external_body]
fn poll_task<F: Future>(task: Pin<Box<F>>, waker: &Waker) -> (polled: Result<
    F::Output,
    Pin<Box<F>>,
>)
    ensures
        polled matches Ok(output) ==> output == task@,
        polled matches Err(pending) ==> pending@ == task@,
{
    let mut task = task;
    let mut cx = Context::from_waker(waker);
    match task.as_mut().poll(&mut cx) {
        Poll::Ready(output) => Ok(output),
        Poll::Pending => Err(task),
    }
}

/// A task being driven on the current fiber. The task has not completed: a drive
/// whose task completes is used up by the turn in which it does.
#[verifier::reject_recursive_types(F)]
pub struct Drive<F: Future> {
    task: Pin<Box<F>>,
    park: Parker,
    waker: Waker,
}

/// The outcome of a turn of the drive loop.
#[verifier::reject_recursive_types(F)]
pub enum Turn<F: Future> {
    /// The task completed with this output.
    Done(F::Output),
    /// The task is not ready; the fiber was suspended and has resumed. Here is the
    /// drive for the next turn.
    Again(Drive<F>),
    /// The fiber was cancelled while suspended. The task is given up and the
    /// caller must unwind the fiber.
    Cancelled,
}

/// What the loop does after a suspension.
#[derive(Clone, Copy, Debug, PartialEq, Eq, Structural)]
pub enum Resume {
    /// The fiber resumed: poll the task again.
    PollAgain,
    /// The fiber was cancelled: give the task up and unwind.
    Unwind,
}

/// What the loop does after a suspension that ended with `suspended`.
pub open spec fn resume_after(suspended: Result<(), SuspendError>) -> Resume {
    match suspended {
        Ok(()) => Resume::PollAgain,
        Err(_) => Resume::Unwind,
    }
}

/// Decides how the loop goes on after a suspension.
pub fn resume(suspended: Result<(), SuspendError>) -> (next: Resume)
    ensures
        next == resume_after(suspended),
{
    match suspended {
        Ok(()) => Resume::PollAgain,
        Err(_) => Resume::Unwind,
    }
}

/// `count` suspensions in a row, each with the deadline `deadline`.
pub open spec fn repeated(deadline: Option<Duration>, count: nat) -> Seq<Option<Duration>> {
    Seq::new(count, |i: int| deadline)
}

impl<F: Future> Drive<F> {
    /// The task being driven. Its view is the output that it completes with.
    pub closed spec fn future(&self) -> Pin<Box<F>> {
        self.task
    }

    /// The blocking primitive on which the fiber is suspended between polls.
    pub closed spec fn primitive(&self) -> Blocker {
        self.park.primitive()
    }

    /// The waker that the task is polled with.
    pub closed spec fn waker(&self) -> Waker {
        self.waker
    }

    /// The suspensions of the fiber so far in this drive, oldest first: for each,
    /// the deadline that it was given, or none. Each of them followed a poll that
    /// found the task not ready, so there were as many such polls.
    pub closed spec fn suspensions(&self) -> Seq<Option<Duration>> {
        self.park.deadlines()
    }

    /// The drive is wired up: the waker that its task is polled with wakes the
    /// primitive on which its fiber is suspended, so a wake by the task resumes
    /// the fiber.
    pub open spec fn wired(&self) -> bool {
        wakes(self.waker()) == self.primitive()
    }

    /// `next` is wired as this drive is: it suspends on the same primitive and
    /// polls with the same waker.
    pub open spec fn wired_like(&self, next: Drive<F>) -> bool {
        &&& next.primitive() == self.primitive()
        &&& next.waker() == self.waker()
    }

    /// Prepares to drive `task` on the current fiber: takes a fresh parking handle
    /// for the fiber and makes the waker that the task is polled with from it.
    fn new(task: F) -> (drive: Drive<F>)
        ensures
            drive.future()@ == task@,
            drive.wired(),
            drive.suspensions() == Seq::<Option<Duration>>::empty(),
    {
        let park = Parker::new();
        let waker = park.unpark().into_waker();
        Drive { task: pin_task(task), park, waker }
    }

    /// Enters a drive loop for `task` on the fiber that `scope` belongs to. Fails
    /// with `AlreadyEntered`, leaving the scope as it was, if the fiber is inside a
    /// drive loop already; in that case the task is dropped unpolled and no
    /// parking handle is taken. Otherwise hands out the drive for the task, wired
    /// up, with no poll and no suspension made yet.
    pub fn enter(scope: &mut EnterScope, task: F) -> (r: Result<Drive<F>, EnterError>)
        ensures
            r is Err <==> old(scope).is_entered(),
            final(scope).is_entered(),
            r matches Ok(drive) ==> {
                &&& drive.future()@ == task@
                &&& drive.wired()
                &&& drive.suspensions() == Seq::<Option<Duration>>::empty()
            },
    {
        match scope.enter() {
            Err(e) => Err(e),
            Ok(()) => Ok(Drive::new(task)),
        }
    }

    /// What a turn returns when the poll found the task ready with `output`: the
    /// loop is over and the output is handed out.
    pub fn completed(output: F::Output) -> (turn: Turn<F>)
        ensures
            turn == Turn::<F>::Done(output),
    {
        Turn::Done(output)
    }

    /// What a turn returns when the poll found the task not ready and the
    /// suspension that followed ended with `suspended`. A fiber that resumed gets
    /// this drive back for the next turn. A fiber that was cancelled gets nothing
    /// back: the task is given up and will not be polled again.
    pub fn after_suspension(self, suspended: Result<(), SuspendError>) -> (turn: Turn<F>)
        ensures
            suspended is Ok ==> turn == Turn::Again(self),
            suspended is Err ==> turn == Turn::<F>::Cancelled,
    {
        match resume(suspended) {
            Resume::PollAgain => Turn::Again(self),
            Resume::Unwind => Turn::Cancelled,
        }
    }

    /// One turn of the loop. The task is polled once, with the drive's waker. If
    /// it is ready, the turn is [`Drive::completed`] with its output. If it is
    /// not, the fiber is suspended once on the drive's primitive, until the waker
    /// fires or `deadline` has passed where one is given, and the turn is
    /// [`Drive::after_suspension`] with the drive and the result of that
    /// suspension.
    ///
    /// So an output handed out is the task's own, and a drive handed back carries
    /// this one on: same task, same primitive, same waker, one more suspension.
    /// Which of the three outcomes it is rests with the task and with whoever
    /// wakes or cancels the fiber.
    pub fn turn(self, deadline: Option<Duration>) -> (turn: Turn<F>)
        ensures
            turn matches Turn::Done(output) ==> output == self.future()@,
            turn matches Turn::Again(drive) ==> {
                &&& drive.future()@ == self.future()@
                &&& self.wired_like(drive)
                &&& drive.suspensions() == self.suspensions().push(deadline)
            },
    {
        let Drive { task, mut park, waker } = self;
        match poll_task(task, &waker) {
            Ok(output) => Drive::completed(output),
            Err(task) => {
                let suspended = park.suspend(deadline);
                Drive { task, park, waker }.after_suspension(suspended)
            },
        }
    }

    /// Takes turns until one of them ends the loop, but at most `budget` of them.
    /// Returns what the last turn returned, and the drive untouched if the budget
    /// is nothing. A drive that is handed back has used the whole budget: each of
    /// the `budget` turns polled the task, found it not ready and suspended the
    /// fiber.
    pub fn run(self, budget: u64, deadline: Option<Duration>) -> (turn: Turn<F>)
        ensures
            turn matches Turn::Done(output) ==> output == self.future()@,
            turn matches Turn::Again(drive) ==> {
                &&& drive.future()@ == self.future()@
                &&& self.wired_like(drive)
                &&& drive.suspensions() == self.suspensions() + repeated(deadline, budget as nat)
            },
            budget == 0 ==> turn == Turn::Again(self),
    {
        let mut drive = self;
        let mut left: u64 = budget;
        while left > 0
            invariant
                left <= budget,
                drive.future()@ == self.future()@,
                self.wired_like(drive),
                drive.suspensions() == self.suspensions() + repeated(
                    deadline,
                    (budget - left) as nat,
                ),
                left == budget ==> drive == self,
            decreases left,
        {
            let ghost taken = (budget - left) as nat;
            match drive.turn(deadline) {
                Turn::Again(next) => {
                    assert(repeated(deadline, taken).push(deadline) == repeated(
                        deadline,
                        taken + 1,
                    ));
                    drive = next;
                },
                Turn::Done(output) => {
                    return Turn::Done(output);
                },
                Turn::Cancelled => {
                    return Turn::Cancelled;
                },
            }
            left = left - 1;
        }
        Turn::Again(drive)
    }

    /// Leaves the drive loop before the task has completed: gives the task up and
    /// marks the fiber as outside any drive loop.
    pub fn leave(self, scope: &mut EnterScope)
        ensures
            !final(scope).is_entered(),
    {
        scope.exit();
    }
}

/// Blocks the fiber that `scope` belongs to on `task`, for at most `budget` turns
/// of the drive loop.
///
/// Fails with `AlreadyEntered` if the fiber is inside a drive loop already: the
/// scope stays as it was, the task is dropped unpolled and the fiber is not
/// suspended. Otherwise the loop is entered and run as [`Drive::run`] runs it,
/// without a deadline. If the task completes within the budget, its value is
/// handed out; if the fiber is cancelled while suspended, that is. In both cases
/// the loop is over and the fiber is marked as outside it. If the budget is used
/// up, the drive is handed out to go on with, and the fiber stays inside the loop.
pub fn block_on<F: Future>(scope: &mut EnterScope, task: F, budget: u64) -> (r: Result<
    Turn<F>,
    EnterError,
>)
    ensures
        r is Err <==> old(scope).is_entered(),
        r is Err ==> final(scope).is_entered(),
        r matches Ok(turn) ==> (final(scope).is_entered() <==> turn is Again),
        r matches Ok(Turn::Done(output)) ==> output == task@,
        r matches Ok(Turn::Again(drive)) ==> {
            &&& drive.future()@ == task@
            &&& drive.wired()
            &&& drive.suspensions() == repeated(None, budget as nat)
        },
        budget == 0 && !old(scope).is_entered() ==> r matches Ok(Turn::Again(_)),
{
    match Drive::enter(scope, task) {
        Err(e) => Err(e),
        Ok(drive) => {
            let turn = drive.run(budget, None);
            match turn {
                Turn::Again(next) => Ok(Turn::Again(next)),
                Turn::Done(output) => {
                    scope.exit();
                    Ok(Turn::Done(output))
                },
                Turn::Cancelled => {
                    scope.exit();
                    Ok(Turn::Cancelled)
                },
            }
        },
    }
}

} // verus!
