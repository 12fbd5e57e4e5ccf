//! The life cycle of the runtime.
//!
//! A runtime owns a pool that runs tasks and the services those tasks rely on.
//! [`Runtime`] is the part of it that decides: whether a task is admitted, what a
//! caller that wants to drive a task on its own thread has to do first, and when a
//! shutdown is complete. It moves through three phases, running, shutting down and
//! stopped, and never back. The pool itself is driven by whoever owns it: that
//! caller submits a task when one was admitted here, tells the runtime when a
//! task has finished, and asks the runtime whether a shutdown has completed.

use crate::ambient::Ambient;
use crate::ambient::AmbientEvent;
use crate::ambient::Claim;
use crate::ambient::next_state;
use crate::ambient::answer;
use crate::cell::CellReader;
use crate::cell::CellWriter;
use crate::cell::result_cell;
use vstd::prelude::*;

verus! {

/// How a runtime is shut down.
#[derive(Clone, Copy, Debug, PartialEq, Eq, Structural)]
pub enum ShutdownMode {
    /// The tasks that were admitted are left to finish.
    OnIdle,
    /// The tasks that have not finished are dropped.
    Now,
}

/// Where a runtime is in its life.
#[derive(Clone, Copy, Debug, PartialEq, Eq, Structural)]
pub enum Phase {
    /// Tasks are admitted and run.
    Running,
    /// A shutdown was asked for and has not completed.
    ShuttingDown(ShutdownMode),
    /// The shutdown has completed and the resources are released.
    Stopped,
}

/// Why the runtime turned a caller away.
#[derive(Clone, Copy, Debug, PartialEq, Eq, Structural)]
pub enum RuntimeError {
    /// The pool runs as many tasks as it can hold.
    PoolAtCapacity,
    /// The runtime is shutting down or has stopped.
    PoolStopped,
    /// The thread's ambient services fiber could not be started.
    AmbientServicesUnavailable,
}

/// What a caller that wants to drive a task on its own thread does next.
#[derive(Clone, Copy, Debug, PartialEq, Eq, Structural)]
pub enum LocalStep {
    /// Start the thread's ambient services fiber, report the result, ask again.
    StartAmbient,
    /// Another fiber is starting the ambient services: yield and ask again.
    Wait,
    /// The ambient services are installed: drive the task.
    Drive,
}

/// Whether a runtime in phase `phase`, with `in_flight` of at most `capacity`
/// tasks under way, admits one more.
pub open spec fn admission(phase: Phase, in_flight: nat, capacity: nat) -> Result<
    (),
    RuntimeError,
> {
    if !(phase is Running) {
        Err(RuntimeError::PoolStopped)
    } else if in_flight >= capacity {
        Err(RuntimeError::PoolAtCapacity)
    } else {
        Ok(())
    }
}

/// What a caller that wants to drive a task on its own thread is told, for a
/// runtime in phase `phase` and a thread whose ambient services have been claimed
/// with the answer `claim`.
pub open spec fn local_step(phase: Phase, claim: Claim) -> Result<LocalStep, RuntimeError> {
    if !(phase is Running) {
        Err(RuntimeError::PoolStopped)
    } else {
        match claim {
            Claim::Start => Ok(LocalStep::StartAmbient),
            Claim::Wait => Ok(LocalStep::Wait),
            Claim::Proceed => Ok(LocalStep::Drive),
            Claim::Unavailable => Err(RuntimeError::AmbientServicesUnavailable),
        }
    }
}

/// The decisions of a runtime, and the account of its tasks that they rest on.
pub struct Runtime {
    phase: Phase,
    capacity: usize,
    in_flight: usize,
    spawned: Ghost<nat>,
    finished: Ghost<nat>,
    dropped: Ghost<nat>,
}

impl Runtime {
    /// The phase the runtime is in.
    pub closed spec fn phase_of(&self) -> Phase {
        self.phase
    }

    /// The number of tasks that the pool holds at most.
    pub closed spec fn capacity_of(&self) -> nat {
        self.capacity as nat
    }

    /// The tasks that were admitted and have neither finished nor been dropped.
    pub closed spec fn tasks_in_flight(&self) -> nat {
        self.in_flight as nat
    }

    /// The tasks admitted so far.
    pub closed spec fn tasks_spawned(&self) -> nat {
        self.spawned@
    }

    /// The tasks that have run to completion.
    pub closed spec fn tasks_finished(&self) -> nat {
        self.finished@
    }

    /// The tasks that a shutdown dropped before they completed.
    pub closed spec fn tasks_dropped(&self) -> nat {
        self.dropped@
    }

    /// The account adds up, and it fits the phase: every task admitted has
    /// finished, was dropped or is in flight; no more are in flight than the pool
    /// holds; none is in flight once an immediate shutdown has begun or any
    /// shutdown has completed; and none was dropped unless an immediate shutdown
    /// was asked for.
    #[verifier::type_invariant]
    pub closed spec fn wf(&self) -> bool {
        &&& self.spawned@ == self.finished@ + self.dropped@ + self.in_flight
        &&& self.in_flight <= self.capacity
        &&& self.phase is Stopped ==> self.in_flight == 0
        &&& self.phase == Phase::ShuttingDown(ShutdownMode::Now) ==> self.in_flight == 0
        &&& self.phase is Running ==> self.dropped@ == 0
        &&& self.phase == Phase::ShuttingDown(ShutdownMode::OnIdle) ==> self.dropped@ == 0
    }

    /// Whether a shutdown that was asked for is complete: an immediate one always
    /// is; one on idle is as soon as no task is in flight.
    pub open spec fn shutdown_done(&self) -> bool {
        match self.phase_of() {
            Phase::Running => false,
            Phase::ShuttingDown(ShutdownMode::OnIdle) => self.tasks_in_flight() == 0,
            Phase::ShuttingDown(ShutdownMode::Now) => true,
            Phase::Stopped => true,
        }
    }

    /// A running runtime whose pool holds as many tasks as can be counted.
    pub fn new() -> (runtime: Runtime)
        ensures
            runtime.phase_of() is Running,
            runtime.capacity_of() == usize::MAX,
            runtime.tasks_in_flight() == 0,
            runtime.tasks_spawned() == 0,
            runtime.tasks_finished() == 0,
            runtime.tasks_dropped() == 0,
    {
        Runtime::with_capacity(usize::MAX)
    }

    /// A running runtime whose pool holds at most `capacity` tasks at a time.
    pub fn with_capacity(capacity: usize) -> (runtime: Runtime)
        ensures
            runtime.phase_of() is Running,
            runtime.capacity_of() == capacity,
            runtime.tasks_in_flight() == 0,
            runtime.tasks_spawned() == 0,
            runtime.tasks_finished() == 0,
            runtime.tasks_dropped() == 0,
    {
        Runtime {
            phase: Phase::Running,
            capacity,
            in_flight: 0,
            spawned: Ghost(0),
            finished: Ghost(0),
            dropped: Ghost(0),
        }
    }

    /// The phase the runtime is in.
    pub fn phase(&self) -> (phase: Phase)
        ensures
            phase == self.phase_of(),
    {
        self.phase
    }

    /// The number of tasks in flight.
    pub fn in_flight(&self) -> (n: usize)
        ensures
            n == self.tasks_in_flight(),
    {
        self.in_flight
    }

    /// Admits one task to the pool, or says why not. A running runtime with room
    /// admits it and counts it as in flight; the caller then submits the task. A
    /// runtime that is full or no longer running turns it away and stays as it is.
    pub fn spawn(&mut self) -> (r: Result<(), RuntimeError>)
        ensures
            r == admission(
                old(self).phase_of(),
                old(self).tasks_in_flight(),
                old(self).capacity_of(),
            ),
            r is Err ==> *final(self) == *old(self),
            r is Ok ==> {
                &&& final(self).phase_of() == old(self).phase_of()
                &&& final(self).capacity_of() == old(self).capacity_of()
                &&& final(self).tasks_in_flight() == old(self).tasks_in_flight() + 1
                &&& final(self).tasks_spawned() == old(self).tasks_spawned() + 1
                &&& final(self).tasks_finished() == old(self).tasks_finished()
                &&& final(self).tasks_dropped() == old(self).tasks_dropped()
            },
    {
        proof {
            use_type_invariant(&*self);
        }
        match self.phase {
            Phase::Running => {
                if self.in_flight >= self.capacity {
                    Err(RuntimeError::PoolAtCapacity)
                } else {
                    *self = Runtime {
                        phase: self.phase,
                        capacity: self.capacity,
                        in_flight: self.in_flight + 1,
                        spawned: Ghost(self.spawned@ + 1),
                        finished: self.finished,
                        dropped: self.dropped,
                    };
                    Ok(())
                }
            },
            _ => Err(RuntimeError::PoolStopped),
        }
    }

    /// Admits the task that a fiber wants to block on, and makes the cell through
    /// which the task's output comes back. The caller submits the task together
    /// with the writer, so that the task delivers its output on completion, and
    /// waits on the reader. A task is admitted or turned away exactly as by
    /// [`Runtime::spawn`].
    pub fn block_on<T>(&mut self) -> (r: Result<(CellWriter<T>, CellReader<T>), RuntimeError>)
        ensures
            r is Ok <==> admission(
                old(self).phase_of(),
                old(self).tasks_in_flight(),
                old(self).capacity_of(),
            ) is Ok,
            r matches Err(e) ==> Err::<(), RuntimeError>(e) == admission(
                old(self).phase_of(),
                old(self).tasks_in_flight(),
                old(self).capacity_of(),
            ) && *final(self) == *old(self),
            r matches Ok(ends) ==> {
                &&& ends.0.cell() == ends.1.cell()
                &&& final(self).phase_of() == old(self).phase_of()
                &&& final(self).capacity_of() == old(self).capacity_of()
                &&& final(self).tasks_in_flight() == old(self).tasks_in_flight() + 1
                &&& final(self).tasks_spawned() == old(self).tasks_spawned() + 1
                &&& final(self).tasks_finished() == old(self).tasks_finished()
                &&& final(self).tasks_dropped() == old(self).tasks_dropped()
            },
    {
        match self.spawn() {
            Err(e) => Err(e),
            Ok(()) => Ok(result_cell()),
        }
    }

    /// Tells a caller that wants to drive a task on its own thread what to do
    /// next, given the thread's record of its ambient services. The first caller on
    /// a thread is told to start the services; a caller that finds them being
    /// started is told to wait; once they are installed every caller is told to
    /// drive its task. A runtime that is no longer running turns the caller away
    /// and leaves the thread's record alone.
    pub fn block_on_local(&self, ambient: &mut Ambient) -> (r: Result<LocalStep, RuntimeError>)
        ensures
            r == local_step(self.phase_of(), answer(old(ambient)@)),
            final(ambient)@ == if self.phase_of() is Running {
                next_state(old(ambient)@, AmbientEvent::Claim)
            } else {
                old(ambient)@
            },
    {
        match self.phase {
            Phase::Running => {
                match ambient.claim() {
                    Claim::Start => Ok(LocalStep::StartAmbient),
                    Claim::Wait => Ok(LocalStep::Wait),
                    Claim::Proceed => Ok(LocalStep::Drive),
                    Claim::Unavailable => Err(RuntimeError::AmbientServicesUnavailable),
                }
            },
            _ => Err(RuntimeError::PoolStopped),
        }
    }

    /// Records that a task which was in flight has run to completion. Returns
    /// whether there was such a task; if none was in flight, nothing changes.
    pub fn task_finished(&mut self) -> (counted: bool)
        ensures
            counted <==> old(self).tasks_in_flight() > 0,
            !counted ==> *final(self) == *old(self),
            counted ==> {
                &&& final(self).phase_of() == old(self).phase_of()
                &&& final(self).capacity_of() == old(self).capacity_of()
                &&& final(self).tasks_in_flight() == old(self).tasks_in_flight() - 1
                &&& final(self).tasks_spawned() == old(self).tasks_spawned()
                &&& final(self).tasks_finished() == old(self).tasks_finished() + 1
                &&& final(self).tasks_dropped() == old(self).tasks_dropped()
            },
    {
        proof {
            use_type_invariant(&*self);
        }
        if self.in_flight == 0 {
            false
        } else {
            *self = Runtime {
                phase: self.phase,
                capacity: self.capacity,
                in_flight: self.in_flight - 1,
                spawned: self.spawned,
                finished: Ghost(self.finished@ + 1),
                dropped: self.dropped,
            };
            true
        }
    }

    /// Asks the runtime to shut down once it is idle. From then on no task is
    /// admitted; the tasks in flight are left to finish. Has no effect on a
    /// runtime that is shutting down or has stopped.
    pub fn shutdown_on_idle(&mut self)
        ensures
            final(self).phase_of() == if old(self).phase_of() is Running {
                Phase::ShuttingDown(ShutdownMode::OnIdle)
            } else {
                old(self).phase_of()
            },
            final(self).capacity_of() == old(self).capacity_of(),
            final(self).tasks_in_flight() == old(self).tasks_in_flight(),
            final(self).tasks_spawned() == old(self).tasks_spawned(),
            final(self).tasks_finished() == old(self).tasks_finished(),
            final(self).tasks_dropped() == old(self).tasks_dropped(),
    {
        proof {
            use_type_invariant(&*self);
        }
        if let Phase::Running = self.phase {
            self.phase = Phase::ShuttingDown(ShutdownMode::OnIdle);
        }
    }

    /// Asks the runtime to shut down at once. From then on no task is admitted,
    /// and the tasks in flight are dropped. Has no effect on a runtime that has
    /// stopped.
    pub fn shutdown_now(&mut self)
        ensures
            final(self).phase_of() == if old(self).phase_of() is Stopped {
                Phase::Stopped
            } else {
                Phase::ShuttingDown(ShutdownMode::Now)
            },
            final(self).capacity_of() == old(self).capacity_of(),
            final(self).tasks_in_flight() == 0,
            final(self).tasks_spawned() == old(self).tasks_spawned(),
            final(self).tasks_finished() == old(self).tasks_finished(),
            final(self).tasks_dropped() == old(self).tasks_dropped() + old(
                self,
            ).tasks_in_flight(),
    {
        proof {
            use_type_invariant(&*self);
        }
        match self.phase {
            Phase::Stopped => {},
            _ => {
                *self = Runtime {
                    phase: Phase::ShuttingDown(ShutdownMode::Now),
                    capacity: self.capacity,
                    in_flight: 0,
                    spawned: self.spawned,
                    finished: self.finished,
                    dropped: Ghost(self.dropped@ + self.in_flight as nat),
                };
            },
        }
    }

    /// Asks whether the shutdown is complete, and moves the runtime to stopped if
    /// it is. A running runtime is never complete. A shutdown on idle is complete
    /// when no task is in flight, and not before; an immediate one is complete
    /// as soon as it was asked for.
    pub fn shutdown_complete(&mut self) -> (done: bool)
        ensures
            done == old(self).shutdown_done(),
            final(self).phase_of() == if done {
                Phase::Stopped
            } else {
                old(self).phase_of()
            },
            final(self).capacity_of() == old(self).capacity_of(),
            final(self).tasks_in_flight() == old(self).tasks_in_flight(),
            final(self).tasks_spawned() == old(self).tasks_spawned(),
            final(self).tasks_finished() == old(self).tasks_finished(),
            final(self).tasks_dropped() == old(self).tasks_dropped(),
    {
        proof {
            use_type_invariant(&*self);
        }
        let done = match self.phase {
            Phase::Running => false,
            Phase::ShuttingDown(ShutdownMode::OnIdle) => self.in_flight == 0,
            Phase::ShuttingDown(ShutdownMode::Now) => true,
            Phase::Stopped => true,
        };
        if done {
            self.phase = Phase::Stopped;
        }
        done
    }
}

/// A shutdown on idle completes only after every task that was spawned has
/// finished: while such a shutdown is under way it is complete exactly when as
/// many tasks have finished as were spawned, and a runtime that has stopped
/// without dropping a task has finished every task it admitted.
pub proof fn lemma_idle_shutdown_waits_for_tasks(runtime: Runtime)
    requires
        runtime.wf(),
    ensures
        runtime.phase_of() == Phase::ShuttingDown(ShutdownMode::OnIdle) ==> (
        runtime.shutdown_done() <==> runtime.tasks_finished() == runtime.tasks_spawned()),
        runtime.phase_of() is Stopped && runtime.tasks_dropped() == 0
            ==> runtime.tasks_finished() == runtime.tasks_spawned(),
        runtime.tasks_spawned() == runtime.tasks_finished() + runtime.tasks_dropped()
            + runtime.tasks_in_flight(),
{
}

} // verus!
