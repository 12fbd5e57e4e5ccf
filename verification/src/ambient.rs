//! The once-per-thread start of the ambient services fiber.
//!
//! Tasks that are driven on the calling thread look up their reactor, timer and
//! dispatcher implicitly. A persistent fiber on that thread installs them and then
//! sleeps for ever. It is started lazily, by the first call on the thread that
//! needs it, and never a second time: [`Ambient`] is the per-thread record that
//! decides who starts it, who waits for the start to finish, and who may go ahead.

use vstd::prelude::*;

verus! {

/// How far the ambient services fiber of a thread has come.
#[derive(Clone, Copy, Debug, PartialEq, Eq, Structural)]
pub enum AmbientState {
    /// Nobody has asked for the fiber yet.
    Absent,
    /// One caller has been told to start the fiber and has not reported back.
    Starting,
    /// The fiber runs and the services are installed.
    Ready,
    /// The fiber could not be started. This is final.
    Failed,
}

/// What a caller that needs the ambient services has to do.
#[derive(Clone, Copy, Debug, PartialEq, Eq, Structural)]
pub enum Claim {
    /// Start the fiber, then report how that went.
    Start,
    /// Another fiber is starting it: yield and ask again.
    Wait,
    /// The services are there: go ahead.
    Proceed,
    /// The services are not there and will not be.
    Unavailable,
}

/// Something that happens to the record.
#[derive(Clone, Copy, Debug, PartialEq, Eq, Structural)]
pub enum AmbientEvent {
    /// A caller asks what to do.
    Claim,
    /// The caller that was told to start the fiber reports success or failure.
    Report(bool),
}

/// The answer to a caller that asks in state `state`.
pub open spec fn answer(state: AmbientState) -> Claim {
    match state {
        AmbientState::Absent => Claim::Start,
        AmbientState::Starting => Claim::Wait,
        AmbientState::Ready => Claim::Proceed,
        AmbientState::Failed => Claim::Unavailable,
    }
}

/// The state that follows `state` on `event`. Asking moves an absent fiber to
/// starting; a report settles a start that is under way and is ignored otherwise.
pub open spec fn next_state(state: AmbientState, event: AmbientEvent) -> AmbientState {
    match event {
        AmbientEvent::Claim => if state is Absent {
            AmbientState::Starting
        } else {
            state
        },
        AmbientEvent::Report(ok) => if state is Starting {
            if ok {
                AmbientState::Ready
            } else {
                AmbientState::Failed
            }
        } else {
            state
        },
    }
}

/// The state of a thread's record after `events`, from a thread that had none.
pub open spec fn state_after(events: Seq<AmbientEvent>) -> AmbientState
    decreases events.len(),
{
    if events.len() == 0 {
        AmbientState::Absent
    } else {
        next_state(state_after(events.drop_last()), events.last())
    }
}

/// How many callers were told to start the fiber in the course of `events`.
pub open spec fn starts(events: Seq<AmbientEvent>) -> nat
    decreases events.len(),
{
    if events.len() == 0 {
        0
    } else {
        let before = events.drop_last();
        let told_to_start = events.last() is Claim && answer(state_after(before)) is Start;
        starts(before) + if told_to_start {
            1nat
        } else {
            0nat
        }
    }
}

/// The per-thread record of the ambient services fiber.
#[derive(Clone, Copy, Debug, PartialEq, Eq, Structural)]
pub struct Ambient {
    state: AmbientState,
}

impl Ambient {
    /// How far the fiber has come.
    pub closed spec fn view(&self) -> AmbientState {
        self.state
    }

    /// The record of a thread on which nobody has asked for the fiber.
    pub fn new() -> (ambient: Ambient)
        ensures
            ambient@ == AmbientState::Absent,
    {
        Ambient { state: AmbientState::Absent }
    }

    /// How far the fiber has come.
    pub fn state(&self) -> (state: AmbientState)
        ensures
            state == self@,
    {
        self.state
    }

    /// Whether the fiber has been asked for, which is the flag that is set once
    /// and never cleared.
    pub fn is_claimed(&self) -> (claimed: bool)
        ensures
            claimed <==> !(self@ is Absent),
    {
        !matches!(self.state, AmbientState::Absent)
    }

    /// Asks what the caller has to do. The first caller on the thread is told to
    /// start the fiber; nobody after it is.
    pub fn claim(&mut self) -> (claim: Claim)
        ensures
            claim == answer(old(self)@),
            final(self)@ == next_state(old(self)@, AmbientEvent::Claim),
    {
        match self.state {
            AmbientState::Absent => {
                self.state = AmbientState::Starting;
                Claim::Start
            },
            AmbientState::Starting => Claim::Wait,
            AmbientState::Ready => Claim::Proceed,
            AmbientState::Failed => Claim::Unavailable,
        }
    }

    /// Records how the start of the fiber went. Ignored unless a start is under
    /// way.
    pub fn report(&mut self, ok: bool)
        ensures
            final(self)@ == next_state(old(self)@, AmbientEvent::Report(ok)),
    {
        if let AmbientState::Starting = self.state {
            self.state = if ok {
                AmbientState::Ready
            } else {
                AmbientState::Failed
            };
        }
    }
}

/// The fiber is started at most once per thread. Whatever callers ask and report,
/// in whatever order: at most one of them is told to start the fiber; exactly one
/// is as soon as anybody has asked; and the services are reported ready only after
/// somebody was told to start them.
pub proof fn lemma_started_at_most_once(events: Seq<AmbientEvent>)
    ensures
        starts(events) <= 1,
        starts(events) == 1 <==> !(state_after(events) is Absent),
        starts(events) == 1 <==> exists|k: int| 0 <= k < events.len() && events[k] is Claim,
    decreases events.len(),
{
    if events.len() > 0 {
        let before = events.drop_last();
        lemma_started_at_most_once(before);
        if starts(before) == 1 {
            let k = choose|k: int| 0 <= k < before.len() && before[k] is Claim;
            assert(events[k] is Claim);
        } else if events.last() is Claim {
            assert(events[events.len() - 1] is Claim);
        } else {
            assert forall|k: int| 0 <= k < events.len() implies !(events[k] is Claim) by {
                if k < before.len() {
                    assert(before[k] == events[k]);
                }
            }
        }
    }
}

} // verus!
