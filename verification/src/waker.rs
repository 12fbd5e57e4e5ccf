//! The bridged form of a wake handle.
//!
//! Tasks are polled with a `std::task::Waker`. An [`Unparker`] becomes one by being
//! placed behind a shared pointer: cloning the waker adds a reference, dropping it
//! gives one up, waking by value gives one up after the wake, and waking by
//! reference leaves the references alone. The primitive behind the handle is
//! released when the last reference is given up, and not before.
//!
//! The sharing itself is the standard library's. What this module adds is the
//! statement of that discipline, [`WakeCount`], against which the bridged form can
//! be audited operation by operation, and the proof that the discipline balances.

use crate::park::Unparker;
use may::sync::Blocker;
use std::sync::Arc;
use std::task::Wake;
use std::task::Waker;
use tokio_executor::park::Unpark;
use vstd::prelude::*;

verus! {

/// `std::task::Waker`, the handle through which a task asks to be polled again.
#[verifier::external_type_specification]
#[verifier::external_body]
pub struct ExWaker(Waker);

impl Wake for Unparker {
    /// Wakes the fiber and gives up the reference through which it was woken.
    fn wake(self: Arc<Self>) {
        self.unpark()
    }

    /// Wakes the fiber and keeps the reference.
    fn wake_by_ref(self: &Arc<Self>) {
        self.unpark()
    }
}

/// The primitive that `waker` wakes: whoever is suspended on it is released when
/// the waker is woken.
pub uninterp spec fn wakes(waker: Waker) -> Blocker;

/// Calls `Waker::from` on a shared wake handle. The waker it returns wakes through
/// the handle's `Wake` implementation and does nothing else, so what it wakes is
/// the primitive that the handle refers to. Verus cannot look into a waker, and
/// nothing more is claimed of it; in particular, two wakers that wake the same
/// primitive are not said to be the same waker.
#[verifier::external_body]
fn waker_from(handle: Arc<Unparker>) -> (waker: Waker)
    ensures
        wakes(waker) == handle.primitive(),
{
    Waker::from(handle)
}

impl Unparker {
    /// Converts the wake handle into the waker that tasks are polled with: a waker
    /// that wakes the primitive that the handle refers to. The conversion takes
    /// the handle; the waker holds the first reference to it.
    pub fn into_waker(self) -> (waker: Waker)
        ensures
            wakes(waker) == self.primitive(),
    {
        waker_from(Arc::new(self))
    }
}

/// An operation on a bridged wake handle.
#[derive(Clone, Copy, Debug, PartialEq, Eq, Structural)]
pub enum WakerOp {
    /// The waker is cloned.
    Clone,
    /// The waker is consumed by a wake.
    Wake,
    /// The waker is used for a wake and kept.
    WakeByRef,
    /// The waker is dropped.
    Drop,
}

impl WakerOp {
    /// The references that the operation adds.
    pub open spec fn adds(self) -> nat {
        if self is Clone {
            1
        } else {
            0
        }
    }

    /// The references that the operation gives up.
    pub open spec fn gives_up(self) -> nat {
        if self is Wake || self is Drop {
            1
        } else {
            0
        }
    }
}

/// The references added so far: one by the conversion that made the first waker,
/// and one by each clone in `ops`.
pub open spec fn increments(ops: Seq<WakerOp>) -> nat
    decreases ops.len(),
{
    if ops.len() == 0 {
        1
    } else {
        increments(ops.drop_last()) + ops.last().adds()
    }
}

/// The references given up so far: one by each drop and each consuming wake in
/// `ops`.
pub open spec fn decrements(ops: Seq<WakerOp>) -> nat
    decreases ops.len(),
{
    if ops.len() == 0 {
        0
    } else {
        decrements(ops.drop_last()) + ops.last().gives_up()
    }
}

/// The references that are live after `ops`.
pub open spec fn live_after(ops: Seq<WakerOp>) -> int {
    increments(ops) - decrements(ops)
}

/// Every operation in `ops` acts on a waker that is still live: none comes after
/// the last reference was given up.
pub open spec fn well_ordered(ops: Seq<WakerOp>) -> bool {
    forall|k: int| 0 <= k < ops.len() ==> live_after(#[trigger] ops.take(k)) > 0
}

/// The count of live references to one bridged wake handle, kept operation by
/// operation.
pub struct WakeCount {
    live: usize,
    history: Ghost<Seq<WakerOp>>,
}

impl WakeCount {
    /// The operations recorded so far.
    pub closed spec fn history(&self) -> Seq<WakerOp> {
        self.history@
    }

    /// The number of live references.
    pub closed spec fn live_refs(&self) -> nat {
        self.live as nat
    }

    /// The count agrees with its history, and the history is one that can happen.
    #[verifier::type_invariant]
    pub closed spec fn wf(&self) -> bool {
        &&& well_ordered(self.history@)
        &&& self.live == live_after(self.history@)
    }

    /// The count right after the conversion: one reference, held by the first
    /// waker.
    pub fn new() -> (count: WakeCount)
        ensures
            count.history() == Seq::<WakerOp>::empty(),
            count.live_refs() == 1,
    {
        WakeCount { live: 1, history: Ghost(Seq::empty()) }
    }

    /// Records `op`. It is refused, and nothing changes, if no reference is live
    /// any more (the operation would touch a released primitive) or if a clone
    /// would take the count beyond what it can hold.
    pub fn apply(&mut self, op: WakerOp) -> (accepted: bool)
        ensures
            accepted <==> old(self).live_refs() > 0 && !(op is Clone && old(self).live_refs()
                == usize::MAX),
            accepted ==> final(self).history() == old(self).history().push(op),
            accepted ==> final(self).live_refs() == old(self).live_refs() + op.adds()
                - op.gives_up(),
            !accepted ==> *final(self) == *old(self),
    {
        proof {
            use_type_invariant(&*self);
        }
        if self.live == 0 {
            return false;
        }
        let live: usize = match op {
            WakerOp::Clone => {
                if self.live == usize::MAX {
                    return false;
                }
                self.live + 1
            },
            WakerOp::Wake => self.live - 1,
            WakerOp::WakeByRef => self.live,
            WakerOp::Drop => self.live - 1,
        };
        proof {
            lemma_push(self.history@, op);
        }
        *self = WakeCount { live, history: Ghost(self.history@.push(op)) };
        true
    }

    /// The number of live references: those that the recorded operations added,
    /// less those that they gave up.
    pub fn live(&self) -> (n: usize)
        ensures
            n == self.live_refs(),
            n == live_after(self.history()),
            well_ordered(self.history()),
    {
        proof {
            use_type_invariant(self);
        }
        self.live
    }

    /// Whether the last reference has been given up, and the primitive with it:
    /// whether as many references were given up as were added.
    pub fn released(&self) -> (gone: bool)
        ensures
            gone <==> self.live_refs() == 0,
            gone <==> increments(self.history()) == decrements(self.history()),
    {
        proof {
            use_type_invariant(self);
        }
        self.live == 0
    }
}

/// One more operation moves the counts by what the operation adds and gives up,
/// and keeps the order if a reference was live before it.
proof fn lemma_push(ops: Seq<WakerOp>, op: WakerOp)
    ensures
        increments(ops.push(op)) == increments(ops) + op.adds(),
        decrements(ops.push(op)) == decrements(ops) + op.gives_up(),
        well_ordered(ops) && live_after(ops) > 0 ==> well_ordered(ops.push(op)),
{
    let next = ops.push(op);
    assert(next.drop_last() == ops);
    assert(next.last() == op);
    if well_ordered(ops) && live_after(ops) > 0 {
        assert forall|k: int| 0 <= k < next.len() implies live_after(#[trigger] next.take(k))
            > 0 by {
            if k < ops.len() {
                assert(next.take(k) == ops.take(k));
            } else {
                assert(next.take(k) == ops);
            }
        }
    }
}

/// The discipline balances. Whatever operations are applied to the wakers made
/// from one wake handle, each to a waker that is still live: the live references
/// are the references added less those given up and never fewer than none; the
/// primitive is released exactly when as many references were given up as were
/// added; and once it is released no further operation is in order, so nothing
/// reaches a released primitive.
pub proof fn lemma_references_balance(ops: Seq<WakerOp>)
    requires
        well_ordered(ops),
    ensures
        live_after(ops) >= 0,
        live_after(ops) == 0 <==> increments(ops) == decrements(ops),
        live_after(ops) == 0 ==> forall|op: WakerOp| !well_ordered(#[trigger] ops.push(op)),
    decreases ops.len(),
{
    if ops.len() > 0 {
        let before = ops.drop_last();
        assert(before == ops.take(ops.len() - 1));
        assert(live_after(before) > 0);
        assert(ops == before.push(ops.last()));
        lemma_push(before, ops.last());
    }
    if live_after(ops) == 0 {
        assert forall|op: WakerOp| !well_ordered(#[trigger] ops.push(op)) by {
            let next = ops.push(op);
            assert(next.take(ops.len() as int) == ops);
        }
    }
}

/// A wake by reference changes no count.
pub proof fn lemma_wake_by_ref_keeps_count(ops: Seq<WakerOp>)
    ensures
        live_after(ops.push(WakerOp::WakeByRef)) == live_after(ops),
{
    lemma_push(ops, WakerOp::WakeByRef);
}

} // verus!
