//! The single-slot cell between a blocked fiber and the task it waits for.
//!
//! When a fiber blocks on a task that runs elsewhere, the task's output comes back
//! through a cell with one slot. The cell has two ends. The [`CellWriter`] goes
//! with the task and is used up by the one delivery; the [`CellReader`] stays with
//! the fiber and is used up by the one wait. Both ends share the cell, so it lives
//! for as long as either end does.

use may_waiter::Waiter;
use std::sync::Arc;
use std::time::Duration;
use vstd::prelude::*;

verus! {

/// `may_waiter::Waiter`, a slot for one response together with the blocking
/// primitive on which the fiber that waits for the response is suspended.
#[verifier::external_type_specification]
#[verifier::external_body]
#[verifier::reject_recursive_types(T)]
pub struct ExWaiter<T>(Waiter<T>);

/// Calls `Waiter::new`, which makes an empty slot with a fresh blocking primitive.
#[verifier::external_body]
fn waiter_new<T>() -> (waiter: Waiter<T>) {
    Waiter::new()
}

/// Calls `Waiter::set_rsp`, which stores the response in the slot and wakes the
/// fiber that waits for it. The effect is on state shared between fibers, of
/// which no contract here speaks.
#[verifier::external_body]
fn waiter_set<T>(waiter: &Waiter<T>, response: T) {
    waiter.set_rsp(response)
}

/// Calls `Waiter::wait_rsp`, which suspends the caller until a response has been
/// stored or the timeout has passed, and takes the response out of the slot. It
/// returns an error only when the timeout has passed, so without a timeout every
/// return carries a response. If the fiber is cancelled while it waits, the call
/// unwinds the fiber and does not return.
#[verifier::external_body]
fn waiter_wait<T>(waiter: &Waiter<T>, timeout: Option<Duration>) -> (response: Option<T>)
    ensures
        timeout is None ==> response is Some,
{
    waiter.wait_rsp(timeout).ok()
}

/// The end of a result cell that delivers the output.
#[verifier::reject_recursive_types(T)]
pub struct CellWriter<T> {
    cell: Arc<Waiter<T>>,
}

/// The end of a result cell that waits for the output.
#[verifier::reject_recursive_types(T)]
pub struct CellReader<T> {
    cell: Arc<Waiter<T>>,
}

impl<T> CellWriter<T> {
    /// The cell that this end writes to.
    pub closed spec fn cell(&self) -> Waiter<T> {
        *self.cell
    }

    /// Puts `output` into the cell and wakes the fiber that waits for it. This
    /// uses the writer up: a cell is written once.
    pub fn deliver(self, output: T) {
        waiter_set(&self.cell, output)
    }
}

impl<T> CellReader<T> {
    /// The cell that this end reads from.
    pub closed spec fn cell(&self) -> Waiter<T> {
        *self.cell
    }

    /// Suspends the fiber until the output has been delivered, and returns it.
    /// This uses the reader up: a cell is read once.
    pub fn wait(self) -> (output: T) {
        match waiter_wait(&self.cell, None) {
            Some(output) => output,
            None => vstd::pervasive::unreached(),
        }
    }
}

/// Makes an empty result cell and returns its two ends.
pub fn result_cell<T>() -> (ends: (CellWriter<T>, CellReader<T>))
    ensures
        ends.0.cell() == ends.1.cell(),
{
    let cell = Arc::new(waiter_new());
    let shared = cell.clone();
    (CellWriter { cell }, CellReader { cell: shared })
}

} // verus!
