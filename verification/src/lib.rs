//! A bridge between fibers and poll-based tasks.
//!
//! A fiber is a stackful, cooperatively scheduled execution context that blocks by
//! parking itself. A task is a unit of asynchronous work that is polled until it
//! completes. This crate lets a fiber host tasks:
//!
//! - [`park`] wraps the fiber scheduler's blocking primitive in a parking handle and
//!   the wake handles that release it;
//! - [`waker`] turns a wake handle into the waker that tasks are polled with, and
//!   states the reference-counting discipline of that bridged form;
//! - [`enter`] drives one task on the current fiber, turn by turn;
//! - [`cell`] is the single-slot cell through which a task that runs elsewhere
//!   hands its output back to a blocked fiber;
//! - [`ambient`] guards the once-per-thread start of the fiber that hosts a
//!   thread's ambient services;
//! - [`runtime`] is the life cycle of the runtime and its admission rules.
//!
//! Everything that decides is verified. Calls into the fiber scheduler and into the
//! standard library's task machinery stand behind small trusted wrappers, each of
//! which states, where it is declared, what is taken on trust.

pub mod ambient;
pub mod cell;
pub mod enter;
pub mod park;
pub mod runtime;
pub mod waker;

pub use crate::park::Parker;
pub use crate::park::Unparker;
pub use crate::runtime::Runtime;
