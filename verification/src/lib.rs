//! The scheduling core of a small async runtime: the task queue that worker
//! threads drain, the token table through which the I/O reactor finds the task
//! to wake, the readiness decisions of the TCP futures, and timer deadlines.
//! Threads, locks, the OS event loop and the futures themselves are driven
//! from outside. They hand this crate the answers of their calls (the outcome
//! of a socket call, a clock reading, whether the clock can hold a deadline)
//! and it decides, verified, what follows from them.
use vstd::prelude::*;

pub mod executor;
pub mod net;
pub mod reactor;
pub mod task;
pub mod time;

pub use executor::{enqueue, spawn, Executor};
pub use reactor::Reactor;
pub use task::Task;
pub use time::{sleep, Sleep};

verus! {

/// Spawns `future` as a new task on `executor`, behind every task already
/// queued.
pub fn spawn_task<F>(executor: &mut Executor<F>, future: F)
    ensures
        final(executor)@.len() == old(executor)@.len() + 1,
        final(executor)@.drop_last() == old(executor)@,
        final(executor)@.last()@ == future,
{
    spawn(executor, future);
}

} // verus!
