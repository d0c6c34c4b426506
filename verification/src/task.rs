//! Tasks: the unit of work that the executor queues and its workers poll.
use std::sync::Arc;
use vstd::prelude::*;

verus! {

/// A spawned unit of work, holding the future that workers poll.
///
/// The future is held as given; the runtime decides how it is stored
/// (behind a lock, pinned) and polls it through `future`.
pub struct Task<F> {
    future: F,
}

impl<F> View for Task<F> {
    type V = F;

    closed spec fn view(&self) -> F {
        self.future
    }
}

impl<F> Task<F> {
    /// Wraps `future` in a shared task handle.
    pub fn new(future: F) -> (task: Arc<Self>)
        ensures
            task@ == future,
    {
        Arc::new(Task { future })
    }

    /// Gives access to the wrapped future.
    pub fn future(&self) -> (f: &F)
        ensures
            *f == self@,
    {
        &self.future
    }
}

/// What a task's slot holds after a poll that answered `out`: the future
/// handed back, unless it completed.
pub open spec fn slot_after_poll<Fut>(out: (Fut, bool)) -> Option<Fut> {
    if out.1 {
        None
    } else {
        Some(out.0)
    }
}

/// How one poll of a task went.
pub enum TaskPoll<P> {
    /// The task had already finished: its future was not polled, and the
    /// poll callback is handed back uncalled.
    Finished(P),
    /// The future was polled; `completed` says whether it has now finished.
    Polled { completed: bool },
}

impl<P> TaskPoll<P> {
    /// Whether the task is done after this poll: it had finished before, or
    /// its future has just completed. This is the task's `Ready`.
    pub open spec fn is_ready(self) -> bool {
        match self {
            TaskPoll::Finished(_) => true,
            TaskPoll::Polled { completed } => completed,
        }
    }

    /// Whether the task is done after this poll, as `is_ready` says.
    pub fn ready(&self) -> (r: bool)
        ensures
            r == self.is_ready(),
    {
        match self {
            TaskPoll::Finished(_) => true,
            TaskPoll::Polled { completed } => *completed,
        }
    }
}

/// One poll of a task whose future sits in `slot`, emptied once the future
/// has completed.
///
/// A finished task (empty slot) is not polled again: `poll` is handed back
/// uncalled, the slot stays empty and the task counts as ready. Otherwise
/// `poll` polls the future and says whether it completed; a completed future
/// is dropped from the slot, any other is put back.
pub fn poll_future<Fut, P>(slot: &mut Option<Fut>, poll: P) -> (res: TaskPoll<P>)
    where
        P: FnOnce(Fut) -> (Fut, bool),
    requires
        forall|f: Fut| poll.requires((f,)),
    ensures
        match *old(slot) {
            None => {
                &&& res == TaskPoll::Finished(poll)
                &&& *final(slot) is None
            },
            Some(f) => exists|out: (Fut, bool)|
                {
                    &&& #[trigger] poll.ensures((f,), out)
                    &&& res == TaskPoll::<P>::Polled { completed: out.1 }
                    &&& *final(slot) == slot_after_poll(out)
                },
        },
{
    match slot.take() {
        None => TaskPoll::Finished(poll),
        Some(f) => {
            let (f, completed) = poll(f);
            if !completed {
                *slot = Some(f);
            }
            TaskPoll::Polled { completed }
        },
    }
}

/// Once a poll has found a task's future completed, the slot is empty, so
/// every later `poll_future` of that task polls nothing and finds it
/// finished.
pub proof fn law_finished_task_is_never_polled_again<Fut>(out: (Fut, bool))
    requires
        out.1,
    ensures
        slot_after_poll(out) is None,
{
}

} // verus!
