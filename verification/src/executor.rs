//! The executor's run queue: the tasks waiting to be polled, in the order in
//! which they were spawned or woken.
//!
//! Worker threads take tasks from the front; spawning and waking put tasks at
//! the back. A task woken twice before it is polled is queued twice.
use crate::task::Task;
use std::collections::VecDeque;
use std::sync::Arc;
use vstd::prelude::*;

verus! {

/// The number of worker threads used when the machine does not say how much
/// parallelism it offers.
pub const FALLBACK_WORKERS: usize = 4;

/// The run queue of an executor whose tasks hold futures of type `F`.
pub struct Executor<F> {
    queue: VecDeque<Arc<Task<F>>>,
}

impl<F> View for Executor<F> {
    type V = Seq<Arc<Task<F>>>;

    /// The queued tasks, front first.
    closed spec fn view(&self) -> Seq<Arc<Task<F>>> {
        self.queue@
    }
}

impl<F> Executor<F> {
    /// An executor with nothing queued.
    pub fn new() -> (e: Self)
        ensures
            e@ == Seq::<Arc<Task<F>>>::empty(),
    {
        Executor { queue: VecDeque::new() }
    }

    /// The number of queued tasks.
    pub fn len(&self) -> (n: usize)
        ensures
            n == self@.len(),
    {
        self.queue.len()
    }

    /// Whether no task is queued, so that a worker has to wait.
    pub fn is_idle(&self) -> (b: bool)
        ensures
            b == (self@.len() == 0),
    {
        self.queue.len() == 0
    }

    /// Puts `task` at the back of the queue.
    pub fn enqueue_task(&mut self, task: Arc<Task<F>>)
        ensures
            final(self)@ == old(self)@.push(task),
    {
        self.queue.push_back(task);
    }

    /// Takes the task at the front of the queue for a worker to poll, or
    /// `None` when nothing is queued.
    pub fn next_task(&mut self) -> (task: Option<Arc<Task<F>>>)
        ensures
            old(self)@.len() == 0 ==> task is None && final(self)@ == old(self)@,
            old(self)@.len() > 0 ==> task == Some(old(self)@[0]) && final(self)@ == old(
                self,
            )@.drop_first(),
    {
        self.queue.pop_front()
    }
}

/// Queues `task` to be polled: what waking a task does.
pub fn enqueue<F>(executor: &mut Executor<F>, task: Arc<Task<F>>)
    ensures
        final(executor)@ == old(executor)@.push(task),
{
    executor.enqueue_task(task);
}

/// Wraps `future` in a new task and queues it.
pub fn spawn<F>(executor: &mut Executor<F>, future: F)
    ensures
        final(executor)@.len() == old(executor)@.len() + 1,
        final(executor)@.drop_last() == old(executor)@,
        final(executor)@.last()@ == future,
{
    let task = Task::new(future);
    enqueue(executor, task);
}

/// Tasks leave the queue in the order in which they entered it: after `a`
/// and then `b` are queued behind the tasks `queue`, every task of `queue` is
/// taken first, then `a`, then `b`.
pub proof fn law_fifo_order<T>(queue: Seq<T>, a: T, b: T)
    ensures
        queue.push(a).push(b).take(queue.len() as int) == queue,
        queue.push(a).push(b)[queue.len() as int] == a,
        queue.push(a).push(b)[queue.len() + 1int] == b,
{
    assert(queue.push(a).push(b).take(queue.len() as int) =~= queue);
}

/// Queuing a task never changes which task a worker takes next, unless the
/// queue was empty; then the worker takes the task just queued.
pub proof fn law_enqueue_keeps_front<T>(queue: Seq<T>, t: T)
    ensures
        queue.len() > 0 ==> queue.push(t)[0] == queue[0],
        queue.len() == 0 ==> queue.push(t)[0] == t,
        queue.push(t).drop_first() == if queue.len() == 0 {
            Seq::<T>::empty()
        } else {
            queue.drop_first().push(t)
        },
{
    if queue.len() == 0 {
        assert(queue.push(t).drop_first() =~= Seq::<T>::empty());
    } else {
        assert(queue.push(t).drop_first() =~= queue.drop_first().push(t));
    }
}

/// A task queued behind `n` others is the one taken after those `n` have
/// been taken.
pub proof fn law_taken_after_those_ahead<T>(queue: Seq<T>, t: T)
    ensures
        queue.push(t).skip(queue.len() as int) == seq![t],
{
    assert(queue.push(t).skip(queue.len() as int) =~= seq![t]);
}

/// The queue after `tasks` are queued, in order, behind `queue` by
/// `enqueue_task` (each appends at the back).
pub open spec fn after_enqueues<T>(queue: Seq<T>, tasks: Seq<T>) -> Seq<T>
    decreases tasks.len(),
{
    if tasks.len() == 0 {
        queue
    } else {
        after_enqueues(queue.push(tasks[0]), tasks.drop_first())
    }
}

/// The tasks that workers take, in order, by calling `next_task` until the
/// queue is empty (each call takes the front and leaves the rest).
pub open spec fn taken_in_order<T>(queue: Seq<T>) -> Seq<T>
    decreases queue.len(),
{
    if queue.len() == 0 {
        Seq::<T>::empty()
    } else {
        seq![queue[0]].add(taken_in_order(queue.drop_first()))
    }
}

/// Queuing appends: queuing `tasks` one by one behind `queue` leaves
/// `queue` followed by `tasks`.
pub proof fn lemma_after_enqueues<T>(queue: Seq<T>, tasks: Seq<T>)
    ensures
        after_enqueues(queue, tasks) == queue + tasks,
    decreases tasks.len(),
{
    if tasks.len() > 0 {
        lemma_after_enqueues(queue.push(tasks[0]), tasks.drop_first());
        assert(queue.push(tasks[0]) + tasks.drop_first() =~= queue + tasks);
    } else {
        assert(queue + tasks =~= queue);
    }
}

/// Taking from the front until the queue is empty yields the queue itself,
/// front first.
pub proof fn lemma_taken_in_order<T>(queue: Seq<T>)
    ensures
        taken_in_order(queue) == queue,
    decreases queue.len(),
{
    if queue.len() > 0 {
        lemma_taken_in_order(queue.drop_first());
        assert(seq![queue[0]].add(queue.drop_first()) =~= queue);
    }
}

/// First in, first out, for any number of tasks: when the tasks `tasks` are
/// queued, in that order, behind the tasks `queue`, workers taking from the
/// queue until it is empty take every task of `queue` first, in its order,
/// and then the tasks of `tasks` in the order in which they were queued.
pub proof fn law_fifo<T>(queue: Seq<T>, tasks: Seq<T>)
    ensures
        taken_in_order(after_enqueues(queue, tasks)) == queue + tasks,
        forall|i: int|
            0 <= i < tasks.len() ==> #[trigger] taken_in_order(after_enqueues(queue, tasks))[queue.len()
                + i] == tasks[i],
{
    lemma_after_enqueues(queue, tasks);
    lemma_taken_in_order(queue + tasks);
}

/// The number of worker threads to start: the parallelism the machine
/// reports, or `FALLBACK_WORKERS` when it reports none.
pub fn default_worker_count(available: Option<usize>) -> (n: usize)
    ensures
        n == match available {
            Some(k) => k,
            None => FALLBACK_WORKERS,
        },
{
    match available {
        Some(k) => k,
        None => FALLBACK_WORKERS,
    }
}

} // verus!
