use vstd::prelude::*;
use std::sync::{Arc, Mutex};
use crate::per_thread::PerThreadQueues;
use crate::rng::random_index;
use crate::single_queue::TryRecvError;
use crate::sync::new_mutex;

verus! {

/// One queue per worker; every task, new or returning, goes to a queue drawn
/// at random.
pub struct StealingQueue<T> {
    queues: PerThreadQueues<T>,
}

impl<T> StealingQueue<T> {
    /// The queues and the registered workers.
    pub closed spec fn lanes(&self) -> PerThreadQueues<T> {
        self.queues
    }

    /// No worker is registered twice.
    pub open spec fn wf(&self) -> bool {
        self.lanes().wf()
    }

    /// `new` is `old` after `task` went as a new task into some queue.
    pub open spec fn pushed(old: Self, new: Self, task: T) -> bool {
        exists|j: int|
            0 <= j < old.lanes().queues().len() && #[trigger] PerThreadQueues::pushed_into(
                old.lanes(),
                new.lanes(),
                j,
                task,
            )
    }

    /// `new` is `old` after `task` was put back into some queue.
    pub open spec fn repushed(old: Self, new: Self, task: T) -> bool {
        exists|j: int|
            0 <= j < old.lanes().queues().len() && #[trigger] PerThreadQueues::repushed_into(
                old.lanes(),
                new.lanes(),
                j,
                task,
            )
    }

    /// `queues_no` empty queues (none when it is not positive).
    pub fn new(queues_no: i32) -> (r: Self)
        ensures
            r.wf(),
            r.lanes().queues().len() == (if queues_no > 0 { queues_no as int } else { 0 }),
            forall|i: int|
                0 <= i < r.lanes().queues().len() ==> #[trigger] r.lanes().queues()[i].pending()
                    == Seq::<T>::empty() && r.lanes().queues()[i].counter() == 0,
            r.lanes().threads() == Seq::<u64>::empty(),
            r.lanes().counter() == 0,
    {
        StealingQueue { queues: PerThreadQueues::new(queues_no) }
    }

    /// A new queue behind a shared lock.
    ///
    /// The queue is the one `new` makes with the same arguments; that the lock
    /// holds it is not stated, since a `std::sync::Mutex` is opaque to Verus.
    pub fn arc(queues_no: i32) -> Arc<Mutex<Self>> {
        Arc::new(new_mutex(Self::new(queues_no)))
    }

    /// Adds a new task to queue `draw`, the number drawn for it, and counts it.
    pub fn push_drawn(&mut self, task: T, draw: usize)
        requires
            old(self).wf(),
            draw < old(self).lanes().queues().len(),
        ensures
            final(self).wf(),
            PerThreadQueues::pushed_into(old(self).lanes(), final(self).lanes(), draw as int, task),
    {
        self.queues.push_into(draw, task);
    }

    /// Puts a task that waits again into queue `draw`, the number drawn for it.
    pub fn repush_drawn(&mut self, task: T, draw: usize)
        requires
            old(self).wf(),
            draw < old(self).lanes().queues().len(),
        ensures
            final(self).wf(),
            PerThreadQueues::repushed_into(old(self).lanes(), final(self).lanes(), draw as int, task),
    {
        self.queues.repush_into(draw, task);
    }

    /// Adds a new task to a queue drawn at random from all queues, and counts
    /// it.
    pub fn push(&mut self, task: T)
        requires
            old(self).wf(),
            old(self).lanes().queues().len() > 0,
        ensures
            final(self).wf(),
            Self::pushed(*old(self), *final(self), task),
    {
        let j = random_index(0, self.queues.len());
        self.push_drawn(task, j);
        assert(PerThreadQueues::pushed_into(old(self).lanes(), self.lanes(), j as int, task));
    }

    /// Puts a task that waits again into a queue drawn at random from all
    /// queues.
    pub fn repush(&mut self, task: T)
        requires
            old(self).wf(),
            old(self).lanes().queues().len() > 0,
        ensures
            final(self).wf(),
            Self::repushed(*old(self), *final(self), task),
    {
        let j = random_index(0, self.queues.len());
        self.repush_drawn(task, j);
        assert(PerThreadQueues::repushed_into(old(self).lanes(), self.lanes(), j as int, task));
    }

    /// `thread` takes a task from the queue that serves it.
    pub fn pop(&mut self, thread: u64) -> (r: Result<T, TryRecvError>)
        requires
            old(self).wf(),
            old(self).lanes().queues().len() > 0,
            old(self).lanes().slot_in_range(thread),
        ensures
            final(self).wf(),
            PerThreadQueues::popped(old(self).lanes(), final(self).lanes(), thread, r),
    {
        self.queues.pop(thread)
    }

    /// `thread` finished a task.
    pub fn done(&mut self, thread: u64)
        requires
            old(self).wf(),
            old(self).lanes().slot_in_range(thread),
        ensures
            final(self).wf(),
            PerThreadQueues::finished(old(self).lanes(), final(self).lanes(), thread),
    {
        self.queues.done(thread)
    }

    /// Whether no task is unfinished.
    pub fn can_stop(&mut self) -> (r: bool)
        ensures
            r == (old(self).lanes().counter() == 0),
            *final(self) == *old(self),
    {
        self.queues.can_stop()
    }

    /// The slot of `thread`, if it is registered.
    pub fn thread_slot(&self, thread: u64) -> (r: Option<usize>)
        requires
            self.wf(),
        ensures
            match r {
                Some(i) => self.lanes().threads().contains(thread) && i == self.lanes().slot(thread),
                None => !self.lanes().threads().contains(thread),
            },
    {
        self.queues.thread_slot(thread)
    }

    /// Number of waiting tasks in queue `index`.
    pub fn queue_len(&self, index: usize) -> (n: usize)
        requires
            index < self.lanes().queues().len(),
        ensures
            n == self.lanes().queues()[index as int].pending().len(),
    {
        self.queues.queue_len(index)
    }

    /// Reads the number of unfinished tasks counted by queue `index`.
    pub fn queue_num_tasks(&self, index: usize) -> (n: u64)
        requires
            index < self.lanes().queues().len(),
        ensures
            n == self.lanes().queues()[index as int].counter(),
    {
        self.queues.queue_num_tasks(index)
    }

    /// Reads the global number of unfinished tasks.
    pub fn num_tasks(&self) -> (n: u64)
        ensures
            n == self.lanes().counter(),
    {
        self.queues.num_tasks()
    }

    /// Number of queues.
    pub fn len(&self) -> (n: usize)
        ensures
            n == self.lanes().queues().len(),
    {
        self.queues.len()
    }
}

/// Law: a task pushed or put back with the draw `draw` lands in queue `draw`
/// and nowhere else: that queue gains exactly the task at its back, every
/// other queue keeps its tasks. So each of the queues can receive a task, and
/// which one does is the draw.
pub proof fn law_drawn_queue_receives_the_task<T>(
    old: PerThreadQueues<T>,
    new: PerThreadQueues<T>,
    draw: int,
    task: T,
)
    requires
        PerThreadQueues::pushed_into(old, new, draw, task) || PerThreadQueues::repushed_into(
            old,
            new,
            draw,
            task,
        ),
    ensures
        0 <= draw < old.queues().len(),
        new.queues().len() == old.queues().len(),
        new.queues()[draw].pending() == old.queues()[draw].pending().push(task),
        forall|k: int|
            0 <= k < old.queues().len() && k != draw ==> #[trigger] new.queues()[k] == old.queues()[k],
{
}

} // verus!
