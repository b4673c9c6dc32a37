use vstd::prelude::*;
use crate::per_thread::PerThreadQueues;
use crate::single_queue::{SingleGlobalQueue, TryRecvError, count_down, count_up, lemma_count_mod};
use crate::stealing_queue::StealingQueue;
use crate::thread_local_queue::{PushStrategy, TaskKind, ThreadLocalQueue, can_place};

verus! {

/// Which scheduler queue an executor gets.
#[derive(Debug, Clone, Copy, PartialEq, Eq, Structural)]
pub enum TypeOfQueue {
    /// One queue shared by all workers.
    SimpleGlobal,
    /// The given number of queues, one per worker, filled by the given strategy.
    ThreadUnique(i32, PushStrategy),
    /// Queues from which idle workers would steal; not available yet.
    StealingQueue(i32, PushStrategy),
}

/// A scheduler queue: where spawned tasks wait for a worker, where pending
/// tasks come back, and the count of unfinished tasks that tells the workers
/// when they may stop.
pub enum Queue<T> {
    /// One queue shared by all workers.
    SimpleGlobal(SingleGlobalQueue<T>),
    /// One queue per worker, filled by a strategy.
    ThreadUnique(ThreadLocalQueue<T>),
    /// One queue per worker, filled at random.
    Stealing(StealingQueue<T>),
}

impl<T> Queue<T> {
    /// No worker is registered twice.
    pub open spec fn wf(&self) -> bool {
        match self {
            Queue::SimpleGlobal(_) => true,
            Queue::ThreadUnique(q) => q.wf(),
            Queue::Stealing(q) => q.wf(),
        }
    }

    /// Number of unfinished tasks (modulo 2^64).
    pub open spec fn counter(&self) -> u64 {
        match self {
            Queue::SimpleGlobal(q) => q.counter(),
            Queue::ThreadUnique(q) => q.lanes().counter(),
            Queue::Stealing(q) => q.lanes().counter(),
        }
    }

    /// There is a queue for a task of kind `kind`.
    pub open spec fn can_push(&self, kind: TaskKind) -> bool {
        match self {
            Queue::SimpleGlobal(_) => true,
            Queue::ThreadUnique(q) => can_place(q.strategy(), kind, q.lanes().queues().len() as int),
            Queue::Stealing(q) => q.lanes().queues().len() > 0,
        }
    }

    /// There is a queue to serve `thread`.
    pub open spec fn can_serve(&self, thread: u64) -> bool {
        match self {
            Queue::SimpleGlobal(_) => true,
            Queue::ThreadUnique(q) => q.lanes().queues().len() > 0 && q.lanes().slot_in_range(thread),
            Queue::Stealing(q) => q.lanes().queues().len() > 0 && q.lanes().slot_in_range(thread),
        }
    }

    /// `thread`, if registered, has a queue at its slot.
    pub open spec fn can_finish(&self, thread: u64) -> bool {
        match self {
            Queue::SimpleGlobal(_) => true,
            Queue::ThreadUnique(q) => q.lanes().slot_in_range(thread),
            Queue::Stealing(q) => q.lanes().slot_in_range(thread),
        }
    }

    /// `new` is `old` after a new task was added.
    pub open spec fn pushed(old: Self, new: Self, task: T, kind: TaskKind) -> bool {
        match (old, new) {
            (Queue::SimpleGlobal(a), Queue::SimpleGlobal(b)) => SingleGlobalQueue::pushed(a, b, task),
            (Queue::ThreadUnique(a), Queue::ThreadUnique(b)) => ThreadLocalQueue::pushed(a, b, task, kind),
            (Queue::Stealing(a), Queue::Stealing(b)) => StealingQueue::pushed(a, b, task),
            _ => false,
        }
    }

    /// `new` is `old` after a waiting task was put back.
    pub open spec fn repushed(old: Self, new: Self, task: T, kind: TaskKind) -> bool {
        match (old, new) {
            (Queue::SimpleGlobal(a), Queue::SimpleGlobal(b)) => SingleGlobalQueue::repushed(a, b, task),
            (Queue::ThreadUnique(a), Queue::ThreadUnique(b)) => ThreadLocalQueue::repushed(a, b, task, kind),
            (Queue::Stealing(a), Queue::Stealing(b)) => StealingQueue::repushed(a, b, task),
            _ => false,
        }
    }

    /// `new` and `r` are what `thread` taking a task from `old` gives.
    pub open spec fn popped(old: Self, new: Self, thread: u64, r: Result<T, TryRecvError>) -> bool {
        match (old, new) {
            (Queue::SimpleGlobal(a), Queue::SimpleGlobal(b)) => SingleGlobalQueue::popped(a, b, r),
            (Queue::ThreadUnique(a), Queue::ThreadUnique(b)) => {
                &&& b.strategy() == a.strategy()
                &&& PerThreadQueues::popped(a.lanes(), b.lanes(), thread, r)
            },
            (Queue::Stealing(a), Queue::Stealing(b)) => PerThreadQueues::popped(a.lanes(), b.lanes(), thread, r),
            _ => false,
        }
    }

    /// `new` is `old` after `thread` finished a task.
    pub open spec fn finished(old: Self, new: Self, thread: u64) -> bool {
        match (old, new) {
            (Queue::SimpleGlobal(a), Queue::SimpleGlobal(b)) => SingleGlobalQueue::finished(a, b),
            (Queue::ThreadUnique(a), Queue::ThreadUnique(b)) => {
                &&& b.strategy() == a.strategy()
                &&& PerThreadQueues::finished(a.lanes(), b.lanes(), thread)
            },
            (Queue::Stealing(a), Queue::Stealing(b)) => PerThreadQueues::finished(a.lanes(), b.lanes(), thread),
            _ => false,
        }
    }

    /// Whether there is a queue for a task of kind `kind`.
    pub fn accepts(&self, kind: TaskKind) -> (b: bool)
        ensures
            b == self.can_push(kind),
    {
        match self {
            Queue::SimpleGlobal(_) => true,
            Queue::ThreadUnique(q) => {
                let n = q.len();
                match q.push_strategy() {
                    PushStrategy::RANDOM => n > 0,
                    PushStrategy::SHORTEST => n > 0,
                    PushStrategy::TYPE_SPLIT => match kind {
                        TaskKind::SocketRead => n > 0,
                        TaskKind::SocketWrite => n > 1,
                        TaskKind::Other => n > 2,
                    },
                }
            },
            Queue::Stealing(q) => q.len() > 0,
        }
    }

    /// Whether there is a queue to serve `thread`.
    pub fn serves(&self, thread: u64) -> (b: bool)
        requires
            self.wf(),
        ensures
            b == self.can_serve(thread),
    {
        match self {
            Queue::SimpleGlobal(_) => true,
            Queue::ThreadUnique(q) => q.len() > 0 && match q.thread_slot(thread) {
                Some(i) => i < q.len(),
                None => true,
            },
            Queue::Stealing(q) => q.len() > 0 && match q.thread_slot(thread) {
                Some(i) => i < q.len(),
                None => true,
            },
        }
    }

    /// Whether `thread`, if registered, has a queue at its slot.
    pub fn finishes(&self, thread: u64) -> (b: bool)
        requires
            self.wf(),
        ensures
            b == self.can_finish(thread),
    {
        match self {
            Queue::SimpleGlobal(_) => true,
            Queue::ThreadUnique(q) => match q.thread_slot(thread) {
                Some(i) => i < q.len(),
                None => true,
            },
            Queue::Stealing(q) => match q.thread_slot(thread) {
                Some(i) => i < q.len(),
                None => true,
            },
        }
    }

    /// Adds a new task of kind `kind` and counts it.
    pub fn push(&mut self, task: T, kind: TaskKind)
        requires
            old(self).wf(),
            old(self).can_push(kind),
        ensures
            final(self).wf(),
            Self::pushed(*old(self), *final(self), task, kind),
    {
        match self {
            Queue::SimpleGlobal(q) => q.push(task),
            Queue::ThreadUnique(q) => q.push(task, kind),
            Queue::Stealing(q) => q.push(task),
        }
    }

    /// Puts back a task of kind `kind` that waits again.
    pub fn repush(&mut self, task: T, kind: TaskKind)
        requires
            old(self).wf(),
            old(self).can_push(kind),
        ensures
            final(self).wf(),
            Self::repushed(*old(self), *final(self), task, kind),
    {
        match self {
            Queue::SimpleGlobal(q) => q.repush(task),
            Queue::ThreadUnique(q) => q.repush(task, kind),
            Queue::Stealing(q) => q.repush(task),
        }
    }

    /// `thread` takes a task, or learns that none waits for it.
    pub fn pop(&mut self, thread: u64) -> (r: Result<T, TryRecvError>)
        requires
            old(self).wf(),
            old(self).can_serve(thread),
        ensures
            final(self).wf(),
            Self::popped(*old(self), *final(self), thread, r),
    {
        match self {
            Queue::SimpleGlobal(q) => q.pop(),
            Queue::ThreadUnique(q) => q.pop(thread),
            Queue::Stealing(q) => q.pop(thread),
        }
    }

    /// `thread` finished a task.
    pub fn done(&mut self, thread: u64)
        requires
            old(self).wf(),
            old(self).can_finish(thread),
        ensures
            final(self).wf(),
            Self::finished(*old(self), *final(self), thread),
    {
        match self {
            Queue::SimpleGlobal(q) => q.done(),
            Queue::ThreadUnique(q) => q.done(thread),
            Queue::Stealing(q) => q.done(thread),
        }
    }

    /// Whether no task is unfinished.
    pub fn can_stop(&mut self) -> (r: bool)
        ensures
            r == (old(self).counter() == 0),
            *final(self) == *old(self),
    {
        match self {
            Queue::SimpleGlobal(q) => q.can_stop(),
            Queue::ThreadUnique(q) => q.can_stop(),
            Queue::Stealing(q) => q.can_stop(),
        }
    }
}

/// The queue of the requested type, empty, with no unfinished task.
///
/// Stealing queues cannot be requested here yet: asking for one is a caller
/// error.
pub fn create_queue<T>(type_of_queue: TypeOfQueue) -> (q: Queue<T>)
    requires
        !(type_of_queue is StealingQueue),
    ensures
        q.wf(),
        q.counter() == 0,
        match type_of_queue {
            TypeOfQueue::SimpleGlobal => q matches Queue::SimpleGlobal(s) && s.pending() == Seq::<
                T,
            >::empty(),
            TypeOfQueue::ThreadUnique(num_threads, push_strategy) => q matches Queue::ThreadUnique(t)
                && t.strategy() == push_strategy && t.lanes().queues().len() == (if num_threads > 0 {
                num_threads as int
            } else {
                0
            }) && t.lanes().threads() == Seq::<u64>::empty() && (forall|i: int|
                0 <= i < t.lanes().queues().len() ==> #[trigger] t.lanes().queues()[i].pending()
                    == Seq::<T>::empty() && t.lanes().queues()[i].counter() == 0),
            TypeOfQueue::StealingQueue(_, _) => false,
        },
{
    match type_of_queue {
        TypeOfQueue::SimpleGlobal => Queue::SimpleGlobal(SingleGlobalQueue::new()),
        TypeOfQueue::ThreadUnique(num_threads, push_strategy) => Queue::ThreadUnique(
            ThreadLocalQueue::new(num_threads, push_strategy),
        ),
        TypeOfQueue::StealingQueue(_, _) => {
            // excluded by the precondition
            proof {
                assert(false);
            }
            Queue::SimpleGlobal(SingleGlobalQueue::new())
        },
    }
}

/// One operation on a scheduler queue, with what went in or came out.
pub enum SchedulerOp<T> {
    /// `push` of a new task of the given kind.
    Push(T, TaskKind),
    /// `repush` of a waiting task of the given kind.
    Repush(T, TaskKind),
    /// `pop` by the given worker, with its result.
    Pop(u64, Result<T, TryRecvError>),
    /// `done` by the given worker.
    Done(u64),
    /// `can_stop`, with its answer.
    CanStop(bool),
}

/// `new` and the answers recorded in `op` are what performing `op` on `old`
/// gives.
pub open spec fn scheduler_step<T>(old: Queue<T>, new: Queue<T>, op: SchedulerOp<T>) -> bool {
    match op {
        SchedulerOp::Push(t, k) => Queue::pushed(old, new, t, k),
        SchedulerOp::Repush(t, k) => Queue::repushed(old, new, t, k),
        SchedulerOp::Pop(w, r) => Queue::popped(old, new, w, r),
        SchedulerOp::Done(w) => Queue::finished(old, new, w),
        SchedulerOp::CanStop(b) => b == (old.counter() == 0) && new == old,
    }
}

/// `states[i + 1]` comes from `states[i]` by `ops[i]`, for every `i`.
pub open spec fn scheduler_run<T>(states: Seq<Queue<T>>, ops: Seq<SchedulerOp<T>>) -> bool {
    &&& states.len() == ops.len() + 1
    &&& forall|i: int| 0 <= i < ops.len() ==> #[trigger] scheduler_step(states[i], states[i + 1], ops[i])
}

/// Number of `push` operations in `ops`.
pub open spec fn scheduler_pushes<T>(ops: Seq<SchedulerOp<T>>) -> int
    decreases ops.len(),
{
    if ops.len() == 0 {
        0
    } else {
        scheduler_pushes(ops.drop_last()) + (if ops.last() is Push { 1int } else { 0int })
    }
}

/// Number of `done` operations in `ops`.
pub open spec fn scheduler_dones<T>(ops: Seq<SchedulerOp<T>>) -> int
    decreases ops.len(),
{
    if ops.len() == 0 {
        0
    } else {
        scheduler_dones(ops.drop_last()) + (if ops.last() is Done { 1int } else { 0int })
    }
}

/// What one operation does to the counter of unfinished tasks.
proof fn lemma_step_counter<T>(old: Queue<T>, new: Queue<T>, op: SchedulerOp<T>)
    requires
        scheduler_step(old, new, op),
    ensures
        new.counter() == match op {
            SchedulerOp::Push(_, _) => count_up(old.counter()),
            SchedulerOp::Done(_) => count_down(old.counter()),
            _ => old.counter(),
        },
{
    match op {
        SchedulerOp::Push(t, k) => {
            match (old, new) {
                (Queue::ThreadUnique(a), Queue::ThreadUnique(b)) => {
                    let j = choose|j: int|
                        #[trigger] crate::thread_local_queue::may_receive(a.strategy(), k, a.lanes().queues(), j)
                            && PerThreadQueues::pushed_into(a.lanes(), b.lanes(), j, t);
                },
                (Queue::Stealing(a), Queue::Stealing(b)) => {
                    let j = choose|j: int|
                        0 <= j < a.lanes().queues().len() && #[trigger] PerThreadQueues::pushed_into(
                            a.lanes(),
                            b.lanes(),
                            j,
                            t,
                        );
                },
                _ => {},
            }
        },
        SchedulerOp::Repush(t, k) => {
            match (old, new) {
                (Queue::ThreadUnique(a), Queue::ThreadUnique(b)) => {
                    let j = choose|j: int|
                        #[trigger] crate::thread_local_queue::may_receive(a.strategy(), k, a.lanes().queues(), j)
                            && PerThreadQueues::repushed_into(a.lanes(), b.lanes(), j, t);
                },
                (Queue::Stealing(a), Queue::Stealing(b)) => {
                    let j = choose|j: int|
                        0 <= j < a.lanes().queues().len() && #[trigger] PerThreadQueues::repushed_into(
                            a.lanes(),
                            b.lanes(),
                            j,
                            t,
                        );
                },
                _ => {},
            }
        },
        _ => {},
    }
}

/// Law: over any run of operations on a scheduler queue that starts with no
/// unfinished task (as `create_queue` makes it), the counter is the number of
/// pushes minus the number of dones, modulo 2^64, whichever workers take or
/// finish the tasks; `repush`, `pop` and `can_stop` do not move it.
pub proof fn law_scheduler_counter_counts_unfinished<T>(
    states: Seq<Queue<T>>,
    ops: Seq<SchedulerOp<T>>,
)
    requires
        scheduler_run(states, ops),
        states[0].counter() == 0,
    ensures
        states.last().counter() as int == (scheduler_pushes(ops) - scheduler_dones(ops))
            % 0x1_0000_0000_0000_0000,
    decreases ops.len(),
{
    if ops.len() > 0 {
        let n = ops.len() - 1;
        let s2 = states.drop_last();
        let o2 = ops.drop_last();
        assert forall|i: int| 0 <= i < o2.len() implies #[trigger] scheduler_step(
            s2[i],
            s2[i + 1],
            o2[i],
        ) by {
            assert(scheduler_step(states[i], states[i + 1], ops[i]));
        }
        law_scheduler_counter_counts_unfinished(s2, o2);
        assert(scheduler_step(states[n], states[n + 1], ops[n]));
        assert(s2.last() == states[n]);
        lemma_step_counter(states[n], states[n + 1], ops[n]);
        lemma_count_mod(states[n].counter(), scheduler_pushes(o2) - scheduler_dones(o2));
    }
}

/// Law: over such a run with never more dones than pushes in all (and fewer
/// than 2^64 unfinished tasks), the counter is exactly pushes minus dones, so
/// `can_stop` answers yes exactly when every pushed task was reported done.
pub proof fn law_scheduler_can_stop_when_all_done<T>(states: Seq<Queue<T>>, ops: Seq<SchedulerOp<T>>)
    requires
        scheduler_run(states, ops),
        states[0].counter() == 0,
        0 <= scheduler_pushes(ops) - scheduler_dones(ops) <= u64::MAX,
    ensures
        states.last().counter() == scheduler_pushes(ops) - scheduler_dones(ops),
        (states.last().counter() == 0) <==> (scheduler_pushes(ops) == scheduler_dones(ops)),
{
    law_scheduler_counter_counts_unfinished(states, ops);
    let x = scheduler_pushes(ops) - scheduler_dones(ops);
    vstd::arithmetic::div_mod::lemma_small_mod(x as nat, 0x1_0000_0000_0000_0000nat);
}

} // verus!
