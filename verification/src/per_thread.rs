use vstd::prelude::*;
use vstd::multiset::Multiset;
use crate::single_queue::{SingleGlobalQueue, TryRecvError, count_up, count_down};

verus! {

/// A row of task queues, one per worker thread, with a global counter of
/// unfinished tasks.
///
/// A worker is known by a number. The first time a worker takes a task it is
/// registered in the next free slot and served from the last queue; from then
/// on it is always served from the queue at its slot.
pub struct PerThreadQueues<T> {
    queues: Vec<SingleGlobalQueue<T>>,
    thread_nos: Vec<u64>,
    num_tasks: u64,
}

impl<T> PerThreadQueues<T> {
    /// The queues, in slot order.
    pub closed spec fn queues(&self) -> Seq<SingleGlobalQueue<T>> {
        self.queues@
    }

    /// The registered workers, in the order in which they first took a task.
    pub closed spec fn threads(&self) -> Seq<u64> {
        self.thread_nos@
    }

    /// Number of tasks that were pushed and are not yet done (modulo 2^64).
    pub closed spec fn counter(&self) -> u64 {
        self.num_tasks
    }

    /// No worker is registered twice.
    pub open spec fn wf(&self) -> bool {
        self.threads().no_duplicates()
    }

    /// The slot of a registered worker.
    pub open spec fn slot(&self, thread: u64) -> int {
        self.threads().index_of(thread)
    }

    /// The queue that serves `thread` on its next `pop`: its own slot once it is
    /// registered, else the last queue.
    pub open spec fn serving_queue(&self, thread: u64) -> int {
        if self.threads().contains(thread) {
            self.slot(thread)
        } else {
            self.queues().len() - 1
        }
    }

    /// A worker that is registered has a queue at its slot.
    pub open spec fn slot_in_range(&self, thread: u64) -> bool {
        self.threads().contains(thread) ==> self.slot(thread) < self.queues().len()
    }

    /// `new` equals `old` but for queue `j`, which is `q`.
    pub open spec fn only_queue_changed(old: Self, new: Self, j: int, q: SingleGlobalQueue<T>) -> bool {
        &&& 0 <= j < old.queues().len()
        &&& new.queues() == old.queues().update(j, q)
        &&& new.threads() == old.threads()
    }

    /// `new` is `old` after `task` went as a new task into queue `j`.
    pub open spec fn pushed_into(old: Self, new: Self, j: int, task: T) -> bool {
        &&& 0 <= j < old.queues().len()
        &&& Self::only_queue_changed(old, new, j, new.queues()[j])
        &&& SingleGlobalQueue::pushed(old.queues()[j], new.queues()[j], task)
        &&& new.counter() == count_up(old.counter())
    }

    /// `new` is `old` after `task` was put back into queue `j`.
    pub open spec fn repushed_into(old: Self, new: Self, j: int, task: T) -> bool {
        &&& 0 <= j < old.queues().len()
        &&& Self::only_queue_changed(old, new, j, new.queues()[j])
        &&& SingleGlobalQueue::repushed(old.queues()[j], new.queues()[j], task)
        &&& new.counter() == old.counter()
    }

    /// `new` and `r` are what `thread` taking a task from `old` gives.
    pub open spec fn popped(old: Self, new: Self, thread: u64, r: Result<T, TryRecvError>) -> bool {
        let j = old.serving_queue(thread);
        &&& new.threads() == (if old.threads().contains(thread) {
            old.threads()
        } else {
            old.threads().push(thread)
        })
        &&& 0 <= j < old.queues().len()
        &&& new.queues() == old.queues().update(j, new.queues()[j])
        &&& SingleGlobalQueue::popped(old.queues()[j], new.queues()[j], r)
        &&& new.counter() == old.counter()
    }

    /// `new` is `old` after `thread` finished a task: the global counter goes
    /// down, and so does the counter of the worker's own queue if it has one.
    pub open spec fn finished(old: Self, new: Self, thread: u64) -> bool {
        &&& new.threads() == old.threads()
        &&& new.counter() == count_down(old.counter())
        &&& if old.threads().contains(thread) {
            let j = old.slot(thread);
            &&& 0 <= j < old.queues().len()
            &&& new.queues() == old.queues().update(j, new.queues()[j])
            &&& SingleGlobalQueue::finished(old.queues()[j], new.queues()[j])
        } else {
            new.queues() == old.queues()
        }
    }

    /// `count` empty queues (none when `count` is not positive), no worker
    /// registered, no unfinished task.
    pub fn new(count: i32) -> (r: Self)
        ensures
            r.wf(),
            r.queues().len() == (if count > 0 { count as int } else { 0 }),
            forall|i: int|
                0 <= i < r.queues().len() ==> #[trigger] r.queues()[i].pending() == Seq::<T>::empty()
                    && r.queues()[i].counter() == 0,
            r.threads() == Seq::<u64>::empty(),
            r.counter() == 0,
    {
        let mut queues: Vec<SingleGlobalQueue<T>> = Vec::new();
        let mut i: i32 = 0;
        while i < count
            invariant
                0 <= i,
                count > 0 ==> i <= count,
                count <= 0 ==> i == 0,
                queues@.len() == i,
                forall|k: int|
                    0 <= k < queues@.len() ==> #[trigger] queues@[k].pending() == Seq::<T>::empty()
                        && queues@[k].counter() == 0,
            decreases count - i,
        {
            queues.push(SingleGlobalQueue::new());
            i = i + 1;
        }
        PerThreadQueues { queues, thread_nos: Vec::new(), num_tasks: 0 }
    }

    /// Number of queues.
    pub fn len(&self) -> (n: usize)
        ensures
            n == self.queues().len(),
    {
        self.queues.len()
    }

    /// Reads the number of unfinished tasks of queue `index`.
    pub fn queue_num_tasks(&self, index: usize) -> (n: u64)
        requires
            index < self.queues().len(),
        ensures
            n == self.queues()[index as int].counter(),
    {
        self.queues[index].num_tasks()
    }

    /// Number of waiting tasks in queue `index`.
    pub fn queue_len(&self, index: usize) -> (n: usize)
        requires
            index < self.queues().len(),
        ensures
            n == self.queues()[index as int].pending().len(),
    {
        self.queues[index].len()
    }

    /// Reads the global number of unfinished tasks.
    pub fn num_tasks(&self) -> (n: u64)
        ensures
            n == self.counter(),
    {
        self.num_tasks
    }

    /// Number of registered workers.
    pub fn thread_count(&self) -> (n: usize)
        ensures
            n == self.threads().len(),
    {
        self.thread_nos.len()
    }

    /// The slot of `thread`, if it is registered.
    pub fn thread_slot(&self, thread: u64) -> (r: Option<usize>)
        requires
            self.wf(),
        ensures
            match r {
                Some(i) => self.threads().contains(thread) && i == self.slot(thread),
                None => !self.threads().contains(thread),
            },
    {
        let n = self.thread_nos.len();
        let mut i: usize = 0;
        while i < n
            invariant
                self.wf(),
                n == self.threads().len(),
                i <= n,
                forall|k: int| 0 <= k < i ==> self.threads()[k] != thread,
            decreases n - i,
        {
            if self.thread_nos[i] == thread {
                proof {
                    assert(self.threads()[i as int] == thread);
                    assert(self.threads().contains(thread));
                    let j = self.slot(thread);
                    assert(0 <= j < n && self.threads()[j] == thread);
                }
                return Some(i);
            }
            i = i + 1;
        }
        None
    }

    /// Puts `task` as a new task into queue `index` and counts it.
    pub fn push_into(&mut self, index: usize, task: T)
        requires
            old(self).wf(),
            index < old(self).queues().len(),
        ensures
            final(self).wf(),
            Self::pushed_into(*old(self), *final(self), index as int, task),
    {
        self.queues[index].push(task);
        self.num_tasks = if self.num_tasks == u64::MAX { 0 } else { self.num_tasks + 1 };
    }

    /// Puts `task`, which waits again, back into queue `index`.
    pub fn repush_into(&mut self, index: usize, task: T)
        requires
            old(self).wf(),
            index < old(self).queues().len(),
        ensures
            final(self).wf(),
            Self::repushed_into(*old(self), *final(self), index as int, task),
    {
        self.queues[index].repush(task);
    }

    /// `thread` takes a task from the queue that serves it, registering it
    /// first if it is new.
    pub fn pop(&mut self, thread: u64) -> (r: Result<T, TryRecvError>)
        requires
            old(self).wf(),
            old(self).queues().len() > 0,
            old(self).slot_in_range(thread),
        ensures
            final(self).wf(),
            Self::popped(*old(self), *final(self), thread, r),
    {
        match self.thread_slot(thread) {
            Some(i) => self.queues[i].pop(),
            None => {
                self.thread_nos.push(thread);
                let last = self.queues.len() - 1;
                self.queues[last].pop()
            },
        }
    }

    /// `thread` finished a task.
    pub fn done(&mut self, thread: u64)
        requires
            old(self).wf(),
            old(self).slot_in_range(thread),
        ensures
            final(self).wf(),
            Self::finished(*old(self), *final(self), thread),
    {
        match self.thread_slot(thread) {
            Some(i) => {
                self.num_tasks = if self.num_tasks == 0 { u64::MAX } else { self.num_tasks - 1 };
                self.queues[i].done();
            },
            None => {
                self.num_tasks = if self.num_tasks == 0 { u64::MAX } else { self.num_tasks - 1 };
            },
        }
    }

    /// Whether no task is unfinished.
    pub fn can_stop(&mut self) -> (r: bool)
        ensures
            r == (old(self).counter() == 0),
            *final(self) == *old(self),
    {
        self.num_tasks == 0
    }
}

/// All tasks that wait in the queues `qs`, counted with multiplicity.
pub open spec fn all_pending<T>(qs: Seq<SingleGlobalQueue<T>>) -> Multiset<T>
    decreases qs.len(),
{
    if qs.len() == 0 {
        Multiset::empty()
    } else {
        all_pending(qs.drop_last()).add(qs.last().pending().to_multiset())
    }
}

/// Replacing one queue changes the tasks of all queues by what it changes in
/// that queue.
proof fn lemma_all_pending_update<T>(qs: Seq<SingleGlobalQueue<T>>, j: int, q: SingleGlobalQueue<T>)
    requires
        0 <= j < qs.len(),
    ensures
        all_pending(qs.update(j, q)).add(qs[j].pending().to_multiset()) =~= all_pending(qs).add(
            q.pending().to_multiset(),
        ),
    decreases qs.len(),
{
    let u = qs.update(j, q);
    let lhs = all_pending(u).add(qs[j].pending().to_multiset());
    let rhs = all_pending(qs).add(q.pending().to_multiset());
    if j == qs.len() - 1 {
        assert(u.drop_last() =~= qs.drop_last());
        assert(u.last() == q);
        assert forall|x: T| #[trigger] lhs.count(x) == rhs.count(x) by {}
    } else {
        assert(u.drop_last() =~= qs.drop_last().update(j, q));
        lemma_all_pending_update(qs.drop_last(), j, q);
        assert(u.last() == qs.last());
        let inner_l = all_pending(u.drop_last()).add(qs[j].pending().to_multiset());
        let inner_r = all_pending(qs.drop_last()).add(q.pending().to_multiset());
        assert forall|x: T| #[trigger] lhs.count(x) == rhs.count(x) by {
            assert(inner_l.count(x) == inner_r.count(x));
        }
    }
    assert(lhs =~= rhs);
}

/// Law (no task is lost or duplicated): pushing or putting back a task adds
/// exactly that task to the tasks that wait in all queues.
pub proof fn law_push_adds_task<T>(old: PerThreadQueues<T>, new: PerThreadQueues<T>, j: int, task: T)
    requires
        PerThreadQueues::pushed_into(old, new, j, task) || PerThreadQueues::repushed_into(
            old,
            new,
            j,
            task,
        ),
    ensures
        all_pending(new.queues()) =~= all_pending(old.queues()).insert(task),
{
    broadcast use vstd::seq_lib::group_to_multiset_ensures;

    let q = new.queues()[j];
    lemma_all_pending_update(old.queues(), j, q);
    assert(new.queues() =~= old.queues().update(j, q));
    assert(q.pending().to_multiset() =~= old.queues()[j].pending().to_multiset().insert(task));
    let n = all_pending(new.queues());
    let o = all_pending(old.queues());
    let a = old.queues()[j].pending().to_multiset();
    let b = q.pending().to_multiset();
    assert(n.add(a) == o.add(b));
    assert forall|x: T| #[trigger] n.count(x) == o.insert(task).count(x) by {
        assert(n.add(a).count(x) == o.add(b).count(x));
    }
}

/// Law (no task is lost or duplicated): a task taken by a worker was waiting
/// in one of the queues and leaves them; when no task is taken, nothing
/// changes.
pub proof fn law_pop_removes_task<T>(
    old: PerThreadQueues<T>,
    new: PerThreadQueues<T>,
    thread: u64,
    r: Result<T, TryRecvError>,
)
    requires
        PerThreadQueues::popped(old, new, thread, r),
    ensures
        match r {
            Ok(t) => all_pending(old.queues()).count(t) > 0 && all_pending(new.queues())
                =~= all_pending(old.queues()).remove(t),
            Err(_) => all_pending(new.queues()) =~= all_pending(old.queues()),
        },
{
    broadcast use vstd::seq_lib::group_to_multiset_ensures;

    let j = old.serving_queue(thread);
    let q = new.queues()[j];
    lemma_all_pending_update(old.queues(), j, q);
    assert(new.queues() =~= old.queues().update(j, q));
    let p = old.queues()[j].pending();
    match r {
        Ok(t) => {
            assert(p.drop_first() =~= p.remove(0));
            assert(q.pending().to_multiset() =~= p.to_multiset().remove(t));
            assert(p.to_multiset().count(t) > 0);
            let n = all_pending(new.queues());
            let o = all_pending(old.queues());
            let a = p.to_multiset();
            let b = q.pending().to_multiset();
            assert(n.add(a) == o.add(b));
            assert(o.add(b).count(t) > 0);
            assert forall|x: T| #[trigger] n.count(x) == o.remove(t).count(x) by {
                assert(n.add(a).count(x) == o.add(b).count(x));
            }
        },
        Err(_) => {
            assert(q.pending() == p);
            let n = all_pending(new.queues());
            let o = all_pending(old.queues());
            let a = p.to_multiset();
            assert(n.add(a) == o.add(a));
            assert forall|x: T| #[trigger] n.count(x) == o.count(x) by {
                assert(n.add(a).count(x) == o.add(a).count(x));
            }
        },
    }
}

/// Law (affinity): after taking from the queues, a worker is registered; its
/// slot is the one it had, or, the first time, the number of workers
/// registered before it. The slots of the other workers do not change.
pub proof fn law_worker_keeps_slot<T>(
    old: PerThreadQueues<T>,
    new: PerThreadQueues<T>,
    thread: u64,
    r: Result<T, TryRecvError>,
)
    requires
        old.wf(),
        new.wf(),
        PerThreadQueues::popped(old, new, thread, r),
    ensures
        new.threads().contains(thread),
        new.slot(thread) == (if old.threads().contains(thread) {
            old.slot(thread)
        } else {
            old.threads().len() as int
        }),
        forall|other: u64|
            #[trigger] old.threads().contains(other) ==> new.threads().contains(other) && new.slot(
                other,
            ) == old.slot(other),
{
    if !old.threads().contains(thread) {
        assert(new.threads()[old.threads().len() as int] == thread);
    }
    assert forall|other: u64| #[trigger] old.threads().contains(other) implies new.threads().contains(
        other,
    ) && new.slot(other) == old.slot(other) by {
        let i = old.slot(other);
        assert(new.threads()[i] == other);
    }
}

/// Law: pushing a task into a queue and then finishing one (by any worker)
/// leaves the global counter as it was.
pub proof fn law_push_done_restores_global_counter<T>(
    q0: PerThreadQueues<T>,
    q1: PerThreadQueues<T>,
    q2: PerThreadQueues<T>,
    j: int,
    task: T,
    thread: u64,
)
    requires
        PerThreadQueues::pushed_into(q0, q1, j, task),
        PerThreadQueues::finished(q1, q2, thread),
    ensures
        q2.counter() == q0.counter(),
{
    crate::single_queue::law_count_round_trip(q0.counter());
}

} // verus!
