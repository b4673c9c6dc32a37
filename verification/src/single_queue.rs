use vstd::prelude::*;
use std::collections::VecDeque;
use std::sync::{Arc, Mutex};
use crate::sync::new_mutex;

verus! {

/// Why taking a task from a queue produced none.
#[derive(Debug, Clone, Copy, PartialEq, Eq, Structural)]
pub enum TryRecvError {
    /// No task is waiting.
    Empty,
    /// The producing side is gone. The queues of this crate own both ends, so
    /// they never answer this; it stays for the workers' sake.
    Disconnected,
}

/// The task counter after one more task was registered: `fetch_add(1)` on a
/// 64-bit counter, which wraps around.
pub open spec fn count_up(n: u64) -> u64 {
    if n == u64::MAX { 0 } else { (n + 1) as u64 }
}

/// The task counter after one task was finished: `fetch_sub(1)` on a 64-bit
/// counter, which wraps around.
pub open spec fn count_down(n: u64) -> u64 {
    if n == 0 { u64::MAX } else { (n - 1) as u64 }
}

/// One first-in first-out queue of tasks with a counter of unfinished tasks.
///
/// Tasks come out in the order in which they went in. The counter goes up on
/// every `push` (a new task), not on `repush` (a task that is waiting again),
/// and goes down on every `done`.
pub struct SingleGlobalQueue<T> {
    num_tasks: u64,
    tasks: VecDeque<T>,
}

impl<T> SingleGlobalQueue<T> {
    /// The tasks that wait in the queue, the next one to be taken first.
    pub closed spec fn pending(&self) -> Seq<T> {
        self.tasks@
    }

    /// Number of tasks that were pushed and are not yet done (modulo 2^64).
    pub closed spec fn counter(&self) -> u64 {
        self.num_tasks
    }

    /// `new` is the state after `task` was pushed onto `old` as a new task.
    pub open spec fn pushed(old: Self, new: Self, task: T) -> bool {
        &&& new.pending() == old.pending().push(task)
        &&& new.counter() == count_up(old.counter())
    }

    /// `new` is the state after `task` was put back onto `old`.
    pub open spec fn repushed(old: Self, new: Self, task: T) -> bool {
        &&& new.pending() == old.pending().push(task)
        &&& new.counter() == old.counter()
    }

    /// `new` and `r` are what taking a task from `old` gives: the first task if
    /// there is one, `Empty` otherwise.
    pub open spec fn popped(old: Self, new: Self, r: Result<T, TryRecvError>) -> bool {
        &&& new.counter() == old.counter()
        &&& match r {
            Ok(t) => {
                &&& old.pending().len() > 0
                &&& t == old.pending()[0]
                &&& new.pending() == old.pending().drop_first()
            },
            Err(e) => {
                &&& e == TryRecvError::Empty
                &&& old.pending().len() == 0
                &&& new.pending() == old.pending()
            },
        }
    }

    /// `new` is the state after one task of `old` was finished.
    pub open spec fn finished(old: Self, new: Self) -> bool {
        &&& new.pending() == old.pending()
        &&& new.counter() == count_down(old.counter())
    }

    /// An empty queue with no unfinished task.
    pub fn new() -> (q: Self)
        ensures
            q.pending() == Seq::<T>::empty(),
            q.counter() == 0,
    {
        SingleGlobalQueue { num_tasks: 0, tasks: VecDeque::new() }
    }

    /// A new empty queue behind a shared lock.
    ///
    /// The queue is the one `new` makes with the same arguments; that the lock
    /// holds it is not stated, since a `std::sync::Mutex` is opaque to Verus.
    pub fn arc() -> Arc<Mutex<Self>> {
        Arc::new(new_mutex(Self::new()))
    }

    /// Adds a new task at the back and counts it as unfinished.
    pub fn push(&mut self, task: T)
        ensures
            Self::pushed(*old(self), *final(self), task),
    {
        self.repush(task);
        self.num_tasks = if self.num_tasks == u64::MAX { 0 } else { self.num_tasks + 1 };
    }

    /// Puts a task that is waiting again at the back; the counter stays.
    pub fn repush(&mut self, task: T)
        ensures
            Self::repushed(*old(self), *final(self), task),
    {
        self.tasks.push_back(task);
    }

    /// Takes the task at the front, or answers `Empty`.
    pub fn pop(&mut self) -> (r: Result<T, TryRecvError>)
        ensures
            Self::popped(*old(self), *final(self), r),
    {
        match self.tasks.pop_front() {
            Some(task) => Ok(task),
            None => Err(TryRecvError::Empty),
        }
    }

    /// Counts one task as finished.
    pub fn done(&mut self)
        ensures
            Self::finished(*old(self), *final(self)),
    {
        self.num_tasks = if self.num_tasks == 0 { u64::MAX } else { self.num_tasks - 1 };
    }

    /// Reads the number of unfinished tasks.
    pub fn num_tasks(&self) -> (n: u64)
        ensures
            n == self.counter(),
    {
        self.num_tasks
    }

    /// Number of waiting tasks.
    pub fn len(&self) -> (n: usize)
        ensures
            n == self.pending().len(),
    {
        self.tasks.len()
    }

    /// Whether no task is unfinished.
    pub fn can_stop(&mut self) -> (r: bool)
        ensures
            r == (old(self).counter() == 0),
            *final(self) == *old(self),
    {
        self.num_tasks == 0
    }
}

/// Law (first in, first out): a task taken right after a task went in is the
/// oldest waiting task, or the one that went in if none waited; the others keep
/// their order behind it.
pub proof fn law_fifo<T>(
    q0: SingleGlobalQueue<T>,
    q1: SingleGlobalQueue<T>,
    q2: SingleGlobalQueue<T>,
    task: T,
    r: Result<T, TryRecvError>,
)
    requires
        SingleGlobalQueue::pushed(q0, q1, task) || SingleGlobalQueue::repushed(q0, q1, task),
        SingleGlobalQueue::popped(q1, q2, r),
    ensures
        r matches Ok(t) && t == (if q0.pending().len() > 0 { q0.pending()[0] } else { task }),
        q2.pending() == (if q0.pending().len() > 0 {
            q0.pending().drop_first().push(task)
        } else {
            Seq::<T>::empty()
        }),
{
    if q0.pending().len() > 0 {
        assert(q2.pending() =~= q0.pending().drop_first().push(task));
    } else {
        assert(q2.pending() =~= Seq::<T>::empty());
    }
}

/// Law: finishing a task undoes the count of pushing one, and the other way
/// round, also across the wrap-around of the counter.
pub proof fn law_count_round_trip(n: u64)
    ensures
        count_down(count_up(n)) == n,
        count_up(count_down(n)) == n,
{
}

/// Law: pushing a task and then finishing one leaves the counter as it was;
/// putting a task back leaves it unchanged.
pub proof fn law_push_done_restores_counter<T>(
    q0: SingleGlobalQueue<T>,
    q1: SingleGlobalQueue<T>,
    q2: SingleGlobalQueue<T>,
    task: T,
)
    requires
        SingleGlobalQueue::pushed(q0, q1, task),
        SingleGlobalQueue::finished(q1, q2),
    ensures
        q2.counter() == q0.counter(),
        q2.pending() == q0.pending().push(task),
{
    law_count_round_trip(q0.counter());
}

/// One operation on a queue, with what went in or came out.
pub enum QueueOp<T> {
    /// `push` of a new task.
    Push(T),
    /// `repush` of a waiting task.
    Repush(T),
    /// `pop`, with its result.
    Pop(Result<T, TryRecvError>),
    /// `done`.
    Done,
    /// `can_stop`, with its answer.
    CanStop(bool),
}

/// `new` and the answers recorded in `op` are what performing `op` on `old`
/// gives.
pub open spec fn queue_step<T>(old: SingleGlobalQueue<T>, new: SingleGlobalQueue<T>, op: QueueOp<T>) -> bool {
    match op {
        QueueOp::Push(t) => SingleGlobalQueue::pushed(old, new, t),
        QueueOp::Repush(t) => SingleGlobalQueue::repushed(old, new, t),
        QueueOp::Pop(r) => SingleGlobalQueue::popped(old, new, r),
        QueueOp::Done => SingleGlobalQueue::finished(old, new),
        QueueOp::CanStop(b) => b == (old.counter() == 0) && new == old,
    }
}

/// `states[i + 1]` comes from `states[i]` by `ops[i]`, for every `i`.
pub open spec fn queue_run<T>(states: Seq<SingleGlobalQueue<T>>, ops: Seq<QueueOp<T>>) -> bool {
    &&& states.len() == ops.len() + 1
    &&& forall|i: int| 0 <= i < ops.len() ==> #[trigger] queue_step(states[i], states[i + 1], ops[i])
}

/// Number of `push` operations in `ops`.
pub open spec fn count_pushes<T>(ops: Seq<QueueOp<T>>) -> int
    decreases ops.len(),
{
    if ops.len() == 0 {
        0
    } else {
        count_pushes(ops.drop_last()) + (if ops.last() is Push { 1int } else { 0int })
    }
}

/// Number of `done` operations in `ops`.
pub open spec fn count_dones<T>(ops: Seq<QueueOp<T>>) -> int
    decreases ops.len(),
{
    if ops.len() == 0 {
        0
    } else {
        count_dones(ops.drop_last()) + (if ops.last() is Done { 1int } else { 0int })
    }
}

/// The counter moves as the number of unfinished tasks modulo 2^64.
pub(crate) proof fn lemma_count_mod(c: u64, x: int)
    requires
        c as int == x % 0x1_0000_0000_0000_0000,
    ensures
        count_up(c) as int == (x + 1) % 0x1_0000_0000_0000_0000,
        count_down(c) as int == (x - 1) % 0x1_0000_0000_0000_0000,
{
    let m: int = 0x1_0000_0000_0000_0000;
    let q = x / m;
    assert(x == q * m + c);
    assert((x + 1) == q * m + (c + 1));
    assert((x - 1) == q * m + (c - 1));
    if c + 1 < m {
        vstd::arithmetic::div_mod::lemma_fundamental_div_mod_converse(x + 1, m, q, c + 1);
    } else {
        vstd::arithmetic::div_mod::lemma_fundamental_div_mod_converse(x + 1, m, q + 1, 0);
    }
    if c >= 1 {
        vstd::arithmetic::div_mod::lemma_fundamental_div_mod_converse(x - 1, m, q, c - 1);
    } else {
        vstd::arithmetic::div_mod::lemma_fundamental_div_mod_converse(x - 1, m, q - 1, m - 1);
    }
}

/// Law: over any run of operations on a queue that starts with no unfinished
/// task (as `new` makes it), the counter is the number of pushes minus the
/// number of dones, modulo 2^64; `repush`, `pop` and `can_stop` do not move it.
pub proof fn law_counter_counts_unfinished<T>(
    states: Seq<SingleGlobalQueue<T>>,
    ops: Seq<QueueOp<T>>,
)
    requires
        queue_run(states, ops),
        states[0].counter() == 0,
    ensures
        states.last().counter() as int == (count_pushes(ops) - count_dones(ops))
            % 0x1_0000_0000_0000_0000,
    decreases ops.len(),
{
    if ops.len() == 0 {
    } else {
        let n = ops.len() - 1;
        let s2 = states.drop_last();
        let o2 = ops.drop_last();
        assert forall|i: int| 0 <= i < o2.len() implies #[trigger] queue_step(s2[i], s2[i + 1], o2[i]) by {
            assert(queue_step(states[i], states[i + 1], ops[i]));
        }
        law_counter_counts_unfinished(s2, o2);
        let x = count_pushes(o2) - count_dones(o2);
        assert(queue_step(states[n], states[n + 1], ops[n]));
        assert(s2.last() == states[n]);
        lemma_count_mod(states[n].counter(), x);
    }
}

/// Law: over such a run with never more dones than pushes in all (and fewer
/// than 2^64 unfinished tasks), the counter is exactly pushes minus dones, and
/// `can_stop` answers yes exactly when every pushed task was reported done.
pub proof fn law_can_stop_when_all_done<T>(states: Seq<SingleGlobalQueue<T>>, ops: Seq<QueueOp<T>>)
    requires
        queue_run(states, ops),
        states[0].counter() == 0,
        0 <= count_pushes(ops) - count_dones(ops) <= u64::MAX,
    ensures
        states.last().counter() == count_pushes(ops) - count_dones(ops),
        (states.last().counter() == 0) <==> (count_pushes(ops) == count_dones(ops)),
{
    law_counter_counts_unfinished(states, ops);
    let x = count_pushes(ops) - count_dones(ops);
    vstd::arithmetic::div_mod::lemma_small_mod(x as nat, 0x1_0000_0000_0000_0000nat);
}

} // verus!
