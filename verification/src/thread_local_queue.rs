use vstd::prelude::*;
use std::sync::{Arc, Mutex};
use crate::per_thread::PerThreadQueues;
use crate::rng::random_index;
use crate::single_queue::{SingleGlobalQueue, TryRecvError};
use crate::sync::new_mutex;

verus! {

/// How a new or returning task picks its queue.
#[allow(non_camel_case_types)]
#[derive(Debug, Clone, Copy, PartialEq, Eq, Structural)]
pub enum PushStrategy {
    /// A queue drawn uniformly at random.
    RANDOM,
    /// The first of the queues with the fewest unfinished tasks.
    SHORTEST,
    /// Socket reads to queue 0, socket writes to queue 1, anything else to a
    /// queue drawn at random among the others.
    TYPE_SPLIT,
}

/// What a task is, as far as `PushStrategy::TYPE_SPLIT` cares.
#[derive(Debug, Clone, Copy, PartialEq, Eq, Structural)]
pub enum TaskKind {
    /// A future that reads from a socket.
    SocketRead,
    /// A future that writes to a socket.
    SocketWrite,
    /// Any other future.
    Other,
}

/// `j` is the first of the queues in `qs` with the fewest unfinished tasks.
pub open spec fn is_shortest<T>(qs: Seq<SingleGlobalQueue<T>>, j: int) -> bool {
    &&& 0 <= j < qs.len()
    &&& forall|k: int| 0 <= k < qs.len() ==> qs[j].counter() <= #[trigger] qs[k].counter()
    &&& forall|k: int| 0 <= k < j ==> qs[j].counter() < #[trigger] qs[k].counter()
}

/// Under `strategy`, a task of kind `kind` may go to queue `j` of `qs`.
pub open spec fn may_receive<T>(
    strategy: PushStrategy,
    kind: TaskKind,
    qs: Seq<SingleGlobalQueue<T>>,
    j: int,
) -> bool {
    match strategy {
        PushStrategy::RANDOM => 0 <= j < qs.len(),
        PushStrategy::SHORTEST => is_shortest(qs, j),
        PushStrategy::TYPE_SPLIT => match kind {
            TaskKind::SocketRead => j == 0 && qs.len() > 0,
            TaskKind::SocketWrite => j == 1 && qs.len() > 1,
            TaskKind::Other => 2 <= j < qs.len(),
        },
    }
}

/// Under `strategy`, `len` queues leave a place for a task of kind `kind`.
pub open spec fn can_place(strategy: PushStrategy, kind: TaskKind, len: int) -> bool {
    match strategy {
        PushStrategy::RANDOM => len > 0,
        PushStrategy::SHORTEST => len > 0,
        PushStrategy::TYPE_SPLIT => match kind {
            TaskKind::SocketRead => len > 0,
            TaskKind::SocketWrite => len > 1,
            TaskKind::Other => len > 2,
        },
    }
}

/// The range `[low, high)` from which the queue for a task of kind `kind` is
/// drawn under `strategy` with `len` queues, or `None` when the queue does not
/// depend on a draw.
pub open spec fn draw_range(strategy: PushStrategy, kind: TaskKind, len: int) -> Option<(int, int)> {
    match strategy {
        PushStrategy::RANDOM => Some((0, len)),
        PushStrategy::SHORTEST => None,
        PushStrategy::TYPE_SPLIT => match kind {
            TaskKind::Other => Some((2, len)),
            _ => None,
        },
    }
}

/// `draw` is a number that the draw for a task of kind `kind` can give.
pub open spec fn draw_fits(strategy: PushStrategy, kind: TaskKind, len: int, draw: int) -> bool {
    match draw_range(strategy, kind, len) {
        Some((low, high)) => low <= draw < high,
        None => true,
    }
}

/// The first of the queues with the fewest unfinished tasks.
pub open spec fn first_shortest<T>(qs: Seq<SingleGlobalQueue<T>>) -> int {
    choose|j: int| is_shortest(qs, j)
}

/// The queue that a task of kind `kind` goes to under `strategy`, given the
/// number `draw` drawn for it: the drawn number itself where the strategy
/// draws, the fixed queue otherwise.
pub open spec fn target_queue<T>(
    strategy: PushStrategy,
    kind: TaskKind,
    qs: Seq<SingleGlobalQueue<T>>,
    draw: int,
) -> int {
    match strategy {
        PushStrategy::RANDOM => draw,
        PushStrategy::SHORTEST => first_shortest(qs),
        PushStrategy::TYPE_SPLIT => match kind {
            TaskKind::SocketRead => 0,
            TaskKind::SocketWrite => 1,
            TaskKind::Other => draw,
        },
    }
}

/// Law: the first shortest queue is unique, and exists whenever there is a
/// queue.
pub proof fn law_first_shortest<T>(qs: Seq<SingleGlobalQueue<T>>, j: int)
    ensures
        qs.len() > 0 ==> is_shortest(qs, first_shortest(qs)),
        is_shortest(qs, j) ==> j == first_shortest(qs),
{
    if qs.len() > 0 {
        lemma_shortest_exists(qs, qs.len() as int);
        assert(qs.take(qs.len() as int) =~= qs);
        let w = choose|w: int| #[trigger] is_shortest(qs.take(qs.len() as int), w);
        assert(is_shortest(qs, w));
    }
    if is_shortest(qs, j) {
        let f = first_shortest(qs);
        assert(is_shortest(qs, f));
        if f < j {
            assert(qs[j].counter() < qs[f].counter());
        } else if j < f {
            assert(qs[f].counter() < qs[j].counter());
        }
    }
}

/// Among the first `n` queues there is a first shortest one.
proof fn lemma_shortest_exists<T>(qs: Seq<SingleGlobalQueue<T>>, n: int)
    requires
        0 < n <= qs.len(),
    ensures
        exists|j: int| #[trigger] is_shortest(qs.take(n), j),
    decreases n,
{
    if n == 1 {
        assert(is_shortest(qs.take(1), 0));
    } else {
        lemma_shortest_exists(qs, n - 1);
        let j = choose|j: int| #[trigger] is_shortest(qs.take(n - 1), j);
        let p = qs.take(n - 1);
        let t = qs.take(n);
        assert(forall|k: int| 0 <= k < n - 1 ==> #[trigger] t[k] == p[k]);
        if qs[n - 1].counter() < qs[j].counter() {
            assert(is_shortest(t, n - 1));
        } else {
            assert(is_shortest(t, j));
        }
    }
}

/// Law: the queue a draw leads to is one the strategy allows, and every queue
/// the strategy allows is reached by some draw; under `RANDOM`, and under
/// `TYPE_SPLIT` for other tasks, the drawn number is the queue.
pub proof fn law_draws_reach_exactly_the_allowed_queues<T>(
    strategy: PushStrategy,
    kind: TaskKind,
    qs: Seq<SingleGlobalQueue<T>>,
    draw: int,
    j: int,
)
    requires
        can_place(strategy, kind, qs.len() as int),
    ensures
        draw_fits(strategy, kind, qs.len() as int, draw) ==> may_receive(
            strategy,
            kind,
            qs,
            target_queue(strategy, kind, qs, draw),
        ),
        may_receive(strategy, kind, qs, j) ==> draw_fits(strategy, kind, qs.len() as int, j)
            && target_queue(strategy, kind, qs, j) == j,
        draw_range(strategy, kind, qs.len() as int) is Some ==> target_queue(
            strategy,
            kind,
            qs,
            draw,
        ) == draw,
{
    law_first_shortest(qs, j);
}

/// One queue per worker; new tasks are spread over them by a `PushStrategy`.
pub struct ThreadLocalQueue<T> {
    push_strategy: PushStrategy,
    queues: PerThreadQueues<T>,
}

impl<T> ThreadLocalQueue<T> {
    /// The strategy the queue was made with.
    pub closed spec fn strategy(&self) -> PushStrategy {
        self.push_strategy
    }

    /// The queues and the registered workers.
    pub closed spec fn lanes(&self) -> PerThreadQueues<T> {
        self.queues
    }

    /// No worker is registered twice.
    pub open spec fn wf(&self) -> bool {
        self.lanes().wf()
    }

    /// `new` is `old` after `task`, of kind `kind`, went as a new task into one
    /// of the queues that the strategy allows.
    pub open spec fn pushed(old: Self, new: Self, task: T, kind: TaskKind) -> bool {
        &&& new.strategy() == old.strategy()
        &&& exists|j: int|
            #[trigger] may_receive(old.strategy(), kind, old.lanes().queues(), j)
                && PerThreadQueues::pushed_into(old.lanes(), new.lanes(), j, task)
    }

    /// `new` is `old` after `task`, of kind `kind`, was put back into one of
    /// the queues that the strategy allows.
    pub open spec fn repushed(old: Self, new: Self, task: T, kind: TaskKind) -> bool {
        &&& new.strategy() == old.strategy()
        &&& exists|j: int|
            #[trigger] may_receive(old.strategy(), kind, old.lanes().queues(), j)
                && PerThreadQueues::repushed_into(old.lanes(), new.lanes(), j, task)
    }

    /// `queues_no` empty queues (none when it is not positive) and the given
    /// strategy.
    pub fn new(queues_no: i32, push_strategy: PushStrategy) -> (r: Self)
        ensures
            r.wf(),
            r.strategy() == push_strategy,
            r.lanes().queues().len() == (if queues_no > 0 { queues_no as int } else { 0 }),
            forall|i: int|
                0 <= i < r.lanes().queues().len() ==> #[trigger] r.lanes().queues()[i].pending()
                    == Seq::<T>::empty() && r.lanes().queues()[i].counter() == 0,
            r.lanes().threads() == Seq::<u64>::empty(),
            r.lanes().counter() == 0,
    {
        ThreadLocalQueue { push_strategy, queues: PerThreadQueues::new(queues_no) }
    }

    /// A new queue behind a shared lock.
    ///
    /// The queue is the one `new` makes with the same arguments; that the lock
    /// holds it is not stated, since a `std::sync::Mutex` is opaque to Verus.
    pub fn arc(queues_no: i32, push_strategy: PushStrategy) -> Arc<Mutex<Self>> {
        Arc::new(new_mutex(Self::new(queues_no, push_strategy)))
    }

    /// The index of the first queue with the fewest unfinished tasks.
    pub fn shortest_queue(&self) -> (j: usize)
        requires
            self.lanes().queues().len() > 0,
        ensures
            is_shortest(self.lanes().queues(), j as int),
    {
        let n = self.queues.len();
        let mut j: usize = 0;
        let mut min_len = self.queues.queue_num_tasks(0);
        let mut i: usize = 1;
        while i < n
            invariant
                n == self.lanes().queues().len(),
                1 <= i <= n,
                j < i,
                min_len == self.lanes().queues()[j as int].counter(),
                is_shortest(self.lanes().queues().take(i as int), j as int),
            decreases n - i,
        {
            let cur_len = self.queues.queue_num_tasks(i);
            if cur_len < min_len {
                j = i;
                min_len = cur_len;
            }
            i = i + 1;
        }
        assert(self.lanes().queues().take(n as int) =~= self.lanes().queues());
        j
    }

    /// Draws the number that picks the queue for a task of kind `kind`, where
    /// the strategy draws one (from the whole range `draw_range` gives), and
    /// gives 0 where it does not.
    fn draw(&self, kind: TaskKind) -> (d: usize)
        requires
            can_place(self.strategy(), kind, self.lanes().queues().len() as int),
        ensures
            draw_fits(self.strategy(), kind, self.lanes().queues().len() as int, d as int),
    {
        match self.push_strategy {
            PushStrategy::RANDOM => random_index(0, self.queues.len()),
            PushStrategy::SHORTEST => 0,
            PushStrategy::TYPE_SPLIT => match kind {
                TaskKind::Other => random_index(2, self.queues.len()),
                _ => 0,
            },
        }
    }

    /// The queue for a task of kind `kind`, given the number `draw` drawn for
    /// it.
    fn pick_queue(&self, kind: TaskKind, draw: usize) -> (j: usize)
        requires
            can_place(self.strategy(), kind, self.lanes().queues().len() as int),
            draw_fits(self.strategy(), kind, self.lanes().queues().len() as int, draw as int),
        ensures
            j == target_queue(self.strategy(), kind, self.lanes().queues(), draw as int),
            j < self.lanes().queues().len(),
    {
        proof {
            law_draws_reach_exactly_the_allowed_queues(
                self.strategy(),
                kind,
                self.lanes().queues(),
                draw as int,
                0,
            );
        }
        match self.push_strategy {
            PushStrategy::RANDOM => draw,
            PushStrategy::SHORTEST => {
                let j = self.shortest_queue();
                proof {
                    law_first_shortest(self.lanes().queues(), j as int);
                }
                j
            },
            PushStrategy::TYPE_SPLIT => match kind {
                TaskKind::SocketRead => 0,
                TaskKind::SocketWrite => 1,
                TaskKind::Other => draw,
            },
        }
    }

    /// Adds a new task, of kind `kind`, to the queue that the strategy picks
    /// with the number `draw` drawn for it, and counts it: under `RANDOM`, and
    /// under `TYPE_SPLIT` for other tasks, the drawn queue itself.
    pub fn push_drawn(&mut self, task: T, kind: TaskKind, draw: usize)
        requires
            old(self).wf(),
            can_place(old(self).strategy(), kind, old(self).lanes().queues().len() as int),
            draw_fits(old(self).strategy(), kind, old(self).lanes().queues().len() as int, draw as int),
        ensures
            final(self).wf(),
            final(self).strategy() == old(self).strategy(),
            PerThreadQueues::pushed_into(
                old(self).lanes(),
                final(self).lanes(),
                target_queue(old(self).strategy(), kind, old(self).lanes().queues(), draw as int),
                task,
            ),
    {
        let j = self.pick_queue(kind, draw);
        self.queues.push_into(j, task);
    }

    /// Puts a task, of kind `kind`, that waits again into the queue that the
    /// strategy picks with the number `draw` drawn for it.
    pub fn repush_drawn(&mut self, task: T, kind: TaskKind, draw: usize)
        requires
            old(self).wf(),
            can_place(old(self).strategy(), kind, old(self).lanes().queues().len() as int),
            draw_fits(old(self).strategy(), kind, old(self).lanes().queues().len() as int, draw as int),
        ensures
            final(self).wf(),
            final(self).strategy() == old(self).strategy(),
            PerThreadQueues::repushed_into(
                old(self).lanes(),
                final(self).lanes(),
                target_queue(old(self).strategy(), kind, old(self).lanes().queues(), draw as int),
                task,
            ),
    {
        let j = self.pick_queue(kind, draw);
        self.queues.repush_into(j, task);
    }

    /// Adds a new task to the queue that the strategy picks, and counts it.
    pub fn push(&mut self, task: T, kind: TaskKind)
        requires
            old(self).wf(),
            can_place(old(self).strategy(), kind, old(self).lanes().queues().len() as int),
        ensures
            final(self).wf(),
            Self::pushed(*old(self), *final(self), task, kind),
            exists|d: int|
                #[trigger] draw_fits(old(self).strategy(), kind, old(self).lanes().queues().len() as int, d)
                    && PerThreadQueues::pushed_into(
                    old(self).lanes(),
                    final(self).lanes(),
                    target_queue(old(self).strategy(), kind, old(self).lanes().queues(), d),
                    task,
                ),
    {
        let d = self.draw(kind);
        self.push_drawn(task, kind, d);
        proof {
            let qs = old(self).lanes().queues();
            law_draws_reach_exactly_the_allowed_queues(old(self).strategy(), kind, qs, d as int, 0);
            let j = target_queue(old(self).strategy(), kind, qs, d as int);
            assert(may_receive(old(self).strategy(), kind, qs, j));
            assert(draw_fits(old(self).strategy(), kind, qs.len() as int, d as int));
        }
    }

    /// Puts a task that waits again into the queue that the strategy picks.
    pub fn repush(&mut self, task: T, kind: TaskKind)
        requires
            old(self).wf(),
            can_place(old(self).strategy(), kind, old(self).lanes().queues().len() as int),
        ensures
            final(self).wf(),
            Self::repushed(*old(self), *final(self), task, kind),
            exists|d: int|
                #[trigger] draw_fits(old(self).strategy(), kind, old(self).lanes().queues().len() as int, d)
                    && PerThreadQueues::repushed_into(
                    old(self).lanes(),
                    final(self).lanes(),
                    target_queue(old(self).strategy(), kind, old(self).lanes().queues(), d),
                    task,
                ),
    {
        let d = self.draw(kind);
        self.repush_drawn(task, kind, d);
        proof {
            let qs = old(self).lanes().queues();
            law_draws_reach_exactly_the_allowed_queues(old(self).strategy(), kind, qs, d as int, 0);
            let j = target_queue(old(self).strategy(), kind, qs, d as int);
            assert(may_receive(old(self).strategy(), kind, qs, j));
            assert(draw_fits(old(self).strategy(), kind, qs.len() as int, d as int));
        }
    }

    /// `thread` takes a task from the queue that serves it.
    pub fn pop(&mut self, thread: u64) -> (r: Result<T, TryRecvError>)
        requires
            old(self).wf(),
            old(self).lanes().queues().len() > 0,
            old(self).lanes().slot_in_range(thread),
        ensures
            final(self).wf(),
            final(self).strategy() == old(self).strategy(),
            PerThreadQueues::popped(old(self).lanes(), final(self).lanes(), thread, r),
    {
        self.queues.pop(thread)
    }

    /// `thread` finished a task.
    pub fn done(&mut self, thread: u64)
        requires
            old(self).wf(),
            old(self).lanes().slot_in_range(thread),
        ensures
            final(self).wf(),
            final(self).strategy() == old(self).strategy(),
            PerThreadQueues::finished(old(self).lanes(), final(self).lanes(), thread),
    {
        self.queues.done(thread)
    }

    /// Whether no task is unfinished.
    pub fn can_stop(&mut self) -> (r: bool)
        ensures
            r == (old(self).lanes().counter() == 0),
            *final(self) == *old(self),
    {
        self.queues.can_stop()
    }

    /// The slot of `thread`, if it is registered.
    pub fn thread_slot(&self, thread: u64) -> (r: Option<usize>)
        requires
            self.wf(),
        ensures
            match r {
                Some(i) => self.lanes().threads().contains(thread) && i == self.lanes().slot(thread),
                None => !self.lanes().threads().contains(thread),
            },
    {
        self.queues.thread_slot(thread)
    }

    /// The strategy the queue was made with.
    pub fn push_strategy(&self) -> (s: PushStrategy)
        ensures
            s == self.strategy(),
    {
        self.push_strategy
    }

    /// Number of waiting tasks in queue `index`.
    pub fn queue_len(&self, index: usize) -> (n: usize)
        requires
            index < self.lanes().queues().len(),
        ensures
            n == self.lanes().queues()[index as int].pending().len(),
    {
        self.queues.queue_len(index)
    }

    /// Reads the number of unfinished tasks counted by queue `index`.
    pub fn queue_num_tasks(&self, index: usize) -> (n: u64)
        requires
            index < self.lanes().queues().len(),
        ensures
            n == self.lanes().queues()[index as int].counter(),
    {
        self.queues.queue_num_tasks(index)
    }

    /// Reads the global number of unfinished tasks.
    pub fn num_tasks(&self) -> (n: u64)
        ensures
            n == self.lanes().counter(),
    {
        self.queues.num_tasks()
    }

    /// Number of queues.
    pub fn len(&self) -> (n: usize)
        ensures
            n == self.lanes().queues().len(),
    {
        self.queues.len()
    }
}

} // verus!
