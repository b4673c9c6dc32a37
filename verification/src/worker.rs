use vstd::prelude::*;

verus! {

/// What a worker thread has just observed.
#[derive(Debug, Clone, Copy, PartialEq, Eq, Structural)]
pub enum WorkerEvent {
    /// Taking from the queue gave a task.
    GotTask,
    /// Taking from the queue found it empty.
    QueueEmpty,
    /// Taking from the queue found the producing side gone.
    QueueDisconnected,
    /// Polling the task completed it.
    TaskReady,
    /// Polling the task left it waiting (it re-schedules itself).
    TaskPending,
    /// The idle check: whether no task is unfinished, and whether shutdown
    /// was requested.
    IdleCheck { can_stop: bool, shutdown: bool },
}

/// What a worker thread does next.
#[derive(Debug, Clone, Copy, PartialEq, Eq, Structural)]
pub enum WorkerAction {
    /// Poll the task it holds.
    Poll,
    /// Report the task as finished to the queue.
    MarkDone,
    /// Ask whether it may stop (unfinished count and shutdown flag).
    CheckIdle,
    /// Go back to taking from the queue.
    Continue,
    /// Leave the loop; the thread ends.
    Exit,
}

/// The decision of a worker loop: a task that was taken is polled; a task
/// that completed is reported done; a pending task is let go (it comes back
/// through its own reschedule); an empty queue leads to the idle check, which
/// ends the worker only when no task is unfinished and shutdown was
/// requested; a disconnected queue ends the worker at once.
pub fn next_action(event: WorkerEvent) -> (a: WorkerAction)
    ensures
        a == match event {
            WorkerEvent::GotTask => WorkerAction::Poll,
            WorkerEvent::QueueEmpty => WorkerAction::CheckIdle,
            WorkerEvent::QueueDisconnected => WorkerAction::Exit,
            WorkerEvent::TaskReady => WorkerAction::MarkDone,
            WorkerEvent::TaskPending => WorkerAction::Continue,
            WorkerEvent::IdleCheck { can_stop, shutdown } => if can_stop && shutdown {
                WorkerAction::Exit
            } else {
                WorkerAction::Continue
            },
        },
{
    match event {
        WorkerEvent::GotTask => WorkerAction::Poll,
        WorkerEvent::QueueEmpty => WorkerAction::CheckIdle,
        WorkerEvent::QueueDisconnected => WorkerAction::Exit,
        WorkerEvent::TaskReady => WorkerAction::MarkDone,
        WorkerEvent::TaskPending => WorkerAction::Continue,
        WorkerEvent::IdleCheck { can_stop, shutdown } => {
            if can_stop && shutdown {
                WorkerAction::Exit
            } else {
                WorkerAction::Continue
            }
        },
    }
}

} // verus!
