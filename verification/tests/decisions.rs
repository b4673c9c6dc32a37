use task_scheduler::{
    intake, next_action, read_step, write_step, Intake, Received, SocketStep, StreamRegistry,
    WorkerAction, WorkerEvent,
};

#[test]
fn worker_polls_taken_tasks_and_reports_ready_ones() {
    assert_eq!(next_action(WorkerEvent::GotTask), WorkerAction::Poll);
    assert_eq!(next_action(WorkerEvent::TaskReady), WorkerAction::MarkDone);
    assert_eq!(next_action(WorkerEvent::TaskPending), WorkerAction::Continue);
}

#[test]
fn worker_stops_only_when_idle_and_shut_down() {
    assert_eq!(next_action(WorkerEvent::QueueEmpty), WorkerAction::CheckIdle);
    assert_eq!(
        next_action(WorkerEvent::IdleCheck { can_stop: true, shutdown: true }),
        WorkerAction::Exit
    );
    assert_eq!(
        next_action(WorkerEvent::IdleCheck { can_stop: true, shutdown: false }),
        WorkerAction::Continue
    );
    assert_eq!(
        next_action(WorkerEvent::IdleCheck { can_stop: false, shutdown: true }),
        WorkerAction::Continue
    );
    assert_eq!(next_action(WorkerEvent::QueueDisconnected), WorkerAction::Exit);
}

#[test]
fn read_future_steps() {
    assert_eq!(read_step(true, true), SocketStep::Ready);
    assert_eq!(read_step(true, false), SocketStep::Ready);
    assert_eq!(read_step(false, true), SocketStep::Reschedule);
    assert_eq!(read_step(false, false), SocketStep::Ready);
}

#[test]
fn write_future_steps() {
    assert_eq!(write_step(true), SocketStep::Ready);
    assert_eq!(write_step(false), SocketStep::Reschedule);
}

#[test]
fn poller_intake() {
    assert_eq!(intake(Received::Stream), Intake::Register);
    assert_eq!(intake(Received::Empty), Intake::Skip);
    assert_eq!(intake(Received::Disconnected), Intake::Exit);
}

#[test]
fn read_tokens_count_up_without_gaps() {
    let mut reg: StreamRegistry<&str, u8> = StreamRegistry::new();
    assert_eq!(reg.add_read_stream("a"), 0);
    assert_eq!(reg.add_read_stream("b"), 1);
    assert_eq!(reg.add_read_stream("c"), 2);
    assert!(reg.has_read_stream(2));
    assert!(!reg.has_read_stream(3));
    let (r, w) = reg.on_event(1, true, false, false, false);
    assert_eq!(r, Some(&"b"));
    assert_eq!(w, None);
}

#[test]
fn write_tokens_follow_the_read_count() {
    let mut reg: StreamRegistry<&str, u8> = StreamRegistry::new();
    assert_eq!(reg.add_write_stream(1), 0);
    assert_eq!(reg.add_write_stream(2), 0); // replaces the first
    let (_, w) = reg.on_event(0, false, false, true, false);
    assert_eq!(w, Some(&2));
    assert_eq!(reg.add_read_stream("x"), 0);
    assert_eq!(reg.add_write_stream(3), 1);
    assert!(reg.has_write_stream(1));
}

#[test]
fn closed_events_schedule_nothing() {
    let mut reg: StreamRegistry<&str, u8> = StreamRegistry::new();
    reg.add_read_stream("a");
    reg.add_write_stream(9);
    let (r, w) = reg.on_event(0, true, true, false, false);
    assert_eq!((r, w), (None, None));
    let (r, w) = reg.on_event(0, true, false, false, false);
    assert_eq!(r, Some(&"a"));
    assert_eq!(w, None);
    // the write request took token 1, the number of read streams
    let (_, w) = reg.on_event(1, false, false, true, true);
    assert_eq!(w, None);
    let (_, w) = reg.on_event(1, false, false, true, false);
    assert_eq!(w, Some(&9));
}
