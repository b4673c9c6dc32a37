use task_scheduler::{PushStrategy, TaskKind, ThreadLocalQueue, TryRecvError};

#[test]
fn new_makes_the_requested_queues() {
    let q: ThreadLocalQueue<u32> = ThreadLocalQueue::new(4, PushStrategy::RANDOM);
    assert_eq!(q.len(), 4);
    assert_eq!(q.num_tasks(), 0);
    let none: ThreadLocalQueue<u32> = ThreadLocalQueue::new(-3, PushStrategy::RANDOM);
    assert_eq!(none.len(), 0);
}

#[test]
fn random_push_lands_in_exactly_one_queue() {
    let mut q = ThreadLocalQueue::new(3, PushStrategy::RANDOM);
    for i in 0..30 {
        q.push(i, TaskKind::Other);
    }
    let total: usize = (0..3).map(|i| q.queue_len(i)).sum();
    assert_eq!(total, 30);
    assert_eq!(q.num_tasks(), 30);
    let counted: u64 = (0..3).map(|i| q.queue_num_tasks(i)).sum();
    assert_eq!(counted, 30);
}

#[test]
fn shortest_fills_queues_evenly_in_order() {
    let mut q = ThreadLocalQueue::new(3, PushStrategy::SHORTEST);
    q.push(10, TaskKind::Other);
    assert_eq!(q.queue_len(0), 1);
    q.push(11, TaskKind::Other);
    assert_eq!(q.queue_len(1), 1);
    q.push(12, TaskKind::Other);
    assert_eq!(q.queue_len(2), 1);
    q.push(13, TaskKind::Other);
    assert_eq!(q.queue_len(0), 2);
    assert_eq!(q.shortest_queue(), 1);
}

#[test]
fn shortest_repush_does_not_count() {
    let mut q = ThreadLocalQueue::new(2, PushStrategy::SHORTEST);
    q.repush(1, TaskKind::Other);
    q.repush(2, TaskKind::Other);
    // counters stay at zero, so the first queue keeps being chosen
    assert_eq!(q.queue_len(0), 2);
    assert_eq!(q.queue_len(1), 0);
    assert_eq!(q.num_tasks(), 0);
}

#[test]
fn type_split_routes_by_kind() {
    let mut q = ThreadLocalQueue::new(4, PushStrategy::TYPE_SPLIT);
    q.push(1, TaskKind::SocketRead);
    q.push(2, TaskKind::SocketWrite);
    assert_eq!(q.queue_len(0), 1);
    assert_eq!(q.queue_len(1), 1);
    for i in 0..20 {
        q.push(i, TaskKind::Other);
    }
    assert_eq!(q.queue_len(0), 1);
    assert_eq!(q.queue_len(1), 1);
    assert_eq!(q.queue_len(2) + q.queue_len(3), 20);
}

#[test]
fn new_worker_registers_and_pops_from_last_queue() {
    let mut q = ThreadLocalQueue::new(3, PushStrategy::TYPE_SPLIT);
    q.push(100, TaskKind::SocketRead); // queue 0
    q.push(200, TaskKind::SocketWrite); // queue 1
    assert_eq!(q.thread_slot(77), None);
    // first pop of worker 77: served from the last queue, which is empty
    assert_eq!(q.pop(77), Err(TryRecvError::Empty));
    assert_eq!(q.thread_slot(77), Some(0));
    // from now on worker 77 is served from queue 0
    assert_eq!(q.pop(77), Ok(100));
    // worker 88 registers at slot 1
    assert_eq!(q.pop(88), Err(TryRecvError::Empty));
    assert_eq!(q.thread_slot(88), Some(1));
    assert_eq!(q.pop(88), Ok(200));
}

#[test]
fn done_counts_down_global_and_own_queue() {
    let mut q = ThreadLocalQueue::new(2, PushStrategy::SHORTEST);
    q.push(1, TaskKind::Other);
    q.push(2, TaskKind::Other);
    // an unregistered worker only lowers the global counter
    q.done(5);
    assert_eq!(q.num_tasks(), 1);
    assert_eq!(q.queue_num_tasks(0), 1);
    assert_eq!(q.queue_num_tasks(1), 1);
    let _ = q.pop(5); // registers worker 5 at slot 0
    q.done(5);
    assert_eq!(q.num_tasks(), 0);
    assert_eq!(q.queue_num_tasks(0), 0);
    assert!(q.can_stop());
}

#[test]
fn random_push_reaches_every_queue() {
    let mut q = ThreadLocalQueue::new(3, PushStrategy::RANDOM);
    for i in 0..300 {
        q.push(i, TaskKind::Other);
    }
    for i in 0..3 {
        assert!(q.queue_len(i) > 0);
    }
}

#[test]
fn type_split_spreads_other_tasks_over_the_rest() {
    let mut q = ThreadLocalQueue::new(4, PushStrategy::TYPE_SPLIT);
    for i in 0..200 {
        q.push(i, TaskKind::Other);
    }
    assert!(q.queue_len(2) > 0);
    assert!(q.queue_len(3) > 0);
}
