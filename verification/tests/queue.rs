use task_scheduler::{
    create_queue, PushStrategy, Queue, StealingQueue, TaskKind, TryRecvError, TypeOfQueue,
};

#[test]
fn create_simple_global_queue() {
    let mut q: Queue<u32> = create_queue(TypeOfQueue::SimpleGlobal);
    assert!(matches!(q, Queue::SimpleGlobal(_)));
    assert!(q.can_stop());
    assert!(q.accepts(TaskKind::Other));
    q.push(3, TaskKind::Other);
    assert!(!q.can_stop());
    assert!(q.serves(9));
    assert_eq!(q.pop(9), Ok(3));
    q.done(9);
    assert!(q.can_stop());
}

#[test]
fn create_thread_unique_queue() {
    let q: Queue<u32> = create_queue(TypeOfQueue::ThreadUnique(8, PushStrategy::RANDOM));
    match &q {
        Queue::ThreadUnique(t) => {
            assert_eq!(t.len(), 8);
            assert_eq!(t.push_strategy(), PushStrategy::RANDOM);
        }
        _ => panic!("wrong queue type"),
    }
}

#[test]
fn type_split_with_too_few_queues_refuses_other_tasks() {
    let q: Queue<u32> = create_queue(TypeOfQueue::ThreadUnique(2, PushStrategy::TYPE_SPLIT));
    assert!(q.accepts(TaskKind::SocketRead));
    assert!(q.accepts(TaskKind::SocketWrite));
    assert!(!q.accepts(TaskKind::Other));
    let none: Queue<u32> = create_queue(TypeOfQueue::ThreadUnique(0, PushStrategy::SHORTEST));
    assert!(!none.accepts(TaskKind::Other));
    assert!(!none.serves(1));
}

#[test]
fn more_workers_than_queues_are_not_served() {
    let mut q: Queue<u32> = create_queue(TypeOfQueue::ThreadUnique(1, PushStrategy::SHORTEST));
    assert!(q.serves(1));
    assert_eq!(q.pop(1), Err(TryRecvError::Empty)); // worker 1 at slot 0
    assert!(q.serves(2));
    assert_eq!(q.pop(2), Err(TryRecvError::Empty)); // worker 2 at slot 1: no queue
    assert!(q.serves(1));
    assert!(!q.serves(2));
    assert!(!q.finishes(2));
    assert!(q.finishes(3));
}

#[test]
fn stealing_queue_conserves_tasks() {
    let mut q = StealingQueue::new(3);
    for i in 0..12 {
        q.push(i);
    }
    q.repush(99);
    let total: usize = (0..3).map(|i| q.queue_len(i)).sum();
    assert_eq!(total, 13);
    assert_eq!(q.num_tasks(), 12);
    assert!(!q.can_stop());
    let mut seen = Vec::new();
    for w in 0..3u64 {
        loop {
            match q.pop(w) {
                Ok(t) => seen.push(t),
                Err(_) => break,
            }
        }
    }
    // worker 0 was first served from the last queue, then from queue 0, and so on:
    // every queue is drained by some worker
    for w in 0..3u64 {
        while let Ok(t) = q.pop(w) {
            seen.push(t);
        }
    }
    seen.sort();
    let mut expected: Vec<i32> = (0..12).collect();
    expected.push(99);
    assert_eq!(seen, expected);
}

#[test]
fn scheduler_counter_is_pushes_minus_dones_across_workers() {
    let mut q: Queue<u32> = create_queue(TypeOfQueue::ThreadUnique(3, PushStrategy::SHORTEST));
    for i in 0..9 {
        q.push(i, TaskKind::Other);
    }
    q.repush(100, TaskKind::Other);
    let mut done = 0;
    for w in 1..=3u64 {
        while let Ok(t) = q.pop(w) {
            // the task that was only put back is not counted, so it is not reported done
            if t != 100 {
                q.done(w);
                done += 1;
            }
            assert_eq!(q.can_stop(), done == 9);
        }
    }
    // an unregistered worker finishing a task counts too
    q.push(7, TaskKind::Other);
    assert!(!q.can_stop());
    q.done(42);
    assert!(q.can_stop());
}
