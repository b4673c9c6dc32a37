use task_scheduler::{SingleGlobalQueue, TryRecvError};

#[test]
fn new_queue_is_empty_and_can_stop() {
    let mut q: SingleGlobalQueue<u32> = SingleGlobalQueue::new();
    assert_eq!(q.len(), 0);
    assert_eq!(q.num_tasks(), 0);
    assert!(q.can_stop());
    assert_eq!(q.pop(), Err(TryRecvError::Empty));
}

#[test]
fn tasks_come_out_first_in_first_out() {
    let mut q = SingleGlobalQueue::new();
    q.push(1);
    q.push(2);
    q.repush(3);
    assert_eq!(q.pop(), Ok(1));
    q.push(4);
    assert_eq!(q.pop(), Ok(2));
    assert_eq!(q.pop(), Ok(3));
    assert_eq!(q.pop(), Ok(4));
    assert_eq!(q.pop(), Err(TryRecvError::Empty));
}

#[test]
fn push_counts_repush_does_not() {
    let mut q = SingleGlobalQueue::new();
    q.push("a");
    q.repush("b");
    assert_eq!(q.num_tasks(), 1);
    assert_eq!(q.len(), 2);
    assert!(!q.can_stop());
}

#[test]
fn push_then_done_restores_counter() {
    let mut q = SingleGlobalQueue::new();
    q.push(7u8);
    q.push(8u8);
    let _ = q.pop();
    q.done();
    assert_eq!(q.num_tasks(), 1);
    q.done();
    assert_eq!(q.num_tasks(), 0);
    assert!(q.can_stop());
}

#[test]
fn done_on_zero_wraps_like_an_atomic() {
    let mut q: SingleGlobalQueue<()> = SingleGlobalQueue::new();
    q.done();
    assert_eq!(q.num_tasks(), u64::MAX);
    assert!(!q.can_stop());
    q.push(());
    assert_eq!(q.num_tasks(), 0);
    assert!(q.can_stop());
}

#[test]
fn pop_does_not_change_counter() {
    let mut q = SingleGlobalQueue::new();
    q.push(5);
    assert_eq!(q.pop(), Ok(5));
    assert_eq!(q.num_tasks(), 1);
}

#[test]
fn arc_gives_an_empty_locked_queue() {
    let shared = SingleGlobalQueue::<i32>::arc();
    let mut guard = shared.lock().unwrap();
    assert_eq!(guard.len(), 0);
    assert!(guard.can_stop());
}

#[test]
fn counter_is_pushes_minus_dones_over_any_interleaving() {
    let mut q = SingleGlobalQueue::new();
    let (mut p, mut d) = (0u64, 0u64);
    for i in 0..50u32 {
        match i % 5 {
            0 | 3 => {
                q.push(i);
                p += 1;
            }
            1 => q.repush(i),
            2 => {
                let _ = q.pop();
            }
            _ => {
                if d < p {
                    q.done();
                    d += 1;
                }
            }
        }
        assert_eq!(q.num_tasks(), p - d);
        assert_eq!(q.can_stop(), p == d);
    }
    while d < p {
        q.done();
        d += 1;
    }
    assert!(q.can_stop());
}
