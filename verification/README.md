# task_scheduler

The scheduling core of a small executor for futures, verified with Verus.

- `src/single_queue.rs`: a first-in first-out task queue with a wrapping
  counter of unfinished tasks.
- `src/per_thread.rs`: one queue per worker thread, worker registration by
  slot, and the laws that no task is lost or duplicated and that a worker keeps
  its slot.
- `src/thread_local_queue.rs`, `src/stealing_queue.rs`: queues filled by a
  push strategy (random, shortest, split by task type) or at random.
- `src/queue.rs`: the queue an executor uses, and `create_queue`.
- `src/worker.rs`, `src/socket.rs`, `src/poller.rs`: the decisions of the
  worker loop, of the socket futures and of the readiness poller, and the
  poller's table of streams by token.
- `src/fib.rs`: the benchmark workload.
- `app/`: threads, sockets, polling and the benchmark program around the
  library.
