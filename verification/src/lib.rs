//! Task queues, scheduling decisions and stream bookkeeping of a small
//! multi-threaded executor for futures.
pub mod fib;
pub mod per_thread;
pub mod poller;
pub mod queue;
mod rng;
pub mod single_queue;
pub mod socket;
pub mod stealing_queue;
mod sync;
pub mod thread_local_queue;
pub mod worker;

pub use fib::fibonacci;
pub use per_thread::PerThreadQueues;
pub use poller::{intake, Intake, Received, StreamRegistry};
pub use queue::{create_queue, Queue, TypeOfQueue};
pub use single_queue::{SingleGlobalQueue, TryRecvError};
pub use socket::{read_step, write_step, SocketStep};
pub use stealing_queue::StealingQueue;
pub use thread_local_queue::{PushStrategy, TaskKind, ThreadLocalQueue};
pub use worker::{next_action, WorkerAction, WorkerEvent};
