//! A durable, time-triggered task scheduler: the rules of a task's lifecycle,
//! the time-ordered wait queue, the per-task executors' decisions and the
//! recovery plan that repopulates the queue after a restart.

pub mod lifecycle;
pub mod task;
pub mod timing;
pub mod queue;
pub mod executor;
pub mod hashing;
pub mod create;
pub mod recovery;
pub mod dispatch;
