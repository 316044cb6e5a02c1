//! Plain data of the task interface.
use vstd::prelude::*;

verus! {

/// Status of a task.
#[derive(Debug, Copy, Clone, Hash, Ord, PartialOrd, PartialEq, Eq)]
pub enum TaskCompletionStatus<T> {
    /// Task is pending for completion.
    Pending,
    /// Task has finished successfully.
    Completed(T),
    /// Task has been aborted.
    Aborted,
}

/// Id of a worker thread.
#[derive(Debug, Copy, Clone, Hash, Ord, PartialOrd, PartialEq, Eq, Structural)]
pub struct WorkerId(pub usize);

/// Function passed to the runtime when a task waits: data and the addresses
/// of its two callbacks.
#[derive(Copy, Clone, PartialEq, Eq, Structural)]
pub struct WaitOnFn {
    /// Data passed to the function.
    pub data: usize,
    /// Address of the callback that decides whether the task is put to sleep.
    pub validate: usize,
    /// Address of the function called after the task has been put to sleep.
    pub after_sleep: usize,
}

/// Function passed to the runtime when tasks are notified: data and the
/// address of the callback.
#[derive(Debug, Copy, Clone, Hash, Ord, PartialOrd, PartialEq, Eq, Structural)]
pub struct NotifyFn {
    /// Data passed to the function.
    pub data: usize,
    /// Address of the callback, called with the number of waiters and the data.
    pub function: usize,
}

} // verus!
