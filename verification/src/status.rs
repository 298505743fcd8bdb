use vstd::prelude::*;

verus! {

/// Lifecycle state of a task.
#[derive(Clone, Copy, Debug, PartialEq, Eq, Structural)]
pub enum TaskStatus {
    Pending,
    InProgress,
    Completed,
    Failed,
}

impl TaskStatus {
    /// Completed and Failed are terminal: no transition leaves them.
    pub open spec fn is_terminal(self) -> bool {
        self is Completed || self is Failed
    }
}

/// The edges of the lifecycle state machine, taken reflexively:
/// Pending -> InProgress -> {Completed, Failed}, and nothing else.
pub open spec fn status_can_advance(pre: TaskStatus, post: TaskStatus) -> bool {
    ||| pre == post
    ||| (pre is Pending && post is InProgress)
    ||| (pre is InProgress && post is Completed)
    ||| (pre is InProgress && post is Failed)
}

} // verus!
