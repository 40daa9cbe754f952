//! Kernel tasks.
use vstd::prelude::*;

verus! {

/// Identifier of a task.
pub type TaskId = usize;

/// The life-cycle state of a task.
#[derive(Debug, Clone, Copy, PartialEq, Eq, Structural)]
pub enum TaskState {
    New,
    Ready,
    Running,
    Blocked,
    Zombie,
}

/// A kernel task: its identity, its scheduling state and the machine state
/// needed to resume it.
#[derive(Debug)]
pub struct Task {
    pub id: TaskId,
    pub parent_id: TaskId,
    pub state: TaskState,
    /// Saved kernel stack pointer, from which a context switch resumes the task.
    pub kernel_stack: usize,
    /// Top of the task's kernel stack.
    pub kernel_stack_top: usize,
    pub stack_size: usize,
    /// Physical address of the task's top-level page table.
    pub cr3: usize,
    pub instruction_pointer: usize,
    /// Ticks left in the current time slice.
    pub time_slice: usize,
    /// Length of a full time slice.
    pub time_slice_max: usize,
    /// Number of time slices the task has used up.
    pub ticks_run: u64,
    pub name: &'static str,
}

/// The task with its state replaced by `s`.
pub open spec fn with_state(t: Task, s: TaskState) -> Task {
    Task { state: s, ..t }
}

impl Task {
    /// Marks the task ready to run.
    pub fn set_ready(&mut self)
        ensures
            *final(self) == with_state(*old(self), TaskState::Ready),
    {
        self.state = TaskState::Ready;
    }

    /// Marks the task running.
    pub fn set_running(&mut self)
        ensures
            *final(self) == with_state(*old(self), TaskState::Running),
    {
        self.state = TaskState::Running;
    }

    /// Marks the task blocked.
    pub fn set_blocked(&mut self)
        ensures
            *final(self) == with_state(*old(self), TaskState::Blocked),
    {
        self.state = TaskState::Blocked;
    }

    /// Whether the task can be scheduled: it is ready or running.
    pub fn is_runnable(&self) -> (r: bool)
        ensures
            r == (self.state == TaskState::Ready || self.state == TaskState::Running),
    {
        self.state == TaskState::Ready || self.state == TaskState::Running
    }
}

} // verus!
