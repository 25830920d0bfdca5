//! Tasks: their life-cycle states, their saved contexts, and the round-robin
//! task manager.
use vstd::prelude::*;

pub mod context;
pub mod manager;

use manager::{switch_to, TaskManager, TaskSwitch};

verus! {

/// The life-cycle state of a task.
#[derive(Copy, Clone, PartialEq, Eq, Structural, Debug)]
pub enum TaskStatus {
    /// The slot holds no application.
    UnInit,
    /// Ready to run, waiting for the processor.
    Suspended,
    /// Currently running.
    Running,
    /// Finished; it never runs again.
    Exited,
}

/// A task's control block: its state and its saved kernel context.
#[derive(Copy, Clone, Debug)]
pub struct TaskControlBlock {
    pub task_status: TaskStatus,
    pub task_cx: context::TaskContext,
}

/// Marks the current task of `manager` suspended.
pub fn mark_current_suspended(manager: &mut TaskManager)
    requires
        old(manager).wf(),
    ensures
        final(manager).wf(),
        final(manager)@ == old(manager)@.with_status(old(manager)@.current as int, TaskStatus::Suspended),
        final(manager).contexts() == old(manager).contexts(),
{
    manager.mark_current_suspended();
}

/// Marks the current task of `manager` exited.
pub fn mark_current_exited(manager: &mut TaskManager)
    requires
        old(manager).wf(),
    ensures
        final(manager).wf(),
        final(manager)@ == old(manager)@.with_status(old(manager)@.current as int, TaskStatus::Exited),
        final(manager).contexts() == old(manager).contexts(),
{
    manager.mark_current_exited();
}

/// Decides which task of `manager` runs next (see [`TaskManager::run_next_task`]).
pub fn run_next_task(manager: &mut TaskManager) -> (r: TaskSwitch)
    requires
        old(manager).wf(),
        old(manager)@.next_task() is Some,
    ensures
        final(manager).wf(),
        final(manager)@ == old(manager)@.run_next(),
        final(manager).contexts() == old(manager).contexts(),
        r == switch_to(old(manager)@.current, old(manager)@.next_task()),
        r.current == old(manager)@.current,
        r.next == final(manager)@.current,
        final(manager)@.statuses[r.next as int] == TaskStatus::Running,
{
    manager.run_next_task()
}

/// Starts task 0 of `manager`; returns the task to switch to.
pub fn run_first_task(manager: &mut TaskManager) -> (first: usize)
    requires
        old(manager).wf(),
    ensures
        final(manager).wf(),
        first == 0,
        final(manager)@ == old(manager)@.with_status(0, TaskStatus::Running),
        final(manager).contexts() == old(manager).contexts(),
{
    manager.run_first_task()
}

/// The current task exits; decides which task runs next.
pub fn exit_current_and_run_next(manager: &mut TaskManager) -> (r: TaskSwitch)
    requires
        old(manager).wf(),
        old(manager)@.with_status(old(manager)@.current as int, TaskStatus::Exited).next_task() is Some,
    ensures
        final(manager).wf(),
        final(manager)@ == old(manager)@.exit_and_run_next(),
        final(manager).contexts() == old(manager).contexts(),
        r == switch_to(old(manager)@.current, old(manager)@.with_status(old(manager)@.current as int, TaskStatus::Exited).next_task()),
        r.current == old(manager)@.current,
        r.next == final(manager)@.current,
        final(manager)@.statuses[r.next as int] == TaskStatus::Running,
{
    manager.mark_current_exited();
    manager.run_next_task()
}

/// The current task yields the processor; decides which task runs next.
pub fn suspend_current_and_run_next(manager: &mut TaskManager) -> (r: TaskSwitch)
    requires
        old(manager).wf(),
        old(manager)@.with_status(old(manager)@.current as int, TaskStatus::Suspended).next_task() is Some,
    ensures
        final(manager).wf(),
        final(manager)@ == old(manager)@.suspend_and_run_next(),
        final(manager).contexts() == old(manager).contexts(),
        r == switch_to(old(manager)@.current, old(manager)@.with_status(old(manager)@.current as int, TaskStatus::Suspended).next_task()),
        r.current == old(manager)@.current,
        r.next == final(manager)@.current,
        final(manager)@.statuses[r.next as int] == TaskStatus::Running,
{
    manager.mark_current_suspended();
    manager.run_next_task()
}

} // verus!
