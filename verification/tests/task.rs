use rcore_os::config::MAX_APP_NUM;
use rcore_os::task::context::TaskContext;
use rcore_os::task::manager::{TaskManager, TaskSwitch};
use rcore_os::task::{
    exit_current_and_run_next, mark_current_exited, mark_current_suspended, run_first_task,
    run_next_task, suspend_current_and_run_next, TaskStatus,
};

fn contexts(n: usize) -> Vec<TaskContext> {
    (0..n).map(|i| TaskContext::new_with_app_context(0x8020_0000, 0x1000 * (i + 1))).collect()
}

#[test]
fn zero_init_is_all_zero() {
    let cx = TaskContext::zero_init();
    assert_eq!(cx.ra, 0);
    assert_eq!(cx.sp, 0);
    assert_eq!(cx.s, [0; 12]);
}

#[test]
fn new_with_app_context_returns_to_restore() {
    let cx = TaskContext::new_with_app_context(0x1234, 0x5678);
    assert_eq!(cx.ra, 0x1234);
    assert_eq!(cx.sp, 0x5678);
    assert_eq!(cx.s, [0; 12]);
}

#[test]
fn new_manager_suspends_every_application() {
    let m = TaskManager::new(&contexts(3));
    assert_eq!(m.num_app(), 3);
    assert_eq!(m.current_task(), 0);
    for i in 0..3 {
        assert_eq!(m.task_status(i), TaskStatus::Suspended);
        assert_eq!(m.task_cx(i).sp, 0x1000 * (i + 1));
    }
    for i in 3..MAX_APP_NUM {
        assert_eq!(m.task_status(i), TaskStatus::UnInit);
        assert_eq!(m.task_cx(i).ra, 0);
    }
}

#[test]
fn first_task_runs_task_zero() {
    let mut m = TaskManager::new(&contexts(2));
    assert_eq!(run_first_task(&mut m), 0);
    assert_eq!(m.task_status(0), TaskStatus::Running);
    assert_eq!(m.task_status(1), TaskStatus::Suspended);
}

#[test]
fn yield_goes_round_robin() {
    let mut m = TaskManager::new(&contexts(3));
    m.run_first_task();
    assert_eq!(suspend_current_and_run_next(&mut m), TaskSwitch { current: 0, next: 1 });
    assert_eq!(suspend_current_and_run_next(&mut m), TaskSwitch { current: 1, next: 2 });
    assert_eq!(suspend_current_and_run_next(&mut m), TaskSwitch { current: 2, next: 0 });
    assert_eq!(m.current_task(), 0);
    assert_eq!(m.task_status(0), TaskStatus::Running);
    assert_eq!(m.task_status(1), TaskStatus::Suspended);
    assert_eq!(m.task_status(2), TaskStatus::Suspended);
}

#[test]
fn lone_task_yields_to_itself() {
    let mut m = TaskManager::new(&contexts(1));
    m.run_first_task();
    assert_eq!(suspend_current_and_run_next(&mut m), TaskSwitch { current: 0, next: 0 });
    assert_eq!(m.task_status(0), TaskStatus::Running);
}

#[test]
fn exited_tasks_are_skipped_and_stay_exited() {
    let mut m = TaskManager::new(&contexts(3));
    m.run_first_task();
    assert_eq!(exit_current_and_run_next(&mut m), TaskSwitch { current: 0, next: 1 });
    assert_eq!(m.task_status(0), TaskStatus::Exited);
    assert_eq!(suspend_current_and_run_next(&mut m), TaskSwitch { current: 1, next: 2 });
    assert_eq!(suspend_current_and_run_next(&mut m), TaskSwitch { current: 2, next: 1 });
    assert_eq!(m.task_status(0), TaskStatus::Exited);
}

#[test]
fn last_exit_completes_everything() {
    let mut m = TaskManager::new(&contexts(2));
    m.run_first_task();
    assert_eq!(exit_current_and_run_next(&mut m), TaskSwitch { current: 0, next: 1 });
    mark_current_exited(&mut m);
    assert_eq!(m.find_next_task(), None);
    assert_eq!(m.task_status(0), TaskStatus::Exited);
    assert_eq!(m.task_status(1), TaskStatus::Exited);
    for i in 0..MAX_APP_NUM {
        assert_ne!(m.task_status(i), TaskStatus::Running);
    }
}

#[test]
fn find_next_task_wraps_around() {
    let mut m = TaskManager::new(&contexts(4));
    m.run_first_task();
    // tasks 1 and 2 run and exit in turn
    assert_eq!(run_next_task(&mut m), TaskSwitch { current: 0, next: 1 });
    mark_current_exited(&mut m);
    assert_eq!(m.find_next_task(), Some(2));
    assert_eq!(run_next_task(&mut m), TaskSwitch { current: 1, next: 2 });
    mark_current_exited(&mut m);
    assert_eq!(m.find_next_task(), Some(3));
    assert_eq!(run_next_task(&mut m), TaskSwitch { current: 2, next: 3 });
    mark_current_suspended(&mut m);
    // task 0 is still marked running (it never yielded), so only 3 is ready
    assert_eq!(m.find_next_task(), Some(3));
}

#[test]
fn no_applications_means_nothing_to_run() {
    let mut m = TaskManager::new(&Vec::new());
    assert_eq!(m.num_app(), 0);
    assert_eq!(m.find_next_task(), None);
    m.mark_current_suspended();
    assert_eq!(m.find_next_task(), None);
}

#[test]
fn set_task_cx_changes_only_that_context() {
    let mut m = TaskManager::new(&contexts(2));
    m.set_task_cx(1, TaskContext::new_with_app_context(7, 9));
    assert_eq!(m.task_cx(1).ra, 7);
    assert_eq!(m.task_cx(1).sp, 9);
    assert_eq!(m.task_cx(0).sp, 0x1000);
    assert_eq!(m.task_status(1), TaskStatus::Suspended);
}

#[test]
fn yielding_task_runs_again() {
    let mut m = TaskManager::new(&contexts(4));
    m.run_first_task();
    assert_eq!(exit_current_and_run_next(&mut m), TaskSwitch { current: 0, next: 1 });
    // task 1 yields; after at most `num_app` yields it is current and running again
    let mut yields = 0;
    loop {
        suspend_current_and_run_next(&mut m);
        yields += 1;
        if m.current_task() == 1 {
            break;
        }
        assert!(yields < 4);
    }
    assert_eq!(yields, 3);
    assert_eq!(m.task_status(1), TaskStatus::Running);
    assert_eq!(m.task_status(0), TaskStatus::Exited);
}
