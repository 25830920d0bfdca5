use rcore_os::abi::process::TimeVal;
use rcore_os::syscall::fs::Piece;
use rcore_os::syscall::process::{sys_exit, sys_get_time, sys_yield};
use rcore_os::syscall::{SysCall, SyscallEffect};
use rcore_os::task::context::TaskContext;
use rcore_os::task::manager::{TaskManager, TaskSwitch};
use rcore_os::task::TaskStatus;
use rcore_os::timer::{get_time_us, set_next_trigger};

fn manager(n: usize) -> TaskManager {
    let cxs: Vec<TaskContext> = (0..n).map(|i| TaskContext::new_with_app_context(1, i)).collect();
    let mut m = TaskManager::new(&cxs);
    m.run_first_task();
    m
}

#[test]
fn get_time_splits_microseconds() {
    let mut ts = TimeVal::new(0, 0);
    assert_eq!(sys_get_time(&mut ts, 0, 3_000_042), 0);
    assert_eq!((ts.sec, ts.usec), (3, 42));
}

#[test]
fn exit_and_yield_return_zero_and_switch() {
    let mut m = manager(2);
    assert_eq!(sys_yield(&mut m), (0, TaskSwitch { current: 0, next: 1 }));
    assert_eq!(sys_exit(&mut m, 3), (0, TaskSwitch { current: 1, next: 0 }));
    assert_eq!(m.task_status(1), TaskStatus::Exited);
    assert_eq!(m.task_status(0), TaskStatus::Running);
}

#[test]
fn dispatch_write() {
    let mut m = manager(1);
    match SysCall::syscall(&mut m, 64, [1, 0x1000, 2], b"hi", 0) {
        SyscallEffect::Print { pieces, ret } => {
            assert_eq!(pieces, vec![Piece::Text { start: 0, end: 2 }]);
            assert_eq!(ret, 2);
        }
        other => panic!("unexpected {:?}", other),
    }
    match SysCall::syscall(&mut m, 64, [1, 0x1000, 3], &[b'o', 0xc3, b'k'], 0) {
        SyscallEffect::Print { pieces, ret } => {
            assert_eq!(
                pieces,
                vec![Piece::Text { start: 0, end: 1 }, Piece::Replacement, Piece::Text { start: 2, end: 3 }]
            );
            assert_eq!(ret, 3);
        }
        other => panic!("unexpected {:?}", other),
    }
}

#[test]
fn dispatch_yield_exit_and_time() {
    let mut m = manager(2);
    match SysCall::syscall(&mut m, 124, [0, 0, 0], &[], 0) {
        SyscallEffect::Switch { ret, switch } => {
            assert_eq!(ret, 0);
            assert_eq!(switch, TaskSwitch { current: 0, next: 1 });
        }
        other => panic!("unexpected {:?}", other),
    }
    match SysCall::syscall(&mut m, 169, [0x2000, 0, 0], &[], 1_500_000) {
        SyscallEffect::StoreTime { addr, time, ret } => {
            assert_eq!(addr, 0x2000);
            assert_eq!((time.sec, time.usec), (1, 500_000));
            assert_eq!(ret, 0);
        }
        other => panic!("unexpected {:?}", other),
    }
    match SysCall::syscall(&mut m, 93, [usize::MAX, 0, 0], &[], 0) {
        SyscallEffect::Switch { ret, switch } => {
            assert_eq!(ret, 0);
            assert_eq!(switch, TaskSwitch { current: 1, next: 0 });
        }
        other => panic!("unexpected {:?}", other),
    }
}

#[test]
fn timer_arithmetic() {
    assert_eq!(set_next_trigger(100), 125_100);
    assert_eq!(get_time_us(12_500_000), 1_000_000);
    assert_eq!(get_time_us(1200), 96);
    assert_eq!(get_time_us(12), 0);
    assert_eq!(get_time_us(13), 1);
    assert_eq!(get_time_us(usize::MAX), (usize::MAX as u128 * 1_000_000 / 12_500_000) as usize);
}
