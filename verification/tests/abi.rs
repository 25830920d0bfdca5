use rcore_os::abi::process::TimeVal;
use rcore_os::abi::{
    decode_syscall, SyscallRequest, FD_STDOUT, SYSCALL_EXIT, SYSCALL_WRITE, SYSCALL_YIELD, SYS_GET_TIME,
};
use rcore_os::user::process::Termination;
use rcore_os::user::sys::{exit, get_time, yield_};
use rcore_os::abi::SysCall as _;
use rcore_os::user::sys_call::SysCall;

#[test]
fn call_numbers() {
    assert_eq!(SYSCALL_WRITE, 64);
    assert_eq!(SYSCALL_EXIT, 93);
    assert_eq!(SYSCALL_YIELD, 124);
    assert_eq!(SYS_GET_TIME, 169);
    assert_eq!(FD_STDOUT, 1);
}

#[test]
fn decode_each_call() {
    assert_eq!(decode_syscall(64, [1, 0x1000, 5]), SyscallRequest::Write { fd: 1, buf: 0x1000, len: 5 });
    assert_eq!(decode_syscall(93, [3, 9, 9]), SyscallRequest::Exit { exit_code: 3 });
    assert_eq!(decode_syscall(124, [7, 7, 7]), SyscallRequest::Yield);
    assert_eq!(decode_syscall(169, [0x2000, 8, 1]), SyscallRequest::GetTime { ts: 0x2000, tz: 8 });
    assert_eq!(decode_syscall(1, [0, 0, 0]), SyscallRequest::Unsupported { id: 1 });
}

#[test]
fn negative_exit_code_round_trips() {
    let f = SysCall::sys_exit(-1);
    assert_eq!(f.id, 93);
    assert_eq!(f.args, [usize::MAX, 0, 0]);
    assert_eq!(decode_syscall(f.id, f.args), SyscallRequest::Exit { exit_code: -1 });
    let f = exit(i32::MIN);
    assert_eq!(decode_syscall(f.id, f.args), SyscallRequest::Exit { exit_code: i32::MIN });
}

#[test]
fn user_frames_decode_to_their_requests() {
    let f = rcore_os::user::sys::write(1, 0xabc, 12);
    assert_eq!((f.id, f.args), (64, [1, 0xabc, 12]));
    assert_eq!(decode_syscall(f.id, f.args), SyscallRequest::Write { fd: 1, buf: 0xabc, len: 12 });
    let f = yield_();
    assert_eq!((f.id, f.args), (124, [0, 0, 0]));
    assert_eq!(decode_syscall(f.id, f.args), SyscallRequest::Yield);
    let f = SysCall::sys_get_time(0x3000, 0);
    assert_eq!((f.id, f.args), (169, [0x3000, 0, 0]));
    assert_eq!(decode_syscall(f.id, f.args), SyscallRequest::GetTime { ts: 0x3000, tz: 0 });
    let f = SysCall::syscall(5, [1, 2, 3]);
    assert_eq!((f.id, f.args), (5, [1, 2, 3]));
}

#[test]
fn get_time_result() {
    let t = TimeVal::new(3, 4);
    assert_eq!(get_time(0, t), Ok(t));
    assert_eq!(get_time(-1, t), Err(-1));
}

#[test]
fn timeval_new_default_and_order() {
    let t = TimeVal::new(1, 2);
    assert_eq!((t.sec, t.usec), (1, 2));
    let z = TimeVal::default();
    assert_eq!((z.sec, z.usec), (0, 0));
    assert!(TimeVal::new(1, 999_999) < TimeVal::new(2, 0));
    assert!(TimeVal::new(2, 1) > TimeVal::new(2, 0));
}

#[test]
fn timeval_add_carries_microseconds() {
    let t = TimeVal::new(5, 999_999);
    let d = std::time::Duration::from_micros(2_000_001);
    let r = t.add(d.as_secs(), d.subsec_micros());
    assert_eq!((r.sec, r.usec), (8, 0));
    let r = TimeVal::new(10, 500).add(3, 0);
    assert_eq!((r.sec, r.usec), (13, 500));
}

#[test]
fn add_is_sum_of_microseconds() {
    let t = TimeVal::new(7, 654_321);
    let r = t.add(2, 500_000);
    assert!(r.usec < 1_000_000);
    assert_eq!(r.sec * 1_000_000 + r.usec, 7 * 1_000_000 + 654_321 + 2 * 1_000_000 + 500_000);
}

#[test]
fn termination_reports() {
    assert_eq!(5i32.report(), 5);
    assert_eq!(().report(), 0);
    assert_eq!(Some(3i32).report(), 3);
    assert_eq!(None::<i32>.report(), -1);
    assert_eq!(Ok::<i32, i32>(2).report(), 2);
    assert_eq!(Err::<(), i32>(7).report(), 7);
    assert_eq!(Some(Ok::<(), i32>(())).report(), 0);
}

#[test]
fn add_normalises_unnormalised_time() {
    let t = TimeVal::new(1, 2_500_000);
    let r = t.add(0, 600_000);
    assert_eq!((r.sec, r.usec), (4, 100_000));
    assert_eq!(r.sec * 1_000_000 + r.usec, 1_000_000 + 2_500_000 + 600_000);
}
