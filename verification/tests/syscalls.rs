use os_core::config::{
    MAX_SYSCALL_NUM, SYSCALL_EXIT, SYSCALL_GET_TIME, SYSCALL_TASK_INFO, SYSCALL_YIELD,
};
use os_core::syscall::{sys_exit, sys_get_time, sys_task_info, sys_yield, SyscallError};
use os_core::task::{TaskControlBlock, TaskManager, TaskStatus};

const TS: usize = 0x1000;
const TI: usize = 0x2000;

fn total_us(sec: usize, usec: usize) -> usize {
    sec * 1_000_000 + usec
}

#[test]
fn fresh_task_is_zeroed() {
    let t = TaskControlBlock::new();
    assert_eq!(t.status, TaskStatus::UnInitialized);
    assert_eq!(t.syscall_times.len(), MAX_SYSCALL_NUM);
    assert!(t.syscall_times.iter().all(|&c| c == 0));
    assert!(!t.started);
    assert_eq!(t.start_time, 0);
    assert_eq!(t.exit_code, None);
}

#[test]
fn boot_state_is_well_formed() {
    let tm = TaskManager::new(3);
    assert!(tm.is_well_formed());
    assert_eq!(tm.current, 0);
    assert_eq!(tm.tasks[0].status, TaskStatus::Running);
    assert_eq!(tm.tasks[1].status, TaskStatus::Ready);
    assert_eq!(tm.tasks[2].status, TaskStatus::Ready);
}

#[test]
fn get_time_splits_reading() {
    let mut tm = TaskManager::new(1);
    tm.advance_time(1_234_567);
    let (code, tv) = sys_get_time(&mut tm, TS, 0);
    assert_eq!(code, 0);
    let tv = tv.unwrap();
    assert_eq!(tv.sec, 1);
    assert_eq!(tv.usec, 234_567);
}

#[test]
fn get_time_null_is_rejected_after_accounting() {
    let mut tm = TaskManager::new(1);
    let (code, tv) = sys_get_time(&mut tm, 0, 0);
    assert_eq!(code, -1);
    assert!(tv.is_none());
    // the invocation itself was still counted
    assert_eq!(tm.tasks[0].syscall_times[SYSCALL_GET_TIME], 1);
}

#[test]
fn get_time_is_monotonic() {
    let mut tm = TaskManager::new(1);
    tm.advance_time(999_999);
    let (_, tv1) = sys_get_time(&mut tm, TS, 0);
    let tv1 = tv1.unwrap();
    tm.advance_time(1);
    let (_, tv2) = sys_get_time(&mut tm, TS, 0);
    let tv2 = tv2.unwrap();
    assert!(tv1.usec < 1_000_000);
    assert!(tv2.usec < 1_000_000);
    assert!(total_us(tv2.sec, tv2.usec) >= total_us(tv1.sec, tv1.usec));
    assert_eq!(total_us(tv1.sec, tv1.usec), 999_999);
    assert_eq!(total_us(tv2.sec, tv2.usec), 1_000_000);
}

#[test]
fn two_readings_five_ms_apart() {
    let mut tm = TaskManager::new(1);
    let (_, tv1) = sys_get_time(&mut tm, TS, 0);
    let tv1 = tv1.unwrap();
    tm.advance_time(5_000);
    let (_, tv2) = sys_get_time(&mut tm, TS, 0);
    let tv2 = tv2.unwrap();
    assert!(total_us(tv2.sec, tv2.usec) >= total_us(tv1.sec, tv1.usec) + 5_000);
}

#[test]
fn task_info_null_returns_minus_one() {
    let mut tm = TaskManager::new(1);
    let (code, info) = sys_task_info(&mut tm, 0);
    assert_eq!(code, -1);
    assert!(info.is_none());
    // no observable change beyond the accounting step itself
    assert_eq!(tm.current, 0);
    assert_eq!(tm.tasks[0].status, TaskStatus::Running);
    assert_eq!(tm.tasks[0].syscall_times[SYSCALL_TASK_INFO], 1);
    assert_eq!(tm.timer.us, 0);
}

#[test]
fn yield_three_times_then_task_info() {
    let mut tm = TaskManager::new(1);
    assert_eq!(sys_yield(&mut tm, 0), 0);
    assert_eq!(sys_yield(&mut tm, 0), 0);
    assert_eq!(sys_yield(&mut tm, 0), 0);
    let (code, info) = sys_task_info(&mut tm, TI);
    assert_eq!(code, 0);
    let info = info.unwrap();
    assert_eq!(info.syscall_times[SYSCALL_YIELD], 3);
    assert_eq!(info.syscall_times[SYSCALL_TASK_INFO], 1);
    assert_eq!(info.status, TaskStatus::Running);
}

#[test]
fn counting_is_exact_per_syscall() {
    let mut tm = TaskManager::new(2);
    assert_eq!(sys_yield(&mut tm, 0), 0);
    assert_eq!(sys_yield(&mut tm, 0), 0);
    let _ = sys_get_time(&mut tm, TS, 0);
    let (_, info) = sys_task_info(&mut tm, TI);
    let info = info.unwrap();
    assert_eq!(info.syscall_times[SYSCALL_YIELD], 2);
    assert_eq!(info.syscall_times[SYSCALL_GET_TIME], 1);
    assert_eq!(info.syscall_times[SYSCALL_TASK_INFO], 1);
    assert_eq!(info.syscall_times[SYSCALL_EXIT], 0);
    // the snapshot is a value copy: task 1 saw nothing
    assert!(tm.tasks[1].syscall_times.iter().all(|&c| c == 0));
}

#[test]
fn task_info_time_counts_from_first_dispatch() {
    let mut tm = TaskManager::new(2);
    tm.advance_time(10_000);
    // task 1 is dispatched for the first time at 10 ms
    assert_eq!(sys_yield(&mut tm, 1), 0);
    assert_eq!(tm.tasks[1].start_time, 10);
    tm.advance_time(7_000);
    let (_, info) = sys_task_info(&mut tm, TI);
    let info = info.unwrap();
    // elapsed since its own dispatch, not since boot
    assert_eq!(info.time, 7);
}

#[test]
fn task_info_time_is_non_decreasing() {
    let mut tm = TaskManager::new(1);
    let (_, info1) = sys_task_info(&mut tm, TI);
    tm.advance_time(3_000);
    let (_, info2) = sys_task_info(&mut tm, TI);
    tm.advance_time(2_500);
    let (_, info3) = sys_task_info(&mut tm, TI);
    let (t1, t2, t3) = (info1.unwrap().time, info2.unwrap().time, info3.unwrap().time);
    assert!(t1 <= t2 && t2 <= t3);
    assert_eq!(t1, 0);
    assert_eq!(t2, 3);
    assert_eq!(t3, 5);
}

#[test]
fn exit_freezes_task_and_runs_next() {
    let mut tm = TaskManager::new(2);
    assert_eq!(sys_yield(&mut tm, 0), 0);
    sys_exit(&mut tm, 42, 1);
    // the exited task's record is frozen
    assert_eq!(tm.tasks[0].status, TaskStatus::Exited);
    assert_eq!(tm.tasks[0].exit_code, Some(42));
    assert_eq!(tm.tasks[0].syscall_times[SYSCALL_YIELD], 1);
    assert_eq!(tm.tasks[0].syscall_times[SYSCALL_EXIT], 1);
    // a different Ready task is dispatched at once
    assert_eq!(tm.current, 1);
    assert_eq!(tm.tasks[1].status, TaskStatus::Running);
    assert!(tm.is_well_formed());
}

#[test]
fn out_of_range_syscall_is_rejected_before_accounting() {
    let mut tm = TaskManager::new(1);
    let r = tm.count_syscall(MAX_SYSCALL_NUM);
    assert_eq!(r, Err(SyscallError::InvalidSyscall));
    let r = tm.count_syscall(usize::MAX);
    assert_eq!(r, Err(SyscallError::InvalidSyscall));
    assert!(tm.tasks[0].syscall_times.iter().all(|&c| c == 0));
}

#[test]
fn in_range_accounting_succeeds() {
    let mut tm = TaskManager::new(1);
    let r = tm.count_syscall(MAX_SYSCALL_NUM - 1);
    assert_eq!(r, Ok(()));
    assert_eq!(tm.tasks[0].syscall_times[MAX_SYSCALL_NUM - 1], 1);
}

#[test]
fn counter_can_reach_its_maximum() {
    let mut tm = TaskManager::new(1);
    tm.tasks[0].syscall_times[SYSCALL_YIELD] = u32::MAX - 1;
    assert_eq!(sys_yield(&mut tm, 0), 0);
    assert_eq!(tm.tasks[0].syscall_times[SYSCALL_YIELD], u32::MAX);
}

#[test]
fn timer_resolutions_agree() {
    let mut tm = TaskManager::new(1);
    tm.advance_time(2_999);
    assert_eq!(tm.timer.get_time_us(), 2_999);
    assert_eq!(tm.timer.get_time_ms(), 2);
    assert_eq!(tm.timer.get_time_ms(), tm.timer.get_time_us() / 1000);
}

#[test]
fn well_formedness_check_rejects_broken_states() {
    let mut tm = TaskManager::new(2);
    tm.tasks[1].status = TaskStatus::Running;
    assert!(!tm.is_well_formed());

    let mut tm = TaskManager::new(1);
    tm.tasks[0].start_time = 5;
    assert!(!tm.is_well_formed());

    let mut tm = TaskManager::new(1);
    tm.tasks[0].syscall_times.pop();
    assert!(!tm.is_well_formed());
}

#[test]
fn current_task_reference_tracks_dispatch() {
    let mut tm = TaskManager::new(2);
    assert_eq!(tm.get_current_taskinfo().status, TaskStatus::Running);
    assert_eq!(sys_yield(&mut tm, 1), 0);
    let t = tm.get_current_taskinfo();
    assert_eq!(t.status, TaskStatus::Running);
    assert_eq!(t.syscall_times[SYSCALL_YIELD], 0);
    assert_eq!(tm.tasks[0].syscall_times[SYSCALL_YIELD], 1);
}

#[test]
fn yield_to_another_task_marks_caller_ready() {
    let mut tm = TaskManager::new(2);
    assert_eq!(sys_yield(&mut tm, 1), 0);
    assert_eq!(tm.tasks[0].status, TaskStatus::Ready);
    assert_eq!(tm.tasks[1].status, TaskStatus::Running);
    assert_eq!(tm.current, 1);
    assert!(tm.is_well_formed());
}
