//! The user-facing syscall handlers: `exit`, `yield`, `get_time` and
//! `task_info`.
//!
//! Each handler performs the dispatch-accounting step first — the calling
//! task's counter for the syscall goes up before the handler body runs,
//! whatever that body then returns — and then consults or mutates the
//! registry and the clock.
//!
//! The user/kernel pointer boundary is crossed with plain values: where
//! the ABI takes the address of a caller-supplied buffer, the handler
//! takes that address as an integer, rejects the null address with `-1`,
//! and returns the value that belongs in the buffer. The unverified shim
//! that actually writes through the pointer sits outside this crate.

use vstd::prelude::*;

use crate::config::{
    MAX_SYSCALL_NUM, SYSCALL_EXIT, SYSCALL_GET_TIME, SYSCALL_TASK_INFO, SYSCALL_YIELD,
};
use crate::task::{bump, TaskControlBlock, TaskManager, TaskStatus};

verus! {

/// A snapshot of monotonic time since boot, split into whole seconds and
/// the microsecond remainder. Not calendar time.
#[derive(Clone, Copy, PartialEq, Eq, Structural, Debug)]
pub struct TimeVal {
    /// Whole seconds since boot.
    pub sec: usize,
    /// Microseconds within the current second; always below 1_000_000.
    pub usec: usize,
}

/// A read-only snapshot of the current task, handed to user space as a
/// value copy: mutating it has no effect on kernel state.
#[derive(Clone, Debug)]
pub struct TaskInfo {
    /// The task's status at the instant of the call.
    pub status: TaskStatus,
    /// A full copy of the task's per-syscall invocation counters.
    pub syscall_times: Vec<u32>,
    /// Milliseconds elapsed between the task's first dispatch and the
    /// instant of the call — not milliseconds since boot.
    pub time: usize,
}

/// Dispatch-level failures.
#[derive(Clone, Copy, PartialEq, Eq, Structural, Debug)]
pub enum SyscallError {
    /// The syscall identifier lies outside the counter array; the call
    /// is rejected before any accounting or handling.
    InvalidSyscall,
}

/// The `TimeVal` that represents a clock reading of `us` microseconds.
pub open spec fn time_val_for(us: usize, tv: TimeVal) -> bool {
    &&& tv.sec == us / 1_000_000
    &&& tv.usec == us % 1_000_000
}

/// Total microseconds a `TimeVal` stands for.
pub open spec fn total_us(tv: TimeVal) -> int {
    tv.sec * 1_000_000 + tv.usec
}

/// The elapsed-milliseconds value `task_info` reports in state `tm`:
/// time since the current task's first dispatch, not since boot.
pub open spec fn task_info_time(tm: TaskManager) -> int {
    tm.now_ms() - tm.tasks@[tm.current as int].start_time
}

/// A full, independent copy of a counter array.
fn copy_counters(v: &Vec<u32>) -> (r: Vec<u32>)
    ensures
        r@ == v@,
{
    let mut r: Vec<u32> = Vec::new();
    let mut i: usize = 0;
    while i < v.len()
        invariant
            i <= v.len(),
            r@ == v@.subrange(0, i as int),
        decreases v.len() - i,
    {
        r.push(v[i]);
        i = i + 1;
    }
    proof {
        assert(r@ =~= v@);
    }
    r
}

/// Syscall `exit`: the current task ends itself, submitting `exit_code`.
///
/// Accounting runs first — even though this call never returns to the
/// caller, the invocation is counted. The current task becomes `Exited`
/// with its record frozen, and the CPU moves to `next`, the `Ready` task
/// the scheduler chose. In a running kernel this handler diverges into
/// another task's context; here that transfer is the state change.
pub fn sys_exit(tm: &mut TaskManager, exit_code: i32, next: usize)
    requires
        old(tm).wf(),
        next < old(tm).tasks@.len(),
        next != old(tm).current,
        old(tm).tasks@[next as int].status == TaskStatus::Ready,
        old(tm).tasks@[old(tm).current as int].syscall_times@[SYSCALL_EXIT as int] < u32::MAX,
    ensures
        final(tm).wf(),
        final(tm).timer == old(tm).timer,
        final(tm).current == next,
        final(tm).tasks@.len() == old(tm).tasks@.len(),
        forall|i: int|
            0 <= i < old(tm).tasks@.len() && i != old(tm).current && i != next
                ==> final(tm).tasks@[i] == old(tm).tasks@[i],
        final(tm).tasks@[old(tm).current as int] == (TaskControlBlock {
            status: TaskStatus::Exited,
            exit_code: Some(exit_code),
            syscall_times: final(tm).tasks@[old(tm).current as int].syscall_times,
            ..old(tm).tasks@[old(tm).current as int]
        }),
        final(tm).tasks@[old(tm).current as int].syscall_times@ == bump(
            old(tm).tasks@[old(tm).current as int].syscall_times@,
            SYSCALL_EXIT as int,
        ),
        final(tm).tasks@[next as int].status == TaskStatus::Running,
        final(tm).tasks@[next as int].syscall_times@ == old(tm).tasks@[next as int].syscall_times@,
        final(tm).tasks@[next as int].started,
        old(tm).tasks@[next as int].started ==> final(tm).tasks@[next as int].start_time == old(
            tm,
        ).tasks@[next as int].start_time,
        !old(tm).tasks@[next as int].started ==> final(tm).tasks@[next as int].start_time == old(
            tm,
        ).now_ms(),
{
    let _counted = tm.count_syscall(SYSCALL_EXIT);
    tm.exit_current_and_run_next(exit_code, next);
}

/// Syscall `yield`: the current task voluntarily gives up the CPU.
///
/// Accounting runs first; the current task becomes `Ready` (it stays
/// `Running` only when the scheduler picked it again as `next`), the CPU
/// moves to `next`, and the call returns `0` once the caller is
/// re-dispatched.
pub fn sys_yield(tm: &mut TaskManager, next: usize) -> (r: isize)
    requires
        old(tm).wf(),
        next < old(tm).tasks@.len(),
        next == old(tm).current || old(tm).tasks@[next as int].status == TaskStatus::Ready,
        old(tm).tasks@[old(tm).current as int].syscall_times@[SYSCALL_YIELD as int] < u32::MAX,
    ensures
        r == 0,
        final(tm).wf(),
        final(tm).timer == old(tm).timer,
        final(tm).current == next,
        final(tm).tasks@.len() == old(tm).tasks@.len(),
        forall|i: int|
            0 <= i < old(tm).tasks@.len() && i != old(tm).current && i != next
                ==> final(tm).tasks@[i] == old(tm).tasks@[i],
        final(tm).tasks@[old(tm).current as int].syscall_times@ == bump(
            old(tm).tasks@[old(tm).current as int].syscall_times@,
            SYSCALL_YIELD as int,
        ),
        next != old(tm).current ==> final(tm).tasks@[old(tm).current as int].status
            == TaskStatus::Ready,
        final(tm).tasks@[old(tm).current as int].started == old(tm).tasks@[old(tm).current as int].started,
        final(tm).tasks@[old(tm).current as int].start_time == old(tm).tasks@[old(tm).current as int].start_time,
        final(tm).tasks@[old(tm).current as int].exit_code == old(tm).tasks@[old(tm).current as int].exit_code,
        final(tm).tasks@[next as int].status == TaskStatus::Running,
        next != old(tm).current ==> final(tm).tasks@[next as int].syscall_times@ == old(
            tm,
        ).tasks@[next as int].syscall_times@,
        final(tm).tasks@[next as int].started,
        old(tm).tasks@[next as int].started ==> final(tm).tasks@[next as int].start_time == old(
            tm,
        ).tasks@[next as int].start_time,
        !old(tm).tasks@[next as int].started ==> final(tm).tasks@[next as int].start_time == old(
            tm,
        ).now_ms(),
{
    let _counted = tm.count_syscall(SYSCALL_YIELD);
    proof {
        assert(tm.task_ok(tm.current as int));
    }
    tm.suspend_current_and_run_next(next);
    0
}

/// Syscall `get_time`: read the monotonic clock, split into seconds and
/// microseconds.
///
/// `ts` is the address of the caller's `TimeVal` buffer and `_tz` is
/// ignored. Accounting runs first; the null address is then rejected
/// with `-1` rather than dereferenced, and otherwise the handler returns
/// `0` together with the exact `TimeVal` that belongs in the buffer —
/// the unverified shim performs the actual write. Nothing else in the
/// kernel changes.
pub fn sys_get_time(tm: &mut TaskManager, ts: usize, _tz: usize) -> (r: (isize, Option<TimeVal>))
    requires
        old(tm).wf(),
        old(tm).tasks@[old(tm).current as int].syscall_times@[SYSCALL_GET_TIME as int] < u32::MAX,
    ensures
        final(tm).wf(),
        final(tm).timer == old(tm).timer,
        final(tm).current == old(tm).current,
        final(tm).tasks@.len() == old(tm).tasks@.len(),
        forall|i: int|
            0 <= i < old(tm).tasks@.len() && i != old(tm).current
                ==> final(tm).tasks@[i] == old(tm).tasks@[i],
        final(tm).tasks@[old(tm).current as int] == (TaskControlBlock {
            syscall_times: final(tm).tasks@[old(tm).current as int].syscall_times,
            ..old(tm).tasks@[old(tm).current as int]
        }),
        final(tm).tasks@[old(tm).current as int].syscall_times@ == bump(
            old(tm).tasks@[old(tm).current as int].syscall_times@,
            SYSCALL_GET_TIME as int,
        ),
        ts == 0 ==> r.0 == -1 && r.1 is None,
        ts != 0 ==> r.0 == 0 && r.1 is Some && time_val_for(old(tm).timer.us, r.1->0),
        ts != 0 ==> r.1->0.usec < 1_000_000,
        ts != 0 ==> total_us(r.1->0) == old(tm).timer.us,
{
    let _counted = tm.count_syscall(SYSCALL_GET_TIME);
    if ts == 0 {
        return (-1, None);
    }
    let us = tm.timer.get_time_us();
    let tv = TimeVal { sec: us / 1_000_000, usec: us % 1_000_000 };
    proof {
        vstd::arithmetic::div_mod::lemma_fundamental_div_mod(us as int, 1_000_000);
    }
    (0, Some(tv))
}

/// Syscall `task_info`: a value-copy snapshot of the current task.
///
/// `ti` is the address of the caller's `TaskInfo` buffer. Accounting
/// runs first, so a call with the null address still counts as an
/// invocation; the null address is then rejected with `-1` and nothing
/// else in the kernel changes. Otherwise the handler returns `0`
/// together with the snapshot that belongs in the buffer: the task's
/// status, a full copy of its counters — including this very call — and
/// milliseconds elapsed since its first dispatch, computed at read time.
pub fn sys_task_info(tm: &mut TaskManager, ti: usize) -> (r: (isize, Option<TaskInfo>))
    requires
        old(tm).wf(),
        old(tm).tasks@[old(tm).current as int].syscall_times@[SYSCALL_TASK_INFO as int] < u32::MAX,
    ensures
        final(tm).wf(),
        final(tm).timer == old(tm).timer,
        final(tm).current == old(tm).current,
        final(tm).tasks@.len() == old(tm).tasks@.len(),
        forall|i: int|
            0 <= i < old(tm).tasks@.len() && i != old(tm).current
                ==> final(tm).tasks@[i] == old(tm).tasks@[i],
        final(tm).tasks@[old(tm).current as int] == (TaskControlBlock {
            syscall_times: final(tm).tasks@[old(tm).current as int].syscall_times,
            ..old(tm).tasks@[old(tm).current as int]
        }),
        final(tm).tasks@[old(tm).current as int].syscall_times@ == bump(
            old(tm).tasks@[old(tm).current as int].syscall_times@,
            SYSCALL_TASK_INFO as int,
        ),
        ti == 0 ==> r.0 == -1 && r.1 is None,
        ti != 0 ==> r.0 == 0 && r.1 is Some,
        ti != 0 ==> r.1->0.status == old(tm).tasks@[old(tm).current as int].status,
        ti != 0 ==> r.1->0.syscall_times@ == bump(
            old(tm).tasks@[old(tm).current as int].syscall_times@,
            SYSCALL_TASK_INFO as int,
        ),
        ti != 0 ==> r.1->0.time == task_info_time(*old(tm)),
{
    let _counted = tm.count_syscall(SYSCALL_TASK_INFO);
    if ti == 0 {
        return (-1, None);
    }
    let cur = tm.current;
    proof {
        assert(tm.task_ok(cur as int));
    }
    let now = tm.timer.get_time_ms();
    let times = copy_counters(&tm.tasks[cur].syscall_times);
    let info = TaskInfo {
        status: tm.tasks[cur].status,
        syscall_times: times,
        time: now - tm.tasks[cur].start_time,
    };
    (0, Some(info))
}

/// Clock readings are monotonic: if one `get_time` answer was taken at
/// `us1` microseconds since boot and a later one at `us2 >= us1`, the
/// later `TimeVal` stands for at least as many total microseconds — each
/// answer stands for its reading exactly — and the microsecond field
/// always lies below one million.
pub proof fn lemma_get_time_monotonic(us1: usize, us2: usize, tv1: TimeVal, tv2: TimeVal)
    requires
        time_val_for(us1, tv1),
        time_val_for(us2, tv2),
        us1 <= us2,
    ensures
        total_us(tv1) == us1,
        total_us(tv2) == us2,
        total_us(tv1) <= total_us(tv2),
        0 <= tv1.usec < 1_000_000,
        0 <= tv2.usec < 1_000_000,
{
    vstd::arithmetic::div_mod::lemma_fundamental_div_mod(us1 as int, 1_000_000);
    vstd::arithmetic::div_mod::lemma_fundamental_div_mod(us2 as int, 1_000_000);
}

/// The elapsed time `task_info` reports never decreases within one
/// lifetime of a task: between two states with the same current task,
/// the same recorded first dispatch, and a clock that has only moved
/// forward, the reported value only grows — and in each state it equals
/// milliseconds since that first dispatch, not since boot.
pub proof fn lemma_task_info_time_monotonic(tm1: TaskManager, tm2: TaskManager)
    requires
        tm1.wf(),
        tm2.wf(),
        tm1.current == tm2.current,
        tm1.tasks@[tm1.current as int].start_time == tm2.tasks@[tm2.current as int].start_time,
        tm1.timer.us <= tm2.timer.us,
    ensures
        task_info_time(tm1) == tm1.now_ms() - tm1.tasks@[tm1.current as int].start_time,
        task_info_time(tm2) == tm2.now_ms() - tm2.tasks@[tm2.current as int].start_time,
        0 <= task_info_time(tm1) <= task_info_time(tm2),
{
    vstd::arithmetic::div_mod::lemma_div_is_ordered(tm1.timer.us as int, tm2.timer.us as int, 1000);
    assert(tm1.task_ok(tm1.current as int));
}

} // verus!
