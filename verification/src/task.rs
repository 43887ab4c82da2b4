//! Task-control-block registry.
//!
//! One [`TaskControlBlock`] per task, owned by the [`TaskManager`] for the
//! task's whole lifetime. On this single, cooperatively scheduled CPU
//! exactly one task is `Running` at any instant; the registry's two
//! control-transfer operations — suspend and exit — are the only places
//! where that distinction moves between tasks. The dispatch-accounting
//! step lives here too: every syscall entry bumps the calling task's
//! per-syscall counter before the handler runs.
//!
//! Which `Ready` task runs next is scheduling policy and out of scope:
//! the transfer operations take the chosen successor as an argument and
//! are verified for every admissible choice.

use vstd::prelude::*;

use crate::config::MAX_SYSCALL_NUM;
use crate::syscall::SyscallError;
use crate::timer::Timer;

verus! {

/// Where a task stands in its life cycle.
#[derive(Clone, Copy, PartialEq, Eq, Structural, Debug)]
pub enum TaskStatus {
    /// Created but not yet made eligible for scheduling.
    UnInitialized,
    /// Eligible to run, waiting for the CPU.
    Ready,
    /// Holding the CPU. Exactly one task per registry.
    Running,
    /// Finished; its record is frozen.
    Exited,
}

/// Kernel-owned record of one task's scheduling and accounting state.
pub struct TaskControlBlock {
    /// Current life-cycle state.
    pub status: TaskStatus,
    /// Per-syscall invocation counters: slot `id` counts how often the
    /// task has entered syscall `id`; never decremented. Always
    /// `MAX_SYSCALL_NUM` slots long.
    pub syscall_times: Vec<u32>,
    /// Whether the task has ever been dispatched to `Running`.
    pub started: bool,
    /// Milliseconds since boot at the task's first dispatch; recorded
    /// exactly once, meaningful only when `started`.
    pub start_time: usize,
    /// The code the task exited with; recorded when it becomes `Exited`.
    pub exit_code: Option<i32>,
}

/// A counter array with every slot present and still zero.
pub open spec fn zeroed(c: Seq<u32>) -> bool {
    &&& c.len() == MAX_SYSCALL_NUM
    &&& forall|j: int| 0 <= j < c.len() ==> c[j] == 0
}

/// One accounting step on a counter array: slot `id` goes up by one and
/// every other slot is untouched.
pub open spec fn bump(c: Seq<u32>, id: int) -> Seq<u32> {
    c.update(id, (c[id] + 1) as u32)
}

/// `n` accounting steps for the same syscall `id`, one after the other.
pub open spec fn bump_n(c: Seq<u32>, id: int, n: nat) -> Seq<u32>
    decreases n,
{
    if n == 0 {
        c
    } else {
        bump(bump_n(c, id, (n - 1) as nat), id)
    }
}

/// Accounting is exact: after a task enters syscall `id` exactly `n`
/// times — whether or not each handler then succeeds — the counter for
/// `id` reads exactly `n` more than before, no other counter has moved,
/// and a task created with zeroed counters therefore reports exactly `n`.
pub proof fn lemma_bump_n_exact(c: Seq<u32>, id: int, n: nat)
    requires
        0 <= id < c.len(),
        c[id] + n <= u32::MAX,
    ensures
        bump_n(c, id, n).len() == c.len(),
        bump_n(c, id, n)[id] == c[id] + n,
        forall|j: int| 0 <= j < c.len() && j != id ==> bump_n(c, id, n)[j] == c[j],
        zeroed(c) ==> bump_n(c, id, n)[id] == n,
    decreases n,
{
    if n > 0 {
        lemma_bump_n_exact(c, id, (n - 1) as nat);
    }
}

impl TaskControlBlock {
    /// A freshly created task: not yet eligible to run, no syscall ever
    /// counted, never dispatched.
    pub fn new() -> (t: TaskControlBlock)
        ensures
            t.status == TaskStatus::UnInitialized,
            zeroed(t.syscall_times@),
            !t.started,
            t.start_time == 0,
            t.exit_code is None,
    {
        let mut times: Vec<u32> = Vec::new();
        let mut i: usize = 0;
        while i < MAX_SYSCALL_NUM
            invariant
                i <= MAX_SYSCALL_NUM,
                times@.len() == i,
                forall|j: int| 0 <= j < i ==> times@[j] == 0,
            decreases MAX_SYSCALL_NUM - i,
        {
            times.push(0);
            i = i + 1;
        }
        TaskControlBlock {
            status: TaskStatus::UnInitialized,
            syscall_times: times,
            started: false,
            start_time: 0,
            exit_code: None,
        }
    }
}

/// The registry: every task's control block, the identity of the one task
/// presently holding the CPU, and the clock the kernel reads.
pub struct TaskManager {
    /// The monotonic clock.
    pub timer: Timer,
    /// One control block per task, for the task's whole lifetime.
    pub tasks: Vec<TaskControlBlock>,
    /// Index of the task presently `Running`.
    pub current: usize,
}

impl TaskManager {
    /// Milliseconds since boot, as every kernel component sees them.
    pub open spec fn now_ms(self) -> int {
        self.timer.us as int / 1000
    }

    /// Per-task part of the registry invariant.
    pub open spec fn task_ok(self, i: int) -> bool {
        &&& self.tasks@[i].syscall_times@.len() == MAX_SYSCALL_NUM
        &&& self.tasks@[i].status == TaskStatus::Running ==> i == self.current
        &&& (self.tasks@[i].status == TaskStatus::Running || self.tasks@[i].status
            == TaskStatus::Exited) ==> self.tasks@[i].started
        &&& self.tasks@[i].started ==> self.tasks@[i].start_time <= self.now_ms()
    }

    /// The registry invariant: a current task exists and is the only one
    /// `Running`; every counter array is full-sized; a task that runs or
    /// has exited was dispatched at some point, and no recorded dispatch
    /// lies in the future.
    pub open spec fn wf(self) -> bool {
        &&& self.current < self.tasks@.len()
        &&& self.tasks@[self.current as int].status == TaskStatus::Running
        &&& forall|i: int| 0 <= i < self.tasks@.len() ==> #[trigger] self.task_ok(i)
    }

    /// Boot the registry with `num_tasks` freshly loaded tasks and
    /// dispatch task `0`, at clock reading zero.
    pub fn new(num_tasks: usize) -> (tm: TaskManager)
        requires
            1 <= num_tasks,
        ensures
            tm.wf(),
            tm.timer.us == 0,
            tm.current == 0,
            tm.tasks@.len() == num_tasks,
            tm.tasks@[0].status == TaskStatus::Running,
            tm.tasks@[0].started,
            tm.tasks@[0].start_time == 0,
            forall|i: int|
                1 <= i < num_tasks ==> (#[trigger] tm.tasks@[i]).status == TaskStatus::Ready
                    && !tm.tasks@[i].started,
            forall|i: int| 0 <= i < num_tasks ==> zeroed((#[trigger] tm.tasks@[i]).syscall_times@),
            forall|i: int| 0 <= i < num_tasks ==> (#[trigger] tm.tasks@[i]).exit_code is None,
    {
        let mut tasks: Vec<TaskControlBlock> = Vec::new();
        let mut i: usize = 0;
        while i < num_tasks
            invariant
                i <= num_tasks,
                tasks@.len() == i,
                forall|k: int|
                    0 <= k < i ==> (#[trigger] tasks@[k]).status == TaskStatus::Ready
                        && !tasks@[k].started && tasks@[k].start_time == 0
                        && tasks@[k].exit_code is None && zeroed(tasks@[k].syscall_times@),
            decreases num_tasks - i,
        {
            let mut t = TaskControlBlock::new();
            t.status = TaskStatus::Ready;
            tasks.push(t);
            i = i + 1;
        }
        tasks[0].status = TaskStatus::Running;
        tasks[0].started = true;
        let tm = TaskManager { timer: Timer::new(), tasks, current: 0 };
        assert forall|k: int| 0 <= k < tm.tasks@.len() implies #[trigger] tm.task_ok(k) by {}
        tm
    }

    /// Reference to the control block of the task presently `Running`.
    pub fn get_current_taskinfo(&self) -> (t: &TaskControlBlock)
        requires
            self.wf(),
        ensures
            *t == self.tasks@[self.current as int],
    {
        &self.tasks[self.current]
    }

    /// Dispatch accounting: on syscall entry, before any handler runs,
    /// bump the calling task's counter for `syscall_id` — exactly once
    /// per entry, whatever the handler then does. An identifier outside
    /// the counter array is rejected first, before any state is touched.
    pub fn count_syscall(&mut self, syscall_id: usize) -> (r: Result<(), SyscallError>)
        requires
            old(self).wf(),
            syscall_id < MAX_SYSCALL_NUM ==> old(self).tasks@[old(self).current as int].syscall_times@[
                syscall_id as int] < u32::MAX,
        ensures
            final(self).wf(),
            final(self).timer == old(self).timer,
            final(self).current == old(self).current,
            final(self).tasks@.len() == old(self).tasks@.len(),
            syscall_id >= MAX_SYSCALL_NUM ==> r == Result::<(), SyscallError>::Err(
                SyscallError::InvalidSyscall,
            ) && final(self).tasks@ == old(self).tasks@,
            syscall_id < MAX_SYSCALL_NUM ==> {
                &&& r is Ok
                &&& forall|i: int|
                    0 <= i < old(self).tasks@.len() && i != old(self).current
                        ==> final(self).tasks@[i] == old(self).tasks@[i]
                &&& final(self).tasks@[old(self).current as int].syscall_times@ == bump(
                    old(self).tasks@[old(self).current as int].syscall_times@,
                    syscall_id as int,
                )
                &&& final(self).tasks@[old(self).current as int].status == old(self).tasks@[old(
                    self,
                ).current as int].status
                &&& final(self).tasks@[old(self).current as int].started == old(self).tasks@[old(
                    self,
                ).current as int].started
                &&& final(self).tasks@[old(self).current as int].start_time == old(self).tasks@[old(
                    self,
                ).current as int].start_time
                &&& final(self).tasks@[old(self).current as int].exit_code == old(self).tasks@[old(
                    self,
                ).current as int].exit_code
            },
    {
        if syscall_id >= MAX_SYSCALL_NUM {
            return Err(SyscallError::InvalidSyscall);
        }
        let cur = self.current;
        proof {
            assert(old(self).task_ok(cur as int));
        }
        let n = self.tasks[cur].syscall_times[syscall_id];
        self.tasks[cur].syscall_times[syscall_id] = n + 1;
        proof {
            assert(self.tasks@[cur as int].syscall_times@ =~= bump(
                old(self).tasks@[cur as int].syscall_times@,
                syscall_id as int,
            ));
            assert forall|k: int| 0 <= k < self.tasks@.len() implies #[trigger] self.task_ok(k) by {
                assert(old(self).task_ok(k));
            }
        }
        Ok(())
    }

    /// Mark the current task `Ready` and hand the CPU to `next` — the
    /// scheduler's choice, possibly the current task itself when nothing
    /// else is eligible. Records `next`'s start time if this is its first
    /// dispatch; counters, exit codes and the clock are untouched.
    pub fn suspend_current_and_run_next(&mut self, next: usize)
        requires
            old(self).wf(),
            next < old(self).tasks@.len(),
            next == old(self).current || old(self).tasks@[next as int].status == TaskStatus::Ready,
        ensures
            final(self).wf(),
            final(self).timer == old(self).timer,
            final(self).current == next,
            final(self).tasks@.len() == old(self).tasks@.len(),
            forall|i: int|
                0 <= i < old(self).tasks@.len() && i != old(self).current && i != next
                    ==> final(self).tasks@[i] == old(self).tasks@[i],
            next != old(self).current ==> final(self).tasks@[old(self).current as int] == (
            TaskControlBlock { status: TaskStatus::Ready, ..old(self).tasks@[old(self).current as int] }),
            final(self).tasks@[next as int].status == TaskStatus::Running,
            final(self).tasks@[next as int].syscall_times@ == old(self).tasks@[next as int].syscall_times@,
            final(self).tasks@[next as int].exit_code == old(self).tasks@[next as int].exit_code,
            final(self).tasks@[next as int].started,
            old(self).tasks@[next as int].started ==> final(self).tasks@[next as int].start_time
                == old(self).tasks@[next as int].start_time,
            !old(self).tasks@[next as int].started ==> final(self).tasks@[next as int].start_time
                == old(self).now_ms(),
    {
        let cur = self.current;
        if next != cur {
            self.tasks[cur].status = TaskStatus::Ready;
        }
        self.tasks[next].status = TaskStatus::Running;
        if !self.tasks[next].started {
            let now = self.timer.get_time_ms();
            self.tasks[next].started = true;
            self.tasks[next].start_time = now;
        }
        self.current = next;
        proof {
            assert forall|k: int| 0 <= k < self.tasks@.len() implies #[trigger] self.task_ok(k) by {
                assert(old(self).task_ok(k));
            }
        }
    }

    /// Mark the current task `Exited`, record the code it exited with,
    /// and hand the CPU to `next`, a different `Ready` task. The exited
    /// control block is frozen from here on: its counters and start time
    /// keep their final values. In a running kernel control never comes
    /// back to the exited task; here the transfer is the state change.
    pub fn exit_current_and_run_next(&mut self, exit_code: i32, next: usize)
        requires
            old(self).wf(),
            next < old(self).tasks@.len(),
            next != old(self).current,
            old(self).tasks@[next as int].status == TaskStatus::Ready,
        ensures
            final(self).wf(),
            final(self).timer == old(self).timer,
            final(self).current == next,
            final(self).tasks@.len() == old(self).tasks@.len(),
            forall|i: int|
                0 <= i < old(self).tasks@.len() && i != old(self).current && i != next
                    ==> final(self).tasks@[i] == old(self).tasks@[i],
            final(self).tasks@[old(self).current as int] == (TaskControlBlock {
                status: TaskStatus::Exited,
                exit_code: Some(exit_code),
                ..old(self).tasks@[old(self).current as int]
            }),
            final(self).tasks@[next as int].status == TaskStatus::Running,
            final(self).tasks@[next as int].syscall_times@ == old(self).tasks@[next as int].syscall_times@,
            final(self).tasks@[next as int].exit_code == old(self).tasks@[next as int].exit_code,
            final(self).tasks@[next as int].started,
            old(self).tasks@[next as int].started ==> final(self).tasks@[next as int].start_time
                == old(self).tasks@[next as int].start_time,
            !old(self).tasks@[next as int].started ==> final(self).tasks@[next as int].start_time
                == old(self).now_ms(),
    {
        let cur = self.current;
        self.tasks[cur].status = TaskStatus::Exited;
        self.tasks[cur].exit_code = Some(exit_code);
        self.tasks[next].status = TaskStatus::Running;
        if !self.tasks[next].started {
            let now = self.timer.get_time_ms();
            self.tasks[next].started = true;
            self.tasks[next].start_time = now;
        }
        self.current = next;
        proof {
            assert forall|k: int| 0 <= k < self.tasks@.len() implies #[trigger] self.task_ok(k) by {
                assert(old(self).task_ok(k));
            }
        }
    }

    /// Runtime check of the registry invariant, for callers outside the
    /// verified world: returns exactly whether `wf` holds, so an
    /// unverified shim can test it before entering a handler and treat a
    /// failure as the fatal condition it is.
    pub fn is_well_formed(&self) -> (r: bool)
        ensures
            r == self.wf(),
    {
        if self.current >= self.tasks.len() {
            return false;
        }
        if !(self.tasks[self.current].status == TaskStatus::Running) {
            return false;
        }
        let now = self.timer.get_time_ms();
        let mut i: usize = 0;
        while i < self.tasks.len()
            invariant
                i <= self.tasks@.len(),
                self.current < self.tasks@.len(),
                self.tasks@[self.current as int].status == TaskStatus::Running,
                now == self.now_ms(),
                forall|k: int| 0 <= k < i ==> #[trigger] self.task_ok(k),
            decreases self.tasks@.len() - i,
        {
            let t = &self.tasks[i];
            if t.syscall_times.len() != MAX_SYSCALL_NUM {
                assert(!self.task_ok(i as int));
                return false;
            }
            if t.status == TaskStatus::Running && i != self.current {
                assert(!self.task_ok(i as int));
                return false;
            }
            if (t.status == TaskStatus::Running || t.status == TaskStatus::Exited) && !t.started {
                assert(!self.task_ok(i as int));
                return false;
            }
            if t.started && t.start_time > now {
                assert(!self.task_ok(i as int));
                return false;
            }
            assert(self.task_ok(i as int));
            i = i + 1;
        }
        true
    }

    /// The platform clock ticked forward by `delta_us` microseconds.
    /// Scheduling and accounting state are untouched; the registry
    /// invariant survives because recorded dispatch times only fall
    /// further into the past.
    pub fn advance_time(&mut self, delta_us: usize)
        requires
            old(self).wf(),
            old(self).timer.us + delta_us <= usize::MAX,
        ensures
            final(self).wf(),
            final(self).timer.us == old(self).timer.us + delta_us,
            final(self).tasks@ == old(self).tasks@,
            final(self).current == old(self).current,
    {
        self.timer.advance(delta_us);
        proof {
            vstd::arithmetic::div_mod::lemma_div_is_ordered(
                old(self).timer.us as int,
                self.timer.us as int,
                1000,
            );
            assert forall|k: int| 0 <= k < self.tasks@.len() implies #[trigger] self.task_ok(k) by {
                assert(old(self).task_ok(k));
            }
        }
    }
}

} // verus!
