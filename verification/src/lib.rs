//! Process-control and syscall-accounting core of a cooperative,
//! single-CPU teaching kernel.
//!
//! The crate models the contract between user-mode tasks and the kernel
//! for voluntarily yielding or exiting the CPU, reading monotonic
//! since-boot time, and introspecting per-task execution statistics:
//!
//! - [`timer`]: the monotonic clock, in microsecond and millisecond
//!   resolution;
//! - [`task`]: the task-control-block registry — per-task status,
//!   per-syscall invocation counters, first-dispatch time — together with
//!   the two control-transfer operations and the dispatch-accounting step;
//! - [`syscall`]: the user-facing handlers `exit`, `yield`, `get_time`
//!   and `task_info`, each built from accounting plus a registry or timer
//!   operation;
//! - [`config`]: the syscall identifier space.
//!
//! Everything that crosses the user/kernel boundary is exchanged as plain
//! values: the handlers return the value that belongs in the caller's
//! buffer instead of writing through a raw pointer, and an unverified
//! shim owns the actual dereference.

pub mod config;
pub mod syscall;
pub mod task;
pub mod timer;
