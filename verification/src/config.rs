//! Compile-time bounds and identifiers of the syscall interface.

use vstd::prelude::*;

verus! {

/// Exclusive upper bound on syscall identifiers. The per-task invocation
/// counter array has exactly this many slots, so every identifier must be
/// checked against this bound before it is used as an index.
pub const MAX_SYSCALL_NUM: usize = 500;

/// ABI number of the `exit` syscall.
pub const SYSCALL_EXIT: usize = 93;

/// ABI number of the `yield` syscall.
pub const SYSCALL_YIELD: usize = 124;

/// ABI number of the `get_time` syscall.
pub const SYSCALL_GET_TIME: usize = 169;

/// ABI number of the `task_info` syscall.
pub const SYSCALL_TASK_INFO: usize = 410;

} // verus!
