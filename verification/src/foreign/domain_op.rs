//! Control opcodes written to a foreign-domain control handle. The payload is a
//! sequence of native-width words: `[opcode, arg0, ...]`. These name control
//! actions on the domain, never guest operations.
use vstd::prelude::*;

verus! {

/// `[SET_CAPACITY, capacity]` -- set the exit-queue bound before any attach.
pub const SET_CAPACITY: usize = 0;

/// `[ATTACH, task_fd]` -- quiesce and attach a task capability.
pub const ATTACH: usize = 1;

/// `[START, task_fd]` -- run an attached, stopped task.
pub const START: usize = 2;

/// `[DESTROY]` -- tear the domain down (also happens on handle close).
pub const DESTROY: usize = 3;

/// `[SET_PROTOCOL_VERSION, version]` -- select a supported protocol before
/// a broker endpoint is opened or a task is attached. Domains default to
/// V1 so earlier userspace keeps its exact contract.
pub const SET_PROTOCOL_VERSION: usize = 4;

/// `[KICK, task_fd]` -- request one checked lifecycle interruption for the
/// attached task referenced by the supplied process capability.
pub const KICK: usize = 5;

/// `[CANCEL, task_fd, sequence]` -- cancel one exact outstanding broker
/// request, leaving the task safely stopped. `sequence` prevents a stale
/// controller action from cancelling a newer exit.
pub const CANCEL: usize = 6;

/// `[SET_LIMITS_V1, normal_exits, lifecycle_exits, tasks,
/// outstanding_replies, transient_copy_pages, wait_registrations]` -- set
/// the complete per-domain resource budget before the broker endpoint
/// is opened or any task is attached. This operation requires protocol V4
/// so an older controller cannot silently configure only part of a limit
/// set it does not understand.
///
/// All six values are counts, not byte sizes, and are carried as
/// native-width words in the fixed order shown above.
pub const SET_LIMITS_V1: usize = 7;

} // verus!
