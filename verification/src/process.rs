//! Process groups of the children the launcher starts, and how they are
//! stopped: each child leads a group of its own, and stopping it sends
//! SIGTERM to the whole group (the negated pid).
use vstd::prelude::*;

verus! {

/// The pid under which a child's id is recorded: the id cast to `i32`.
pub open spec fn spec_child_pid(id: u32) -> i32 {
    id as i32
}

/// Records a child's id as a pid.
pub fn child_pid(id: u32) -> (pid: i32)
    ensures
        pid == spec_child_pid(id),
{
    id as i32
}

/// The target that addresses the process group led by `pid`.
pub open spec fn group_target(pid: i32) -> int {
    -pid
}

/// A pid whose group can be addressed: its negation fits in an `i32`.
pub open spec fn addressable(pid: i32) -> bool {
    pid != i32::MIN
}

/// The signal targets that stop every process group in `pids`, in order:
/// each group is sent SIGTERM through its negated pid.
pub fn teardown(pids: &[i32]) -> (targets: Vec<i32>)
    requires
        forall|i: int| 0 <= i < pids@.len() ==> addressable(#[trigger] pids@[i]),
    ensures
        targets@.len() == pids@.len(),
        forall|i: int| 0 <= i < pids@.len() ==> #[trigger] targets@[i] == group_target(pids@[i]),
{
    let mut targets: Vec<i32> = Vec::new();
    let n = pids.len();
    for i in 0..n
        invariant
            n == pids@.len(),
            forall|j: int| 0 <= j < pids@.len() ==> addressable(#[trigger] pids@[j]),
            targets@.len() == i,
            forall|j: int| 0 <= j < i ==> #[trigger] targets@[j] == group_target(pids@[j]),
    {
        let p = pids[i];
        targets.push(-p);
    }
    targets
}

} // verus!
