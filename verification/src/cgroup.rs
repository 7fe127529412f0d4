//! The cgroup v2 limits put on a container's process.

use vstd::prelude::*;

use crate::text::{decimal_string, int_decimal, owned, push_str};

verus! {

/// The most processes the container may have.
pub const PIDS_MAX: i32 = 20;

/// The most memory the container may use, in bytes: 100 MiB.
pub const MEMORY_MAX_BYTES: i32 = 100 * 1024 * 1024;

/// The CPU time the container may use in each period, in microseconds.
pub const CPU_QUOTA_US: i32 = 50000;

/// The length of the CPU period, in microseconds: the container gets half a
/// CPU.
pub const CPU_PERIOD_US: i32 = 100000;

/// One write into a file of the container's cgroup directory.
pub struct CgroupWrite {
    pub file: String,
    pub contents: String,
}

/// Whether `w` writes `contents` into the file `file`.
pub open spec fn writes(w: CgroupWrite, file: Seq<char>, contents: Seq<char>) -> bool {
    w.file@ == file && w.contents@ == contents
}

fn write_of(file: &str, contents: String) -> (w: CgroupWrite)
    ensures
        w.file@ == file@,
        w.contents == contents,
{
    CgroupWrite { file: owned(file), contents }
}

/// The writes that limit the container process `pid`, in the order they are
/// made: the process limit, the process itself into the group, the memory
/// limit, then the CPU quota and period.
pub fn cgroup_limit_writes(pid: i32) -> (r: Vec<CgroupWrite>)
    ensures
        r.len() == 4,
        writes(r[0], "pids.max"@, int_decimal(PIDS_MAX as int)),
        writes(r[1], "cgroup.procs"@, int_decimal(pid as int)),
        writes(r[2], "memory.max"@, int_decimal(MEMORY_MAX_BYTES as int)),
        writes(
            r[3],
            "cpu.max"@,
            int_decimal(CPU_QUOTA_US as int) + " "@ + int_decimal(CPU_PERIOD_US as int),
        ),
{
    let mut cpu = decimal_string(CPU_QUOTA_US);
    push_str(&mut cpu, " ");
    let period = decimal_string(CPU_PERIOD_US);
    push_str(&mut cpu, period.as_str());
    let mut r: Vec<CgroupWrite> = Vec::new();
    r.push(write_of("pids.max", decimal_string(PIDS_MAX)));
    r.push(write_of("cgroup.procs", decimal_string(pid)));
    r.push(write_of("memory.max", decimal_string(MEMORY_MAX_BYTES)));
    r.push(write_of("cpu.max", cpu));
    r
}

} // verus!
