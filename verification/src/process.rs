//! Per-poll process records.

use vstd::prelude::*;

verus! {

/// One running process as observed in a single poll: identifier,
/// display name, resident memory in mebibytes, CPU usage in hundredths
/// of a percent, and the joined command line.
pub struct ProcessInfo {
    pub pid: u64,
    pub name: String,
    pub memory_mb: u64,
    pub cpu_centipercent: u32,
    pub cmd: String,
}

/// CPU usage below half a percent counts as idle.
pub const IDLE_CPU_CENTIPERCENT: u32 = 50;

impl ProcessInfo {
    /// Whether this record shows near-zero CPU activity.
    pub open spec fn spec_is_idle(&self) -> bool {
        self.cpu_centipercent < IDLE_CPU_CENTIPERCENT
    }

    /// Whether this record shows near-zero CPU activity.
    pub fn is_idle(&self) -> (r: bool)
        ensures
            r == self.spec_is_idle(),
    {
        self.cpu_centipercent < IDLE_CPU_CENTIPERCENT
    }

}

/// No two records of `procs` share a pid.
pub open spec fn distinct_pids(procs: Seq<ProcessInfo>) -> bool {
    forall|i: int, j: int|
        #![trigger procs[i].pid, procs[j].pid]
        0 <= i < j < procs.len() ==> procs[i].pid != procs[j].pid
}

} // verus!
