//! What the kernel probe does on each timer tick: classify the process that
//! runs on this CPU and choose the channel that the record is written to.

use vstd::prelude::*;
use crate::record::{ProcessInfo, MAIN_PERF_MAP, SECONDARY_PERF_MAP};

verus! {

/// The two named channels, each one ring buffer per CPU.
#[derive(Debug, Copy, Clone, PartialEq, Eq, Structural)]
pub enum Channel {
    /// The channel that every tick writes to.
    MainMap,
    /// Provisioned beside the main channel; the classification rule writes
    /// nothing to it.
    SecondaryMap,
}

/// A record and the channel of the current CPU that it goes to.
#[derive(Debug, Copy, Clone, PartialEq, Eq, Structural)]
pub struct Emission {
    pub channel: Channel,
    pub record: ProcessInfo,
}

/// The record of a tick on `cpu` where process `pid` runs: pid 0 (no user
/// process) is tagged main, any other pid secondary.
pub open spec fn classified(cpu: u32, pid: u32) -> ProcessInfo {
    if pid == 0 {
        ProcessInfo { perf_map_priority: MAIN_PERF_MAP, pid: 0, cpu }
    } else {
        ProcessInfo { perf_map_priority: SECONDARY_PERF_MAP, pid, cpu }
    }
}

/// Builds the record of one tick.
pub fn classify(cpu: u32, pid: u32) -> (r: ProcessInfo)
    ensures
        r == classified(cpu, pid),
{
    if pid == 0 {
        ProcessInfo { perf_map_priority: MAIN_PERF_MAP, pid: 0, cpu }
    } else {
        ProcessInfo { perf_map_priority: SECONDARY_PERF_MAP, pid, cpu }
    }
}

/// Decides what one tick on `cpu` emits when `pid` is the running process:
/// exactly one record, always to the main channel of that CPU.
pub fn try_perf_event_test(cpu: u32, pid: u32) -> (r: Emission)
    ensures
        r.channel == Channel::MainMap,
        r.record == classified(cpu, pid),
{
    Emission { channel: Channel::MainMap, record: classify(cpu, pid) }
}

/// The status a tick reports once its write was attempted. A rejected write
/// (the consumer has not drained the buffer) drops the sample and the tick
/// still succeeds.
pub fn perf_event_test(write: Result<(), i64>) -> (r: u32)
    ensures
        r == 0,
{
    match write {
        Ok(()) => 0,
        Err(_) => 0,
    }
}

/// Every tick's record carries the executing CPU; a tick with no user process
/// is tagged main with pid 0, any other tick is tagged secondary with the
/// observed pid.
pub proof fn lemma_classification(cpu: u32, pid: u32)
    ensures
        classified(cpu, pid).cpu == cpu,
        pid == 0 ==> classified(cpu, pid).perf_map_priority == MAIN_PERF_MAP
            && classified(cpu, pid).pid == 0,
        pid != 0 ==> classified(cpu, pid).perf_map_priority == SECONDARY_PERF_MAP
            && classified(cpu, pid).pid == pid,
{
}

} // verus!
