//! Which worker pool a decoded record goes to, and how large each pool is.

use vstd::prelude::*;
use crate::record::{ProcessInfo, MAIN_PERF_MAP, SECONDARY_PERF_MAP};

verus! {

/// The two worker pools.
#[derive(Debug, Copy, Clone, PartialEq, Eq, Structural)]
pub enum Pool {
    /// Pool A: one worker per available processing unit.
    Main,
    /// Pool B: exactly one worker.
    Secondary,
}

/// The pool that takes a record with this priority tag, if any.
pub open spec fn pool_for(priority: u32) -> Option<Pool> {
    if priority == MAIN_PERF_MAP {
        Some(Pool::Main)
    } else if priority == SECONDARY_PERF_MAP {
        Some(Pool::Secondary)
    } else {
        None
    }
}

/// Chooses the pool for a record by its priority tag; a record with any other
/// tag goes to no pool.
pub fn route(info: &ProcessInfo) -> (r: Option<Pool>)
    ensures
        r == pool_for(info.perf_map_priority),
        info.perf_map_priority == MAIN_PERF_MAP <==> r == Some(Pool::Main),
        info.perf_map_priority == SECONDARY_PERF_MAP <==> r == Some(Pool::Secondary),
        r is None <==> (info.perf_map_priority != MAIN_PERF_MAP
            && info.perf_map_priority != SECONDARY_PERF_MAP),
{
    if info.perf_map_priority == MAIN_PERF_MAP {
        Some(Pool::Main)
    } else if info.perf_map_priority == SECONDARY_PERF_MAP {
        Some(Pool::Secondary)
    } else {
        None
    }
}

/// Worker counts of the two pools.
#[derive(Debug, Copy, Clone, PartialEq, Eq, Structural)]
pub struct PoolSizes {
    pub main_workers: usize,
    pub secondary_workers: usize,
}

/// Worker counts on a host with `cpus` processing units.
pub fn pool_sizes(cpus: usize) -> (r: PoolSizes)
    ensures
        r.main_workers == cpus,
        r.secondary_workers == 1,
{
    PoolSizes { main_workers: cpus, secondary_workers: 1 }
}

/// Relies on num_cpus::get: the number of processing units this process may
/// use, which its documentation says is always at least one.
#[verifier::external_body]
fn available_cpus() -> (r: usize)
    ensures
        r >= 1,
{
    num_cpus::get()
}

/// Worker counts for this host: as many main workers as processing units
/// (at least one), and one secondary worker.
pub fn plan_pools() -> (r: PoolSizes)
    ensures
        r.main_workers >= 1,
        r.secondary_workers == 1,
{
    pool_sizes(available_cpus())
}

/// A record tagged main reaches only pool A, one tagged secondary only pool
/// B, and a record with any other tag reaches no pool.
pub proof fn lemma_routing(priority: u32)
    ensures
        priority == MAIN_PERF_MAP ==> pool_for(priority) == Some(Pool::Main),
        priority == SECONDARY_PERF_MAP ==> pool_for(priority) == Some(Pool::Secondary),
        priority != MAIN_PERF_MAP && priority != SECONDARY_PERF_MAP ==> pool_for(priority) is None,
{
}

} // verus!
