//! Sharding settings of the server: how shard threads are laid over CPUs and
//! whether they are pinned to them.

use vstd::prelude::*;

verus! {

/// CPU set of a NUMA-aware allocation.
#[derive(Debug, Clone, PartialEq, Eq)]
pub struct NumaConfig {
    /// NUMA nodes to place shards on; empty means every node.
    pub nodes: Vec<usize>,
    /// Cores used per node; `0` means every core of the node.
    pub cores_per_node: usize,
    /// Whether hyperthread siblings are left unused.
    pub avoid_hyperthread: bool,
}

/// How many shards run, and on which CPUs.
#[derive(Debug, Clone, PartialEq, Eq)]
pub enum CpuAllocation {
    /// One shard per allowed CPU.
    All,
    /// This many shards.
    Count(usize),
    /// One shard per CPU of the half-open range.
    Range(usize, usize),
    /// Shards placed by NUMA topology.
    NumaAware(NumaConfig),
}

impl Default for CpuAllocation {
    fn default() -> (r: Self)
        ensures
            r is All,
    {
        CpuAllocation::All
    }
}

/// Whether shard threads are pinned to dedicated cores by default: pinning
/// maximises cache locality on a host the server owns.
pub const DEFAULT_PIN_CORES: bool = true;

/// Sharding config of the server. It consumes only the CPU allocation and
/// whether shard threads are pinned to dedicated cores (`sched_setaffinity`).
/// Pinning maximises cache locality when the server owns its cores; `false`
/// suits a host whose cores are shared with other workloads, where every
/// process pinning to the same low-numbered cores would pile onto one core
/// while the rest sit idle. With a NUMA-aware allocation, `false` drops both
/// the CPU and memory-node bindings.
#[derive(Debug, Clone, PartialEq, Eq)]
pub struct ShardingConfig {
    pub cpu_allocation: CpuAllocation,
    pub pin_cores: bool,
}

impl Default for ShardingConfig {
    fn default() -> (r: Self)
        ensures
            r.cpu_allocation is All,
            r.pin_cores == DEFAULT_PIN_CORES,
    {
        ShardingConfig { cpu_allocation: CpuAllocation::default(), pin_cores: DEFAULT_PIN_CORES }
    }
}

} // verus!
