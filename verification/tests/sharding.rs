use iggy_core::sharding::{CpuAllocation, ShardingConfig, DEFAULT_PIN_CORES};

#[test]
fn default_sharding_uses_every_cpu() {
    let config = ShardingConfig::default();
    assert_eq!(config.cpu_allocation, CpuAllocation::All);
    assert_eq!(config.pin_cores, DEFAULT_PIN_CORES);
    assert_eq!(CpuAllocation::default(), CpuAllocation::All);
}
