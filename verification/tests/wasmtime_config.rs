use wasmx::wasmtime::{
    new_engine, new_pooling_config, use_pooling_allocator_by_default, AllocationStrategy,
    EngineConfig, EngineSettings, PoolingSettings,
};

#[test]
fn pooling_totals_default_to_instance_count() {
    let c = new_pooling_config(10, &PoolingSettings::default());
    assert_eq!(c.total_component_instances, Some(10));
    assert_eq!(c.total_memories, Some(10));
    assert_eq!(c.total_tables, Some(10));
    assert_eq!(c.total_stacks, Some(10));
    assert_eq!(c.total_core_instances, Some(10));
    assert_eq!(c.total_gc_heaps, Some(10));
    assert_eq!(c.max_memory_size, None);
    let env = PoolingSettings { total_memories: Some(3), max_memory_size: Some(1 << 20), ..PoolingSettings::default() };
    let c = new_pooling_config(10, &env);
    assert_eq!(c.total_memories, Some(3));
    assert_eq!(c.total_tables, Some(10));
    assert_eq!(c.max_memory_size, Some(1 << 20));
}

#[test]
fn pooling_choice() {
    assert_eq!(use_pooling_allocator_by_default::<(), _>(Some(false), || panic!()), Ok(false));
    assert_eq!(use_pooling_allocator_by_default::<(), _>(None, || Ok(true)), Ok(true));
    assert_eq!(use_pooling_allocator_by_default::<&str, _>(None, || Err("probe")), Err("probe"));
}

#[test]
fn engine_falls_back_to_on_demand() {
    let settings = EngineSettings { debug_info: Some(true), ..EngineSettings::default() };
    let build = |c: &EngineConfig| -> Result<EngineConfig, &'static str> {
        match c.allocation_strategy {
            AllocationStrategy::Pooling(_) => Err("no pooling here"),
            AllocationStrategy::OnDemand => Ok(*c),
        }
    };
    let e = new_engine(4, &settings, Ok::<bool, ()>(true), &build).unwrap();
    assert_eq!(e.allocation_strategy, AllocationStrategy::OnDemand);
    assert!(e.async_support && e.epoch_interruption && e.wasm_component_model);
    assert_eq!(e.debug_info, Some(true));
    let pooled = |c: &EngineConfig| -> Result<EngineConfig, &'static str> { Ok(*c) };
    let e = new_engine(4, &settings, Ok::<bool, ()>(true), &pooled).unwrap();
    assert!(matches!(e.allocation_strategy, AllocationStrategy::Pooling(p) if p.total_stacks == Some(4)));
    let e = new_engine(4, &settings, Err::<bool, ()>(()), &pooled).unwrap();
    assert_eq!(e.allocation_strategy, AllocationStrategy::OnDemand);
}
