//! How the engine that runs the components is configured.
use vstd::prelude::*;

verus! {

/// Settings of the pooling instance allocator; `None` keeps the allocator's
/// default.
#[derive(Clone, Copy, Debug, Default, PartialEq, Eq, Structural)]
pub struct PoolingSettings {
    pub max_unused_warm_slots: Option<u32>,
    pub decommit_batch_size: Option<usize>,
    pub async_stack_keep_resident: Option<usize>,
    pub linear_memory_keep_resident: Option<usize>,
    pub table_keep_resident: Option<usize>,
    pub total_component_instances: Option<u32>,
    pub max_component_instance_size: Option<usize>,
    pub max_core_instances_per_component: Option<u32>,
    pub max_memories_per_component: Option<u32>,
    pub max_tables_per_component: Option<u32>,
    pub total_memories: Option<u32>,
    pub total_tables: Option<u32>,
    pub total_stacks: Option<u32>,
    pub total_core_instances: Option<u32>,
    pub max_core_instance_size: Option<usize>,
    pub max_tables_per_module: Option<u32>,
    pub table_elements: Option<usize>,
    pub max_memories_per_module: Option<u32>,
    pub max_memory_size: Option<usize>,
    pub total_gc_heaps: Option<u32>,
}

/// The pooling allocator's settings for `instances` concurrent instances:
/// what `env` sets, and, where it sets no total (of component instances,
/// memories, tables, stacks, core instances and GC heaps), `instances`.
pub fn new_pooling_config(instances: u32, env: &PoolingSettings) -> (r: PoolingSettings)
    ensures
        r.max_unused_warm_slots == env.max_unused_warm_slots,
        r.decommit_batch_size == env.decommit_batch_size,
        r.async_stack_keep_resident == env.async_stack_keep_resident,
        r.linear_memory_keep_resident == env.linear_memory_keep_resident,
        r.table_keep_resident == env.table_keep_resident,
        r.total_component_instances == Some(env.total_component_instances.unwrap_or(instances)),
        r.max_component_instance_size == env.max_component_instance_size,
        r.max_core_instances_per_component == env.max_core_instances_per_component,
        r.max_memories_per_component == env.max_memories_per_component,
        r.max_tables_per_component == env.max_tables_per_component,
        r.total_memories == Some(env.total_memories.unwrap_or(instances)),
        r.total_tables == Some(env.total_tables.unwrap_or(instances)),
        r.total_stacks == Some(env.total_stacks.unwrap_or(instances)),
        r.total_core_instances == Some(env.total_core_instances.unwrap_or(instances)),
        r.max_core_instance_size == env.max_core_instance_size,
        r.max_tables_per_module == env.max_tables_per_module,
        r.table_elements == env.table_elements,
        r.max_memories_per_module == env.max_memories_per_module,
        r.max_memory_size == env.max_memory_size,
        r.total_gc_heaps == Some(env.total_gc_heaps.unwrap_or(instances)),
{
    PoolingSettings {
        max_unused_warm_slots: env.max_unused_warm_slots,
        decommit_batch_size: env.decommit_batch_size,
        async_stack_keep_resident: env.async_stack_keep_resident,
        linear_memory_keep_resident: env.linear_memory_keep_resident,
        table_keep_resident: env.table_keep_resident,
        total_component_instances: match env.total_component_instances {
            Some(v) => Some(v),
            None => Some(instances),
        },
        max_component_instance_size: env.max_component_instance_size,
        max_core_instances_per_component: env.max_core_instances_per_component,
        max_memories_per_component: env.max_memories_per_component,
        max_tables_per_component: env.max_tables_per_component,
        total_memories: match env.total_memories {
            Some(v) => Some(v),
            None => Some(instances),
        },
        total_tables: match env.total_tables {
            Some(v) => Some(v),
            None => Some(instances),
        },
        total_stacks: match env.total_stacks {
            Some(v) => Some(v),
            None => Some(instances),
        },
        total_core_instances: match env.total_core_instances {
            Some(v) => Some(v),
            None => Some(instances),
        },
        max_core_instance_size: env.max_core_instance_size,
        max_tables_per_module: env.max_tables_per_module,
        table_elements: env.table_elements,
        max_memories_per_module: env.max_memories_per_module,
        max_memory_size: env.max_memory_size,
        total_gc_heaps: match env.total_gc_heaps {
            Some(v) => Some(v),
            None => Some(instances),
        },
    }
}

/// How instances get their memory.
#[derive(Clone, Copy, Debug, PartialEq, Eq, Structural)]
pub enum AllocationStrategy {
    OnDemand,
    Pooling(PoolingSettings),
}

/// Settings of the engine that the environment may give.
#[derive(Clone, Copy, Debug, Default, PartialEq, Eq, Structural)]
pub struct EngineSettings {
    /// Whether to use the pooling allocator, where this is fixed.
    pub pooling: Option<bool>,
    pub pooling_settings: PoolingSettings,
    pub async_stack_size: Option<usize>,
    pub coredump_on_trap: Option<bool>,
    pub debug_info: Option<bool>,
    pub max_wasm_stack: Option<usize>,
}

/// The configuration an engine is built from. Asynchronous calls, epoch
/// interruption and the component model are always on.
#[derive(Clone, Copy, Debug, PartialEq, Eq, Structural)]
pub struct EngineConfig {
    pub async_support: bool,
    pub epoch_interruption: bool,
    pub wasm_component_model: bool,
    pub allocation_strategy: AllocationStrategy,
    pub async_stack_size: Option<usize>,
    pub coredump_on_trap: Option<bool>,
    pub debug_info: Option<bool>,
    pub max_wasm_stack: Option<usize>,
}

/// Whether to use the pooling allocator: as the environment says, else as
/// `probe` finds (whether this machine can reserve the memory it needs).
pub fn use_pooling_allocator_by_default<E, F: FnOnce() -> Result<bool, E>>(
    pooling: Option<bool>,
    probe: F,
) -> (r: Result<bool, E>)
    requires
        call_requires(probe, ()),
    ensures
        pooling matches Some(v) ==> r == Ok::<bool, E>(v),
        pooling is None ==> call_ensures(probe, (), r),
{
    match pooling {
        Some(v) => Ok(v),
        None => probe(),
    }
}

/// The configuration to build the engine from: the pooling allocator for
/// `max_instances` instances where `use_pooling` is `Ok(true)`, else
/// instances on demand.
pub open spec fn engine_config(
    max_instances: u32,
    use_pooling: bool,
    settings: EngineSettings,
    pooling: PoolingSettings,
) -> EngineConfig {
    EngineConfig {
        async_support: true,
        epoch_interruption: true,
        wasm_component_model: true,
        allocation_strategy: if use_pooling {
            AllocationStrategy::Pooling(pooling)
        } else {
            AllocationStrategy::OnDemand
        },
        async_stack_size: settings.async_stack_size,
        coredump_on_trap: settings.coredump_on_trap,
        debug_info: settings.debug_info,
        max_wasm_stack: settings.max_wasm_stack,
    }
}

/// Builds the engine with `build`: from the configuration that the settings
/// and `use_pooling` give; should that fail, once more with instances on
/// demand, whose outcome stands.
pub fn new_engine<T, E, P, F: Fn(&EngineConfig) -> Result<T, E>>(
    max_instances: u32,
    settings: &EngineSettings,
    use_pooling: Result<bool, P>,
    build: &F,
) -> (r: Result<T, E>)
    requires
        forall|c: EngineConfig| call_requires(*build, (&c,)),
    ensures
        ({
            let pooled = use_pooling == Ok::<bool, P>(true);
            let first = engine_config(
                max_instances,
                pooled,
                *settings,
                new_pooling_config_spec(max_instances, settings.pooling_settings),
            );
            let fallback = EngineConfig { allocation_strategy: AllocationStrategy::OnDemand, ..first };
            ||| r is Ok && call_ensures(*build, (&first,), r)
            ||| (exists|e: E| call_ensures(*build, (&first,), Err::<T, E>(e))) && call_ensures(
                *build,
                (&fallback,),
                r,
            )
        }),
{
    let pooled = match use_pooling {
        Ok(true) => true,
        _ => false,
    };
    let pooling = new_pooling_config(max_instances, &settings.pooling_settings);
    let mut config = EngineConfig {
        async_support: true,
        epoch_interruption: true,
        wasm_component_model: true,
        allocation_strategy: if pooled {
            AllocationStrategy::Pooling(pooling)
        } else {
            AllocationStrategy::OnDemand
        },
        async_stack_size: settings.async_stack_size,
        coredump_on_trap: settings.coredump_on_trap,
        debug_info: settings.debug_info,
        max_wasm_stack: settings.max_wasm_stack,
    };
    let first = build(&config);
    match first {
        Ok(engine) => Ok(engine),
        Err(e) => {
            config.allocation_strategy = AllocationStrategy::OnDemand;
            build(&config)
        },
    }
}

/// [`new_pooling_config`], in specifications.
pub open spec fn new_pooling_config_spec(instances: u32, env: PoolingSettings) -> PoolingSettings {
    PoolingSettings {
        max_unused_warm_slots: env.max_unused_warm_slots,
        decommit_batch_size: env.decommit_batch_size,
        async_stack_keep_resident: env.async_stack_keep_resident,
        linear_memory_keep_resident: env.linear_memory_keep_resident,
        table_keep_resident: env.table_keep_resident,
        total_component_instances: match env.total_component_instances {
            Some(v) => Some(v),
            None => Some(instances),
        },
        max_component_instance_size: env.max_component_instance_size,
        max_core_instances_per_component: env.max_core_instances_per_component,
        max_memories_per_component: env.max_memories_per_component,
        max_tables_per_component: env.max_tables_per_component,
        total_memories: match env.total_memories {
            Some(v) => Some(v),
            None => Some(instances),
        },
        total_tables: match env.total_tables {
            Some(v) => Some(v),
            None => Some(instances),
        },
        total_stacks: match env.total_stacks {
            Some(v) => Some(v),
            None => Some(instances),
        },
        total_core_instances: match env.total_core_instances {
            Some(v) => Some(v),
            None => Some(instances),
        },
        max_core_instance_size: env.max_core_instance_size,
        max_tables_per_module: env.max_tables_per_module,
        table_elements: env.table_elements,
        max_memories_per_module: env.max_memories_per_module,
        max_memory_size: env.max_memory_size,
        total_gc_heaps: match env.total_gc_heaps {
            Some(v) => Some(v),
            None => Some(instances),
        },
    }
}

/// The engine always runs asynchronously, interrupts by epochs and runs
/// components; it pools instances exactly when pooling is asked for, with
/// the given pooling limits, and otherwise makes instances on demand; the
/// other settings pass through as they are.
pub proof fn lemma_engine_config_follows_the_settings(
    max_instances: u32,
    use_pooling: bool,
    settings: EngineSettings,
    pooling: PoolingSettings,
)
    ensures
        ({
            let c = engine_config(max_instances, use_pooling, settings, pooling);
            &&& c.async_support && c.epoch_interruption && c.wasm_component_model
            &&& (c.allocation_strategy is Pooling <==> use_pooling)
            &&& c.allocation_strategy matches AllocationStrategy::Pooling(p) ==> p == pooling
            &&& !use_pooling ==> c.allocation_strategy == AllocationStrategy::OnDemand
            &&& c.async_stack_size == settings.async_stack_size
            &&& c.coredump_on_trap == settings.coredump_on_trap
            &&& c.debug_info == settings.debug_info
            &&& c.max_wasm_stack == settings.max_wasm_stack
        }),
{
}

/// Every pooling limit that the environment sets is kept; of those it does
/// not set, the counts of instances, memories, tables, stacks and GC heaps
/// become the instance limit, and the rest stay unset.
pub proof fn lemma_pooling_limits_default_to_instances(instances: u32, env: PoolingSettings)
    ensures
        ({
            let p = new_pooling_config_spec(instances, env);
            &&& p.total_component_instances == Some(
                if env.total_component_instances is Some {
                    env.total_component_instances->0
                } else {
                    instances
                },
            )
            &&& p.total_memories == Some(
                if env.total_memories is Some {
                    env.total_memories->0
                } else {
                    instances
                },
            )
            &&& p.total_tables == Some(
                if env.total_tables is Some {
                    env.total_tables->0
                } else {
                    instances
                },
            )
            &&& p.total_stacks == Some(
                if env.total_stacks is Some {
                    env.total_stacks->0
                } else {
                    instances
                },
            )
            &&& p.total_core_instances == Some(
                if env.total_core_instances is Some {
                    env.total_core_instances->0
                } else {
                    instances
                },
            )
            &&& p.total_gc_heaps == Some(
                if env.total_gc_heaps is Some {
                    env.total_gc_heaps->0
                } else {
                    instances
                },
            )
            &&& p.max_unused_warm_slots == env.max_unused_warm_slots
            &&& p.decommit_batch_size == env.decommit_batch_size
            &&& p.async_stack_keep_resident == env.async_stack_keep_resident
            &&& p.linear_memory_keep_resident == env.linear_memory_keep_resident
            &&& p.table_keep_resident == env.table_keep_resident
            &&& p.max_component_instance_size == env.max_component_instance_size
            &&& p.max_core_instances_per_component == env.max_core_instances_per_component
            &&& p.max_memories_per_component == env.max_memories_per_component
            &&& p.max_tables_per_component == env.max_tables_per_component
            &&& p.max_core_instance_size == env.max_core_instance_size
            &&& p.max_tables_per_module == env.max_tables_per_module
            &&& p.table_elements == env.table_elements
            &&& p.max_memories_per_module == env.max_memories_per_module
            &&& p.max_memory_size == env.max_memory_size
        }),
{
}

} // verus!
