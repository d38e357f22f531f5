//! Configurations of the engine, the VM, the scheduler and the runtime.
use vstd::prelude::*;

use crate::capabilities::{CapabilitySet, CapabilitySetView};
use crate::snapshot_ctx::SnapshotConfig;
use crate::types::AgentId;

verus! {

/// The default heap limit: 256 MiB.
pub const DEFAULT_HEAP_BYTES: usize = 268_435_456;

/// The default timeout of a runtime: five minutes, in milliseconds.
pub const DEFAULT_RUNTIME_TIMEOUT_MS: u64 = 300_000;

/// Configuration of a JS engine.
#[derive(Debug)]
pub struct JsEngineConfig {
    /// Max heap size in bytes; `None` for the engine's default.
    pub max_heap_bytes: Option<usize>,
    /// Enable the engine's sampling profiler.
    pub enable_profiler: bool,
    /// Whether to expose `Bua.*` globals.
    pub inject_bua_globals: bool,
    /// Snapshot bytecode to restore from, if any.
    pub snapshot_bytes: Option<Vec<u8>>,
}

impl Default for JsEngineConfig {
    fn default() -> (c: Self)
        ensures
            c.max_heap_bytes == Some(DEFAULT_HEAP_BYTES),
            !c.enable_profiler,
            c.inject_bua_globals,
            c.snapshot_bytes is None,
    {
        JsEngineConfig {
            max_heap_bytes: Some(DEFAULT_HEAP_BYTES),
            enable_profiler: false,
            inject_bua_globals: true,
            snapshot_bytes: None,
        }
    }
}

/// Configuration of the engine thread.
#[derive(Clone, Copy, PartialEq, Eq, Structural, Debug)]
pub struct JscEngineConfig {
    pub max_heap_bytes: usize,
    pub drain_microtasks_after_eval: bool,
}

impl Default for JscEngineConfig {
    fn default() -> (c: Self)
        ensures
            c == (JscEngineConfig {
                max_heap_bytes: DEFAULT_HEAP_BYTES,
                drain_microtasks_after_eval: true,
            }),
    {
        JscEngineConfig { max_heap_bytes: DEFAULT_HEAP_BYTES, drain_microtasks_after_eval: true }
    }
}

/// Configuration of a VM: heap limit, base directory, microtask draining.
#[derive(Debug)]
pub struct VmConfig {
    pub max_heap_bytes: usize,
    pub base_dir: String,
    pub drain_microtasks: bool,
}

impl VmConfig {
    /// The default configuration over `base_dir` (the caller passes the
    /// working directory, or `.` when it is unknown).
    pub fn with_base_dir(base_dir: String) -> (c: Self)
        ensures
            c.max_heap_bytes == DEFAULT_HEAP_BYTES,
            c.base_dir@ == base_dir@,
            c.drain_microtasks,
    {
        VmConfig { max_heap_bytes: DEFAULT_HEAP_BYTES, base_dir, drain_microtasks: true }
    }

    /// The engine thread's configuration for this VM: its heap limit, and
    /// draining microtasks after each evaluation as configured.
    pub fn engine_config(&self) -> (c: JscEngineConfig)
        ensures
            c == (JscEngineConfig {
                max_heap_bytes: self.max_heap_bytes,
                drain_microtasks_after_eval: self.drain_microtasks,
            }),
    {
        JscEngineConfig {
            max_heap_bytes: self.max_heap_bytes,
            drain_microtasks_after_eval: self.drain_microtasks,
        }
    }
}

/// Configuration of the scheduler.
#[derive(Clone, Copy, PartialEq, Eq, Structural, Debug)]
pub struct SchedulerConfig {
    /// Maximum number of agents running concurrently.
    pub max_concurrent_agents: usize,
}

impl SchedulerConfig {
    /// A scheduler running at most `max_concurrent_agents` agents (the
    /// caller passes the machine's parallelism, or 4 when it is unknown).
    pub fn new(max_concurrent_agents: usize) -> (c: Self)
        ensures
            c.max_concurrent_agents == max_concurrent_agents,
    {
        SchedulerConfig { max_concurrent_agents }
    }
}

/// Full configuration of a runtime.
#[derive(Debug)]
pub struct RuntimeConfig {
    pub entrypoint: String,
    pub capabilities: CapabilitySet,
    /// Timeout in milliseconds.
    pub timeout_ms: Option<u64>,
    pub max_heap_bytes: usize,
    pub parent_id: Option<AgentId>,
    pub snapshot_config: Option<SnapshotConfig>,
    pub trace_enabled: bool,
}

impl RuntimeConfig {
    /// A configuration with the default timeout and heap limit, no parent,
    /// no snapshots, and tracing on.
    pub fn new(entrypoint: String, capabilities: CapabilitySet) -> (c: Self)
        ensures
            c.entrypoint@ == entrypoint@,
            c.capabilities@ == capabilities@,
            c.timeout_ms == Some(DEFAULT_RUNTIME_TIMEOUT_MS),
            c.max_heap_bytes == DEFAULT_HEAP_BYTES,
            c.parent_id is None,
            c.snapshot_config is None,
            c.trace_enabled,
    {
        RuntimeConfig {
            entrypoint,
            capabilities,
            timeout_ms: Some(DEFAULT_RUNTIME_TIMEOUT_MS),
            max_heap_bytes: DEFAULT_HEAP_BYTES,
            parent_id: None,
            snapshot_config: None,
            trace_enabled: true,
        }
    }

    /// The same configuration with a timeout.
    pub fn with_timeout(self, timeout_ms: u64) -> (c: Self)
        ensures
            c.timeout_ms == Some(timeout_ms),
            c.entrypoint == self.entrypoint && c.parent_id == self.parent_id,
            c.max_heap_bytes == self.max_heap_bytes && c.trace_enabled == self.trace_enabled,
    {
        let mut c = self;
        c.timeout_ms = Some(timeout_ms);
        c
    }

    /// The same configuration with a parent agent.
    pub fn with_parent(self, id: AgentId) -> (c: Self)
        ensures
            c.parent_id == Some(id),
            c.entrypoint == self.entrypoint && c.timeout_ms == self.timeout_ms,
            c.max_heap_bytes == self.max_heap_bytes && c.trace_enabled == self.trace_enabled,
    {
        let mut c = self;
        c.parent_id = Some(id);
        c
    }

    /// The same configuration with snapshots.
    pub fn with_snapshots(self, config: SnapshotConfig) -> (c: Self)
        ensures
            c.snapshot_config matches Some(s) && s == config,
            c.entrypoint == self.entrypoint && c.timeout_ms == self.timeout_ms,
            c.parent_id == self.parent_id && c.trace_enabled == self.trace_enabled,
    {
        let mut c = self;
        c.snapshot_config = Some(config);
        c
    }
}

} // verus!
