//! Verified core of the Bua agent runtime: capabilities, traces, module
//! graphs, snapshots and deterministic replay.

pub mod text;
pub mod types;
pub mod clock;
pub mod metrics;
pub mod trace;
pub mod agent_ctx;
pub mod capabilities;
pub mod capability_ctx;
pub mod snapshot;
pub mod strata;
pub mod snapshot_ctx;
pub mod json;
pub mod replay;
pub mod interceptor;
pub mod record;
pub mod error;
pub mod graph;
pub mod builtins;
pub mod transpiler;
pub mod resolver;
pub mod loader;
pub mod hex;
pub mod value;
pub mod queue;
pub mod event_loop;
pub mod tools;
pub mod agent;
pub mod promise;
pub mod config;
pub mod cli;
pub mod run;
