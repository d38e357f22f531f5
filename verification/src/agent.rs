//! Agents: their configuration, their status, and the decisions of an
//! agent's supervisor — how its message pump answers each event, and what
//! status its task ends with. Spawning tasks, channels and timers are the
//! caller's part.
use vstd::prelude::*;

use crate::capabilities::{CapabilitySet, CapabilitySetView};
use crate::types::AgentId;

verus! {

/// The configuration of an agent.
#[derive(Debug)]
pub struct AgentConfig {
    pub id: AgentId,
    pub entrypoint: String,
    pub capabilities: CapabilitySet,
    /// Timeout in milliseconds.
    pub timeout_ms: Option<u64>,
    pub max_heap_bytes: Option<usize>,
    pub parent_id: Option<AgentId>,
    /// Environment variables passed to the agent.
    pub env: Vec<(String, String)>,
}

/// The default timeout of an agent: five minutes.
pub const DEFAULT_TIMEOUT_MS: u64 = 300_000;

/// The default heap limit of an agent: 256 MiB.
pub const DEFAULT_MAX_HEAP_BYTES: usize = 268_435_456;

impl AgentConfig {
    /// A configuration with a fresh identifier, the default timeout and heap
    /// limit, no parent and no environment.
    pub fn new(entrypoint: String, capabilities: CapabilitySet) -> (c: Self)
        ensures
            c.entrypoint@ == entrypoint@,
            c.capabilities@ == capabilities@,
            c.timeout_ms == Some(DEFAULT_TIMEOUT_MS),
            c.max_heap_bytes == Some(DEFAULT_MAX_HEAP_BYTES),
            c.parent_id is None,
            c.env@.len() == 0,
    {
        AgentConfig {
            id: AgentId::new(),
            entrypoint,
            capabilities,
            timeout_ms: Some(DEFAULT_TIMEOUT_MS),
            max_heap_bytes: Some(DEFAULT_MAX_HEAP_BYTES),
            parent_id: None,
            env: Vec::new(),
        }
    }
}

/// The status of an agent as its supervisor sees it.
#[derive(Debug)]
pub enum AgentStatus {
    Pending,
    Running,
    Completed { exit_code: i32 },
    Failed { error: String },
    TimedOut,
}

/// The agent type: agents are spawned by the caller with the decisions below.
#[derive(Debug)]
pub struct Agent;

/// What the message pump of a running agent sees.
#[derive(Debug)]
pub enum PumpEvent {
    /// A tool call arrived.
    ToolCall,
    /// A shutdown was asked for.
    Shutdown,
    /// The message channel closed.
    ChannelClosed,
    /// The evaluation ended: `None` when it succeeded, else its error text.
    EvalDone(Option<String>),
    /// The evaluation task could not be joined; the join error's text.
    EvalJoinFailed(String),
}

/// What the pump does with an event.
#[derive(Debug)]
pub enum PumpAction {
    /// Dispatch the tool call and keep pumping.
    DispatchTool,
    /// Stop with this status.
    Finish(AgentStatus),
}

/// How the pump answers an event: a tool call is dispatched; a shutdown or
/// a closed channel completes the agent with exit code 0; the evaluation
/// completes it (0) or fails it with the error's text.
pub fn pump_step(event: PumpEvent) -> (a: PumpAction)
    ensures
        match event {
            PumpEvent::ToolCall => a is DispatchTool,
            PumpEvent::Shutdown => a matches PumpAction::Finish(AgentStatus::Completed { exit_code })
                && exit_code == 0,
            PumpEvent::ChannelClosed => a matches PumpAction::Finish(
                AgentStatus::Completed { exit_code },
            ) && exit_code == 0,
            PumpEvent::EvalDone(None) => a matches PumpAction::Finish(
                AgentStatus::Completed { exit_code },
            ) && exit_code == 0,
            PumpEvent::EvalDone(Some(e)) => a matches PumpAction::Finish(
                AgentStatus::Failed { error },
            ) && error@ == e@,
            PumpEvent::EvalJoinFailed(e) => a matches PumpAction::Finish(
                AgentStatus::Failed { error },
            ) && error@ == e@,
        },
{
    match event {
        PumpEvent::ToolCall => PumpAction::DispatchTool,
        PumpEvent::Shutdown => PumpAction::Finish(AgentStatus::Completed { exit_code: 0 }),
        PumpEvent::ChannelClosed => PumpAction::Finish(AgentStatus::Completed { exit_code: 0 }),
        PumpEvent::EvalDone(None) => PumpAction::Finish(AgentStatus::Completed { exit_code: 0 }),
        PumpEvent::EvalDone(Some(e)) => PumpAction::Finish(AgentStatus::Failed { error: e }),
        PumpEvent::EvalJoinFailed(e) => PumpAction::Finish(AgentStatus::Failed { error: e }),
    }
}

/// How an agent's task ended, as its supervisor sees it.
#[derive(Debug)]
pub enum TaskOutcome {
    /// The task returned this status.
    Finished(AgentStatus),
    /// The task could not be joined.
    JoinFailed,
    /// The timeout elapsed first.
    TimedOut,
}

/// The final status of an agent: the task's own status, a join failure as
/// `Failed` with the text `join error`, and a timeout as `TimedOut`.
pub fn final_status(outcome: TaskOutcome) -> (s: AgentStatus)
    ensures
        match outcome {
            TaskOutcome::Finished(st) => s == st,
            TaskOutcome::JoinFailed => s matches AgentStatus::Failed { error } && error@
                == "join error"@,
            TaskOutcome::TimedOut => s is TimedOut,
        },
{
    match outcome {
        TaskOutcome::Finished(st) => st,
        TaskOutcome::JoinFailed => AgentStatus::Failed { error: "join error".to_owned() },
        TaskOutcome::TimedOut => AgentStatus::TimedOut,
    }
}

/// The status of an agent whose engine could not start: failed with the
/// error's message.
pub fn engine_start_failed(message: String) -> (s: AgentStatus)
    ensures
        s matches AgentStatus::Failed { error } && error@ == message@,
{
    AgentStatus::Failed { error: message }
}

/// The status a handle reports when it has no task to wait for.
pub fn detached_status() -> (s: AgentStatus)
    ensures
        s matches AgentStatus::Completed { exit_code } && exit_code == 0,
{
    AgentStatus::Completed { exit_code: 0 }
}

} // verus!
