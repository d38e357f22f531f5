//! The identity and lifecycle of one agent.
use vstd::prelude::*;

use crate::clock::{micros_since, monotonic_now, wall_clock_micros};
use crate::types::{AgentId, ExecutionId};

verus! {

/// Agent lifecycle states.
#[derive(Debug)]
pub enum AgentLifecycle {
    /// Created but not yet started.
    Pending,
    /// Engine running.
    Running { started_at_us: u64 },
    /// Successfully completed.
    Completed { exit_code: i32, duration_us: u64 },
    /// Failed with an error.
    Failed { error: String, duration_us: u64 },
    /// Killed by timeout.
    TimedOut { timeout_ms: u64 },
    /// Cancelled by parent or scheduler.
    Cancelled,
}

/// Whether a lifecycle state is final.
pub open spec fn lifecycle_terminal(l: AgentLifecycle) -> bool {
    l is Completed || l is Failed || l is TimedOut || l is Cancelled
}

impl AgentLifecycle {
    /// Completed, failed, timed out and cancelled agents are done.
    pub fn is_terminal(&self) -> (r: bool)
        ensures
            r == lifecycle_terminal(*self),
    {
        match self {
            AgentLifecycle::Completed { .. } => true,
            AgentLifecycle::Failed { .. } => true,
            AgentLifecycle::TimedOut { .. } => true,
            AgentLifecycle::Cancelled => true,
            _ => false,
        }
    }

    /// Whether the agent is running.
    pub fn is_running(&self) -> (r: bool)
        ensures
            r == (*self is Running),
    {
        match self {
            AgentLifecycle::Running { .. } => true,
            _ => false,
        }
    }

    /// The exit code of a completed agent.
    pub fn exit_code(&self) -> (r: Option<i32>)
        ensures
            match *self {
                AgentLifecycle::Completed { exit_code, .. } => r == Some(exit_code),
                _ => r is None,
            },
    {
        match self {
            AgentLifecycle::Completed { exit_code, .. } => Some(*exit_code),
            _ => None,
        }
    }

    /// A copy of this state.
    pub fn duplicate(&self) -> (r: AgentLifecycle)
        ensures
            match (*self, r) {
                (AgentLifecycle::Failed { error: a, duration_us: d }, AgentLifecycle::Failed {
                    error: b,
                    duration_us: e,
                }) => a@ == b@ && d == e,
                (AgentLifecycle::Failed { .. }, _) => false,
                _ => r == *self,
            },
    {
        match self {
            AgentLifecycle::Pending => AgentLifecycle::Pending,
            AgentLifecycle::Running { started_at_us } => AgentLifecycle::Running {
                started_at_us: *started_at_us,
            },
            AgentLifecycle::Completed { exit_code, duration_us } => AgentLifecycle::Completed {
                exit_code: *exit_code,
                duration_us: *duration_us,
            },
            AgentLifecycle::Failed { error, duration_us } => AgentLifecycle::Failed {
                error: error.clone(),
                duration_us: *duration_us,
            },
            AgentLifecycle::TimedOut { timeout_ms } => AgentLifecycle::TimedOut {
                timeout_ms: *timeout_ms,
            },
            AgentLifecycle::Cancelled => AgentLifecycle::Cancelled,
        }
    }
}

/// Identity and lifecycle of one agent.
#[derive(Debug)]
pub struct AgentContext {
    id: AgentId,
    execution_id: ExecutionId,
    parent_id: Option<AgentId>,
    entrypoint: String,
    timeout_ms: Option<u64>,
    lifecycle: AgentLifecycle,
    start: Option<std::time::Instant>,
}

impl AgentContext {
    /// The agent's identifier.
    pub closed spec fn spec_id(&self) -> AgentId {
        self.id
    }

    /// The execution's identifier.
    pub closed spec fn spec_execution_id(&self) -> ExecutionId {
        self.execution_id
    }

    /// The agent's lifecycle state.
    pub closed spec fn state(&self) -> AgentLifecycle {
        self.lifecycle
    }

    /// The agent's parent, if any.
    pub closed spec fn spec_parent(&self) -> Option<AgentId> {
        self.parent_id
    }

    /// The agent's entry point.
    pub closed spec fn spec_entrypoint(&self) -> Seq<char> {
        self.entrypoint@
    }

    /// The agent's timeout in milliseconds, if any.
    pub closed spec fn spec_timeout(&self) -> Option<u64> {
        self.timeout_ms
    }

    /// Whether the agent was started.
    pub closed spec fn started(&self) -> bool {
        self.start is Some
    }

    /// A pending agent with fresh identifiers.
    pub fn new(entrypoint: String, parent_id: Option<AgentId>, timeout_ms: Option<u64>) -> (c: Self)
        ensures
            c.state() is Pending,
            c.spec_parent() == parent_id,
            c.spec_entrypoint() == entrypoint@,
            c.spec_timeout() == timeout_ms,
    {
        AgentContext {
            id: AgentId::new(),
            execution_id: ExecutionId::new(),
            parent_id,
            entrypoint,
            timeout_ms,
            lifecycle: AgentLifecycle::Pending,
            start: None,
        }
    }

    /// The agent's identifier.
    pub fn id(&self) -> (id: AgentId)
        ensures
            id == self.spec_id(),
    {
        self.id
    }

    /// The execution's identifier.
    pub fn execution_id(&self) -> (id: ExecutionId)
        ensures
            id == self.spec_execution_id(),
    {
        self.execution_id
    }

    /// The parent agent, if any.
    pub fn parent_id(&self) -> (p: Option<AgentId>)
        ensures
            p == self.spec_parent(),
    {
        self.parent_id
    }

    /// The entry point.
    pub fn entrypoint(&self) -> (e: String)
        ensures
            e@ == self.spec_entrypoint(),
    {
        self.entrypoint.clone()
    }

    /// The timeout in milliseconds, if any.
    pub fn timeout(&self) -> (t: Option<u64>)
        ensures
            t == self.spec_timeout(),
    {
        self.timeout_ms
    }

    /// Pending → Running. Only a pending agent can start.
    pub fn transition_running(&mut self)
        requires
            old(self).state() is Pending,
        ensures
            final(self).state() is Running,
            final(self).started(),
            final(self).spec_id() == old(self).spec_id(),
    {
        self.lifecycle = AgentLifecycle::Running { started_at_us: wall_clock_micros() };
        self.start = Some(monotonic_now());
    }

    fn run_duration(&self) -> (d: u64)
        ensures
            !self.started() ==> d == 0,
    {
        match &self.start {
            Some(t) => micros_since(t),
            None => 0,
        }
    }

    /// → Completed with `exit_code`.
    pub fn transition_completed(&mut self, exit_code: i32)
        ensures
            final(self).state() matches AgentLifecycle::Completed { exit_code: c, .. } && c
                == exit_code,
            final(self).spec_id() == old(self).spec_id(),
    {
        let duration_us = self.run_duration();
        self.lifecycle = AgentLifecycle::Completed { exit_code, duration_us };
    }

    /// → Failed with `error`.
    pub fn transition_failed(&mut self, error: String)
        ensures
            final(self).state() matches AgentLifecycle::Failed { error: e, .. } && e@ == error@,
            final(self).spec_id() == old(self).spec_id(),
    {
        let duration_us = self.run_duration();
        self.lifecycle = AgentLifecycle::Failed { error, duration_us };
    }

    /// → TimedOut after `timeout_ms`.
    pub fn transition_timed_out(&mut self, timeout_ms: u64)
        ensures
            final(self).state() == (AgentLifecycle::TimedOut { timeout_ms }),
            final(self).spec_id() == old(self).spec_id(),
    {
        self.lifecycle = AgentLifecycle::TimedOut { timeout_ms };
    }

    /// → Cancelled.
    pub fn transition_cancelled(&mut self)
        ensures
            final(self).state() is Cancelled,
            final(self).spec_id() == old(self).spec_id(),
    {
        self.lifecycle = AgentLifecycle::Cancelled;
    }

    /// A copy of the lifecycle state.
    pub fn lifecycle(&self) -> (l: AgentLifecycle)
        ensures
            match (self.state(), l) {
                (AgentLifecycle::Failed { error: a, duration_us: d }, AgentLifecycle::Failed {
                    error: b,
                    duration_us: e,
                }) => a@ == b@ && d == e,
                (AgentLifecycle::Failed { .. }, _) => false,
                _ => l == self.state(),
            },
    {
        self.lifecycle.duplicate()
    }

    /// Whether the agent is done.
    pub fn is_terminal(&self) -> (r: bool)
        ensures
            r == lifecycle_terminal(self.state()),
    {
        self.lifecycle.is_terminal()
    }

    /// Whether the agent is running.
    pub fn is_running(&self) -> (r: bool)
        ensures
            r == (self.state() is Running),
    {
        self.lifecycle.is_running()
    }

    /// Microseconds since the agent started, if it did.
    pub fn elapsed(&self) -> (r: Option<u64>)
        ensures
            r is Some == self.started(),
    {
        match &self.start {
            Some(t) => Some(micros_since(t)),
            None => None,
        }
    }
}

} // verus!
