//! The opening and closing of an agent run: the agent's state and the
//! events that frame the execution in its trace.
use vstd::prelude::*;

use crate::agent_ctx::{lifecycle_terminal, AgentContext, AgentLifecycle};
use crate::trace::{emitted, has_room, TraceContext, TraceContextView, TraceEventKind};

verus! {

/// Opens a run: the trace records the start of the entry point's execution
/// and the pending agent starts running.
pub fn begin_run(agent: &mut AgentContext, trace: &mut TraceContext)
    requires
        old(agent).state() is Pending,
        has_room(old(trace)@, 1),
    ensures
        final(agent).state() is Running,
        final(agent).spec_id() == old(agent).spec_id(),
        exists|k: TraceEventKind|
            #[trigger] emitted(old(trace)@, final(trace)@, k) && (k matches TraceEventKind::ExecutionStart {
                entrypoint: e,
            } && e@ == old(agent).spec_entrypoint()),
{
    let entrypoint = agent.entrypoint();
    trace.execution_start(entrypoint.as_str());
    agent.transition_running();
}

/// Closes a run whose entry point ended with `error` (`None` when it
/// succeeded), `duration_us` after the agent started; the exit code.
///
/// On success the agent completes with exit code 0 and the trace records
/// the end of the execution with 0. On failure the agent fails with the
/// error's message, unless it already ended (a timeout ends it first), and
/// the trace records the exception, then the end of the execution with 1.
pub fn finish_run(
    agent: &mut AgentContext,
    trace: &mut TraceContext,
    error: Option<String>,
    duration_us: u64,
) -> (code: i32)
    requires
        has_room(old(trace)@, 2),
    ensures
        final(agent).spec_id() == old(agent).spec_id(),
        match error {
            None => {
                &&& code == 0
                &&& final(agent).state() matches AgentLifecycle::Completed { exit_code, .. }
                    && exit_code == 0
                &&& emitted(
                    old(trace)@,
                    final(trace)@,
                    TraceEventKind::ExecutionEnd { exit_code: 0, duration_us },
                )
            },
            Some(m) => {
                &&& code == 1
                &&& if lifecycle_terminal(old(agent).state()) {
                    final(agent).state() == old(agent).state()
                } else {
                    final(agent).state() matches AgentLifecycle::Failed { error: e, .. } && e@ == m@
                }
                &&& exists|mid: TraceContextView, k: TraceEventKind|
                    #[trigger] emitted(old(trace)@, mid, k) && (k matches TraceEventKind::JsException {
                        message: x,
                        stack: s,
                    } && x@ == m@ && s is None) && emitted(
                        mid,
                        final(trace)@,
                        TraceEventKind::ExecutionEnd { exit_code: 1, duration_us },
                    )
            },
        },
{
    match error {
        None => {
            agent.transition_completed(0);
            trace.execution_end(0, duration_us);
            0
        },
        Some(m) => {
            if !agent.is_terminal() {
                agent.transition_failed(m.clone());
            }
            let ghost t0 = trace@;
            trace.js_exception(m.as_str(), None);
            let ghost t1 = trace@;
            trace.execution_end(1, duration_us);
            proof {
                let k = choose|k: TraceEventKind|
                    #[trigger] emitted(t0, t1, k) && (k matches TraceEventKind::JsException {
                        message: x,
                        stack: s,
                    } && x@ == m@ && s is None);
                assert(emitted(t0, t1, k));
            }
            1
        },
    }
}

} // verus!
