use bua::agent::{final_status, pump_step, AgentConfig, AgentStatus, PumpAction, PumpEvent, TaskOutcome};
use bua::agent_ctx::{AgentContext, AgentLifecycle};
use bua::capabilities::{CapabilitySet, Permission};
use bua::config::{JsEngineConfig, JscEngineConfig, RuntimeConfig, SchedulerConfig, VmConfig};
use bua::error::BuaError;
use bua::event_loop::{handle_task, next_wait, LoopAction, LoopTask, LoopWait, TimerTable};
use bua::hex::{decode, encode};
use bua::json::JsonValue;
use bua::metrics::{Histogram, RuntimeMetrics};
use bua::promise::{classify_error_name, PendingPromises, PromiseId};
use bua::queue::ResolutionQueue;
use bua::tools::{call_id_for, check_tool_permissions, not_registered, ToolCall, ToolResult};
use bua::run::{begin_run, finish_run};
use bua::trace::{log_level_named, LogLevel, TraceContext, TraceEventKind};
use bua::types::{AgentId, ExecutionId};
use bua::value::JsException;

#[test]
fn histogram_records_correctly() {
    let mut h = Histogram::new();
    h.record(50);
    h.record(500);
    h.record(5_000);
    assert_eq!(h.count(), 3);
    let mean = h.sum_us() as f64 / h.count() as f64;
    assert!((mean - 1850.0).abs() < 1.0);
    assert_eq!(h.bucket_counts(), [1, 1, 1, 0, 0, 0]);
}

#[test]
fn metrics_json_has_all_keys() {
    let mut m = RuntimeMetrics::new();
    m.agent_started();
    m.tool_call_completed(1000);
    m.promise_created();
    m.promise_resolved();
    m.module_loaded(false, true, 500);
    m.eval_completed(200);
    m.permission_allowed();
    m.permission_denied();

    assert_eq!(m.agents_started, 1);
    assert_eq!(m.tool_calls_total, 1);
    assert_eq!(m.modules_transpiled, 1);
    assert_eq!(m.permission_checks_denied, 1);
}

#[test]
fn agent_active_count_tracks_correctly() {
    let mut m = RuntimeMetrics::new();
    m.agent_started();
    m.agent_started();
    assert_eq!(m.agents_active, 2);
    m.agent_completed();
    assert_eq!(m.agents_active, 1);
    m.agent_failed();
    assert_eq!(m.agents_active, 0);
}

#[test]
fn histogram_buckets_and_wrapping() {
    let mut h = Histogram::new();
    h.record(99);
    h.record(100);
    h.record(999_999);
    h.record(1_000_000);
    h.record(u64::MAX);
    assert_eq!(h.bucket_counts(), [1, 1, 0, 0, 1, 2]);
    assert_eq!(h.sum_us(), 99u64.wrapping_add(100).wrapping_add(999_999).wrapping_add(1_000_000).wrapping_add(u64::MAX));
    let mut m = RuntimeMetrics::new();
    m.agent_timed_out();
    assert_eq!(m.agents_active, -1);
    assert_eq!(m.agents_timed_out, 1);
}

#[test]
fn append_and_count() {
    let mut trace = TraceContext::new(ExecutionId::new());
    trace.execution_start("test.ts");
    trace.tool_call("bua_read_file", r#"{"path":"x"}"#);
    trace.tool_result("bua_read_file", r#"{"content":"y"}"#, 100);
    assert_eq!(trace.event_count(), 3);
    let ids: Vec<u64> = trace.trace().events().iter().map(|e| e.id).collect();
    assert_eq!(ids, vec![0, 1, 2]);
}

#[test]
fn disabled_emits_nothing() {
    let mut trace = TraceContext::disabled();
    trace.execution_start("x.ts");
    trace.log(LogLevel::Error, "oops");
    assert_eq!(trace.event_count(), 0);
    assert!(trace.trace().is_empty());
}

#[test]
fn trace_events_carry_execution() {
    let id = ExecutionId::from_u128(42);
    let mut trace = TraceContext::new(id);
    trace.permission_check("FsRead", false);
    trace.js_exception("boom", Some("at x"));
    let events = trace.trace().events();
    assert_eq!(events.len(), 2);
    assert_eq!(events[1].execution_id, id);
}

#[test]
fn pending_to_running_to_completed() {
    let mut ctx = AgentContext::new("test.ts".to_string(), None, None);
    assert!(matches!(ctx.lifecycle(), AgentLifecycle::Pending));

    ctx.transition_running();
    assert!(ctx.is_running());

    ctx.transition_completed(0);
    assert!(ctx.is_terminal());
    assert_eq!(ctx.lifecycle().exit_code(), Some(0));
}

#[test]
fn pending_to_failed() {
    let mut ctx = AgentContext::new("test.ts".to_string(), None, None);
    ctx.transition_running();
    ctx.transition_failed("oops".into());
    assert!(ctx.is_terminal());
    assert!(matches!(ctx.lifecycle(), AgentLifecycle::Failed { .. }));
}

#[test]
fn lifecycle_other_ends() {
    let mut ctx = AgentContext::new("a.ts".to_string(), Some(AgentId::from_u128(7)), Some(1000));
    assert!(ctx.elapsed().is_none());
    ctx.transition_timed_out(1000);
    assert!(ctx.is_terminal());
    assert_eq!(ctx.lifecycle().exit_code(), None);
    ctx.transition_cancelled();
    assert!(matches!(ctx.lifecycle(), AgentLifecycle::Cancelled));
    assert_eq!(ctx.parent_id(), Some(AgentId::from_u128(7)));
    assert_eq!(ctx.timeout(), Some(1000));
    assert_eq!(ctx.entrypoint(), "a.ts");
}

#[test]
fn enqueue_and_drain() {
    let mut q: ResolutionQueue<Result<f64, JsException>> = ResolutionQueue::new();
    assert_eq!(q.pending_count(), 0);

    q.push(Ok(42.0));
    q.push(Err(JsException::new("oops".to_string())));

    assert_eq!(q.pending_count(), 2);
    assert_eq!(q.total_enqueued(), 2);

    let drained = q.drain();
    assert_eq!(drained.len(), 2);
    assert_eq!(q.pending_count(), 0);
    assert_eq!(q.total_drained(), 2);
    assert!(drained[0].is_ok());
}

#[test]
fn drain_empty_returns_empty() {
    let mut q: ResolutionQueue<Result<f64, JsException>> = ResolutionQueue::new();
    assert!(q.drain().is_empty());
    assert!(!q.has_pending());
}

#[test]
fn timers_fire_in_order() {
    let mut t = TimerTable::new();
    let a = t.set_timeout(0, 100);
    let b = t.set_interval(0, 50);
    let c = t.set_timeout(0, 1000);
    assert_eq!((a.0, b.0, c.0), (1, 2, 3));
    assert_eq!(t.next_deadline(), Some(50));
    assert!(matches!(next_wait(t.next_deadline(), 10), LoopWait::Until(50)));
    assert!(matches!(next_wait(t.next_deadline(), 50), LoopWait::DrainNow));
    assert!(matches!(next_wait(None, 50), LoopWait::Message));
    let fired = t.fire_expired(100);
    assert_eq!(fired, vec![1, 2]);
    assert_eq!(t.next_deadline(), Some(150));
    t.clear_timer(c);
    t.clear_timer(b);
    assert_eq!(t.next_deadline(), None);
}

#[test]
fn loop_tasks() {
    let mut t = TimerTable::new();
    let a = t.set_timeout(0, 10);
    assert!(matches!(handle_task(&mut t, Some(LoopTask::Shutdown), 0), LoopAction::Stop));
    assert!(matches!(handle_task(&mut t, None, 0), LoopAction::Stop));
    assert!(matches!(handle_task(&mut t, Some(LoopTask::IoReady { handle: 1, data: vec![1] }), 0), LoopAction::Continue));
    match handle_task(&mut t, Some(LoopTask::Microtask), 10) {
        LoopAction::SendTimers(ids) => assert_eq!(ids, vec![a.0]),
        _ => panic!("expected timers"),
    }
    assert!(matches!(handle_task(&mut t, Some(LoopTask::Timer { id: a.0 }), 20), LoopAction::Continue));
    assert_eq!(t.next_deadline(), None);
}

#[test]
fn hex_roundtrip() {
    assert_eq!(encode(&[0x00, 0xab, 0x10]), "00ab10");
    assert_eq!(decode("00ab10").unwrap(), vec![0x00, 0xab, 0x10]);
    assert_eq!(decode("FF").unwrap(), vec![0xff]);
    assert_eq!(decode("+f").unwrap(), vec![0x0f]);
    assert_eq!(decode("abc").unwrap_err(), "odd length hex string");
    assert_eq!(decode("zz").unwrap_err(), "invalid digit found in string");
    assert_eq!(decode("-1").unwrap_err(), "invalid digit found in string");
    assert_eq!(decode("").unwrap(), Vec::<u8>::new());
}

#[test]
fn error_messages() {
    assert_eq!(BuaError::internal("x".to_string()).message(), "internal error: x");
    let t = BuaError::AgentTimeout { id: "a1".to_string(), timeout_ms: 1500 };
    assert_eq!(t.message(), "agent a1 timed out after 1500ms");
    let p = BuaError::permission_denied("op".to_string(), "cap".to_string());
    assert!(p.is_permission_error());
    assert_eq!(p.message(), "permission denied: op requires capability cap");
    assert!(!BuaError::ToolNotFound { name: "t".to_string() }.is_permission_error());
    let io = BuaError::Io(std::io::Error::new(std::io::ErrorKind::Other, "disk"));
    assert_eq!(io.message(), "io error: disk");
}

#[test]
fn identifiers_format() {
    let id = ExecutionId::from_u128(0x0123_4567_89ab_cdef_0123_4567_89ab_cdef);
    assert_eq!(id.simple(), "0123456789abcdef0123456789abcdef");
    assert_eq!(id.to_text(), "01234567-89ab-cdef-0123-456789abcdef");
    assert_eq!(AgentId::from_u128(1).as_u128(), 1);
    assert_ne!(ExecutionId::new(), ExecutionId::new());
    assert_eq!(PromiseId(0xff).to_text(), "prom-000000000000000000000000000000ff");
}

#[test]
fn pending_promises_and_names() {
    let mut p = PendingPromises::new();
    p.register(PromiseId(1), 100);
    p.register(PromiseId(2), 900);
    assert_eq!(p.stale_promises(1000, 500), vec![PromiseId(1)]);
    assert_eq!(p.stale_promises(50, 0), Vec::<PromiseId>::new());
    p.settle(PromiseId(1));
    assert_eq!(p.pending_count(), 1);
    assert_eq!(p.total_created(), 2);
    p.register(PromiseId(2), 950);
    assert_eq!(p.pending_count(), 1);
    assert_eq!(p.total_created(), 3);
    p.register(PromiseId(3), 10);
    let mut stale = p.stale_promises(2000, 100);
    stale.sort_by_key(|id| id.0);
    assert_eq!(stale, vec![PromiseId(2), PromiseId(3)]);
    assert_eq!(classify_error_name(&BuaError::ToolNotFound { name: "x".into() }), "ToolNotFoundError");
    assert_eq!(classify_error_name(&BuaError::internal("x".into())), "BuaError");
}

#[test]
fn tool_results_and_gates() {
    let call = ToolCall { name: "bua_read_file".into(), args: JsonValue::Null, call_id: Some(call_id_for(3)) };
    assert_eq!(call.call_id.as_deref(), Some("tc-3"));
    let ok = ToolResult::success(&call, JsonValue::Bool(true), 5);
    assert!(ok.error.is_none());
    let bad = ToolResult::failed(&call, "nope".into(), 6);
    assert_eq!(bad.error.as_deref(), Some("nope"));
    assert_eq!(not_registered("x"), "tool 'x' not registered");
    let caps = CapabilitySet::new();
    assert!(check_tool_permissions("t", &vec![], &caps).is_ok());
    assert_eq!(check_tool_permissions("t", &vec![Permission::AgentSpawn], &caps).unwrap_err(), "permission denied for tool 't'");
}

#[test]
fn agent_decisions() {
    assert!(matches!(pump_step(PumpEvent::ToolCall), PumpAction::DispatchTool));
    assert!(matches!(pump_step(PumpEvent::Shutdown), PumpAction::Finish(AgentStatus::Completed { exit_code: 0 })));
    match pump_step(PumpEvent::EvalDone(Some("bad".into()))) {
        PumpAction::Finish(AgentStatus::Failed { error }) => assert_eq!(error, "bad"),
        _ => panic!("expected failure"),
    }
    assert!(matches!(final_status(TaskOutcome::TimedOut), AgentStatus::TimedOut));
    match final_status(TaskOutcome::JoinFailed) {
        AgentStatus::Failed { error } => assert_eq!(error, "join error"),
        _ => panic!("expected failure"),
    }
    let cfg = AgentConfig::new("main.ts".into(), CapabilitySet::new());
    assert_eq!(cfg.timeout_ms, Some(300_000));
    assert_eq!(cfg.max_heap_bytes, Some(256 * 1024 * 1024));
}

#[test]
fn configs_have_defaults() {
    let e = JsEngineConfig::default();
    assert_eq!(e.max_heap_bytes, Some(256 * 1024 * 1024));
    assert!(e.inject_bua_globals && !e.enable_profiler);
    assert_eq!(JscEngineConfig::default().max_heap_bytes, 256 * 1024 * 1024);
    let vm = VmConfig::with_base_dir(".".into());
    assert_eq!(vm.engine_config(), JscEngineConfig::default());
    assert_eq!(SchedulerConfig::new(3).max_concurrent_agents, 3);
    let rc = RuntimeConfig::new("a.ts".into(), CapabilitySet::new()).with_timeout(5).with_parent(AgentId::from_u128(9));
    assert_eq!(rc.timeout_ms, Some(5));
    assert_eq!(rc.parent_id, Some(AgentId::from_u128(9)));
    assert!(rc.trace_enabled);
}

#[test]
fn exception_text_and_error() {
    let e = JsException::new("bad".into()).with_name("TypeError".into()).with_stack("at f".into());
    assert_eq!(e.to_text(), "TypeError: bad\nat f");
    match e.into_error() {
        BuaError::JsException { message, stack } => {
            assert_eq!(message, "bad");
            assert_eq!(stack.as_deref(), Some("at f"));
        }
        _ => panic!("expected a JS exception"),
    }
}

#[test]
fn run_succeeds_and_frames_the_trace() {
    let mut agent = AgentContext::new("/work/main.ts".to_string(), None, Some(300_000));
    let mut trace = TraceContext::new(ExecutionId::new());
    begin_run(&mut agent, &mut trace);
    assert!(agent.is_running());
    let code = finish_run(&mut agent, &mut trace, None, 42);
    assert_eq!(code, 0);
    assert!(matches!(agent.lifecycle(), AgentLifecycle::Completed { exit_code: 0, .. }));
    let events = trace.trace().events();
    assert_eq!(events.len(), 2);
    assert!(matches!(&events[0].kind, TraceEventKind::ExecutionStart { entrypoint } if entrypoint == "/work/main.ts"));
    assert!(matches!(events[1].kind, TraceEventKind::ExecutionEnd { exit_code: 0, duration_us: 42 }));
}

#[test]
fn run_failure_records_the_exception() {
    let mut agent = AgentContext::new("/work/main.ts".to_string(), None, None);
    let mut trace = TraceContext::new(ExecutionId::new());
    begin_run(&mut agent, &mut trace);
    let code = finish_run(&mut agent, &mut trace, Some("module not found: x".to_string()), 7);
    assert_eq!(code, 1);
    assert!(matches!(agent.lifecycle(), AgentLifecycle::Failed { ref error, .. } if error == "module not found: x"));
    let events = trace.trace().events();
    assert_eq!(events.len(), 3);
    assert!(matches!(&events[1].kind, TraceEventKind::JsException { message, stack: None } if message == "module not found: x"));
    assert!(matches!(events[2].kind, TraceEventKind::ExecutionEnd { exit_code: 1, duration_us: 7 }));
}

#[test]
fn timed_out_run_stays_timed_out() {
    let mut agent = AgentContext::new("/work/main.ts".to_string(), None, Some(10));
    let mut trace = TraceContext::disabled();
    begin_run(&mut agent, &mut trace);
    agent.transition_timed_out(10);
    let code = finish_run(&mut agent, &mut trace, Some("agent timed out".to_string()), 10);
    assert_eq!(code, 1);
    assert!(matches!(agent.lifecycle(), AgentLifecycle::TimedOut { timeout_ms: 10 }));
    assert_eq!(trace.event_count(), 0);
    assert!(trace.has_room_for(2));
}

#[test]
fn script_log_levels_by_name() {
    assert_eq!(log_level_named("error"), LogLevel::Error);
    assert_eq!(log_level_named("warn"), LogLevel::Warn);
    assert_eq!(log_level_named("debug"), LogLevel::Debug);
    assert_eq!(log_level_named("trace"), LogLevel::Trace);
    assert_eq!(log_level_named("info"), LogLevel::Info);
    assert_eq!(log_level_named("ERROR"), LogLevel::Info);
    assert_eq!(log_level_named(""), LogLevel::Info);
}

#[test]
fn timer_task_rearms_interval() {
    let mut t = TimerTable::starting_at(40);
    assert_eq!(t.next_id(), 40);
    let b = t.set_interval(0, 50);
    assert_eq!(b.0, 40);
    assert!(matches!(handle_task(&mut t, Some(LoopTask::Timer { id: b.0 }), 70), LoopAction::Continue));
    assert_eq!(t.next_deadline(), Some(120));
    t.advance_ids_to(90);
    assert_eq!(t.set_timeout(0, 5).0, 90);
}

#[test]
fn metrics_counters_change_alone() {
    let mut m = RuntimeMetrics::new();
    m.tool_call_completed(500);
    m.tool_call_failed();
    assert_eq!(m.tool_calls_failed, 1);
    assert_eq!(m.tool_calls_total, 1);
    assert_eq!(m.tool_latency.count(), 1);
    m.agent_started();
    assert_eq!((m.agents_started, m.agents_active), (1, 1));
    assert_eq!(m.tool_calls_failed, 1);
}

#[test]
fn fresh_ids_are_version_4_uuids() {
    let mask: u128 = 0xF000_C000_0000_0000_0000;
    let bits: u128 = 0x4000_8000_0000_0000_0000;
    assert_eq!(ExecutionId::new().as_u128() & mask, bits);
    assert_eq!(AgentId::new().as_u128() & mask, bits);
    assert_eq!(bua::types::TaskId::new().as_u128() & mask, bits);
    assert_eq!(PromiseId::new().0 & mask, bits);
    assert_ne!(ExecutionId::new(), ExecutionId::new());
}

#[test]
fn odd_length_non_ascii_hex_is_refused() {
    assert_eq!(decode("éa").unwrap_err(), "odd length hex string");
    assert_eq!(decode("é").unwrap_err(), "invalid digit found in string");
}

#[test]
fn active_agents_balance_after_a_run() {
    let mut m = RuntimeMetrics::new();
    for _ in 0..5 {
        m.agent_started();
    }
    m.agent_completed();
    m.agent_failed();
    m.agent_timed_out();
    assert_eq!(m.agents_active, 2);
    assert_eq!(
        m.agents_active,
        (m.agents_started - m.agents_completed - m.agents_failed - m.agents_timed_out) as i64
    );
}
