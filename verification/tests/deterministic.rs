use bua::clock::{ClockMode, DeterministicClock};
use bua::interceptor::{classify_tool, InterceptResult, IoClass, IoInterceptor};
use bua::json::{json_equivalent, json_text, parse_json, parse_json_or_null, JsonNumber, JsonValue};
use bua::replay::ReplayEngine;
use bua::strata::{LayeredSnapshot, ToolCallRecord};
use bua::types::ExecutionId;
use std::time::Duration;

fn obj(members: Vec<(&str, JsonValue)>) -> JsonValue {
    JsonValue::Object(members.into_iter().map(|(k, v)| (k.to_string(), v)).collect())
}

fn text(s: &str) -> JsonValue {
    JsonValue::String(s.to_string())
}

fn num(n: u64) -> JsonValue {
    JsonValue::Number(JsonNumber::PosInt(n))
}

/// A snapshot whose tool log records `calls` (name, argument text, result
/// text) in order.
fn snapshot_of(calls: Vec<(&str, &str, &str)>) -> LayeredSnapshot {
    LayeredSnapshot::new(ExecutionId::new()).with_tool_log(
        calls
            .into_iter()
            .enumerate()
            .map(|(i, (n, a, r))| ToolCallRecord {
                sequence: i as u64,
                name: n.into(),
                args_json: a.into(),
                result_json: r.into(),
                duration_us: 0,
                was_error: false,
            })
            .collect(),
    )
}

fn make_engine(calls: Vec<(&str, &str, &str)>, strict: bool) -> ReplayEngine {
    ReplayEngine::from_snapshot(&snapshot_of(calls), strict)
}

#[test]
fn clean_replay() {
    let mut engine = make_engine(
        vec![
            ("bua_read_file", r#"{"path":"/x"}"#, r#"{"content":"hello"}"#),
            ("bua_http_get", r#"{"url":"https://a.com"}"#, r#"{"status":200}"#),
        ],
        true,
    );

    let r1 = engine.intercept_tool_call("bua_read_file", &obj(vec![("path", text("/x"))]));
    assert!(r1.is_ok());

    let r2 = engine.intercept_tool_call("bua_http_get", &obj(vec![("url", text("https://a.com"))]));
    assert!(r2.is_ok());

    assert!(engine.verify_complete().is_none());
    assert!(engine.result().is_clean());
}

#[test]
fn wrong_tool_name_diverges() {
    let mut engine = make_engine(
        vec![("bua_read_file", r#"{"path":"/x"}"#, r#"{"content":"hi"}"#)],
        false,
    );
    let result = engine.intercept_tool_call("bua_http_get", &obj(vec![("url", text("x"))]));
    assert!(result.is_ok());
    assert_eq!(engine.divergence_count(), 1);
}

#[test]
fn strict_mode_diverge_errors() {
    let mut engine = make_engine(vec![("tool_a", "{}", "{}")], true);
    let result = engine.intercept_tool_call("tool_b", &obj(vec![]));
    assert!(result.is_err());
}

#[test]
fn extra_call_beyond_recording() {
    let mut engine = make_engine(vec![], false);
    let result = engine.intercept_tool_call("any_tool", &obj(vec![]));
    assert!(result.is_err());
}

#[test]
fn missing_calls_detected_by_verify_complete() {
    let mut engine = make_engine(
        vec![("tool_a", "{}", "{}"), ("tool_b", "{}", "{}")],
        false,
    );
    engine.intercept_tool_call("tool_a", &obj(vec![])).ok();
    let remaining = engine.verify_complete();
    assert!(remaining.is_some());
}

#[test]
fn json_object_order_independent() {
    let a = obj(vec![("z", num(1)), ("a", num(2))]);
    let b = obj(vec![("a", num(2)), ("z", num(1))]);
    assert!(json_equivalent(&a, &b));
}

#[test]
fn divergence_messages() {
    let mut engine = make_engine(vec![("tool_a", "{\"k\":1}", "null")], true);
    let err = engine.intercept_tool_call("tool_a", &obj(vec![("k", num(2))])).unwrap_err();
    assert_eq!(err.message(), "replay diverged at call #0: expected tool_a({\"k\":1}) got tool_a({\"k\":2})");
    let extra = engine.intercept_tool_call("tool_b", &JsonValue::Null).unwrap_err();
    assert_eq!(extra.expected_tool, "<end of recording>");
    assert_eq!(extra.at_sequence, 1);
    assert_eq!(engine.calls_replayed(), 2);
    let result = engine.result();
    assert_eq!(result.divergences.len(), 2);
    assert!(!result.deterministic);
    assert!(!result.is_clean());

    let pending = make_engine(vec![("a", "{}", "null"), ("b", "{}", "null")], false);
    let d = pending.verify_complete().unwrap();
    assert_eq!(d.expected_tool, "2 more calls expected");
    assert_eq!(d.actual_tool, "<end of execution>");
}

#[test]
fn lax_mode_serves_recorded_result() {
    let mut engine = make_engine(vec![("t", "{}", "7")], false);
    let v = engine.intercept_tool_call("other", &obj(vec![])).unwrap();
    assert!(json_equivalent(&v, &num(7)));
}

#[test]
fn json_equivalence_cases() {
    assert!(json_equivalent(&JsonValue::Number(JsonNumber::Float("-0.0".into())), &JsonValue::Number(JsonNumber::Float("0.0".into()))));
    assert!(!json_equivalent(&num(1), &JsonValue::Number(JsonNumber::Float("1.0".into()))));
    assert!(json_equivalent(&JsonValue::Number(JsonNumber::Float("1.5".into())), &JsonValue::Number(JsonNumber::Float("1.5".into()))));
    assert!(!json_equivalent(&JsonValue::Number(JsonNumber::Float("1.5".into())), &JsonValue::Number(JsonNumber::Float("2.5".into()))));
    assert!(!json_equivalent(&JsonValue::Array(vec![num(1), num(2)]), &JsonValue::Array(vec![num(2), num(1)])));
    assert!(!json_equivalent(&obj(vec![("a", num(1))]), &obj(vec![("b", num(1))])));
    assert!(json_equivalent(&JsonValue::Bool(true), &JsonValue::Bool(true)));
    assert!(!json_equivalent(&JsonValue::Null, &JsonValue::Bool(false)));
}

fn make_interceptor(calls: Vec<(&str, &str, &str)>) -> IoInterceptor {
    let engine = make_engine(calls, false);
    let clock = DeterministicClock::frozen(1_700_000_000_000_000);
    IoInterceptor::new(engine, clock)
}

#[test]
fn read_intercepted_from_recording() {
    let mut interceptor = make_interceptor(vec![(
        "bua_read_file",
        r#"{"path":"/x"}"#,
        r#"{"content":"hello"}"#,
    )]);
    let result = interceptor
        .intercept("bua_read_file", &obj(vec![("path", text("/x"))]))
        .unwrap();
    assert!(matches!(result, InterceptResult::Replay(_)));
}

#[test]
fn write_suppressed() {
    let mut interceptor = make_interceptor(vec![]);
    let result = interceptor
        .intercept("bua_write_file", &obj(vec![("path", text("/x")), ("content", text("y"))]))
        .unwrap();
    assert!(matches!(result, InterceptResult::WriteSuppressed));
}

#[test]
fn pure_passthrough() {
    let mut interceptor = make_interceptor(vec![]);
    let result = interceptor.intercept("bua_json_parse", &obj(vec![("text", text("{}"))])).unwrap();
    assert!(matches!(result, InterceptResult::Passthrough));
}

#[test]
fn time_query_uses_frozen_clock() {
    let mut interceptor = make_interceptor(vec![]);
    let result = interceptor.intercept("bua_time_now", &obj(vec![])).unwrap();
    if let InterceptResult::ClockInjected(us) = result {
        assert_eq!(us as f64 / 1000.0, 1_700_000_000_000_000.0 / 1000.0);
    } else {
        panic!("expected ClockInjected");
    }
}

#[test]
fn deactivated_interceptor_passthroughs_everything() {
    let mut interceptor = make_interceptor(vec![]);
    interceptor.deactivate();
    let result = interceptor.intercept("bua_read_file", &obj(vec![("path", text("/etc/passwd"))])).unwrap();
    assert!(matches!(result, InterceptResult::Passthrough));
}

#[test]
fn refused_write_and_divergence_errors() {
    let mut interceptor = make_interceptor(vec![]).with_silent_writes(false);
    let err = interceptor.intercept("bua_mkdir", &JsonValue::Null).err().unwrap();
    assert_eq!(err.message(), "internal error: write operation 'bua_mkdir' not allowed in deterministic mode");
    let err = interceptor.intercept("bua_fetch", &JsonValue::Null).err().unwrap();
    assert_eq!(err.message(), "internal error: replay diverged at call #0: expected <end of recording>() got bua_fetch(null)");
    assert_eq!(interceptor.divergence_count(), 1);
    assert_eq!(interceptor.calls_replayed(), 1);
    assert!(interceptor.is_active());
}

#[test]
fn tool_classes() {
    assert_eq!(classify_tool("bua_read_file", &JsonValue::Null), IoClass::Read);
    assert_eq!(classify_tool("bua_delete_file", &JsonValue::Null), IoClass::Write);
    assert_eq!(classify_tool("bua_http_post", &JsonValue::Null), IoClass::Network);
    assert_eq!(classify_tool("bua_time_now", &JsonValue::Null), IoClass::TimeQuery);
    assert_eq!(classify_tool("anything", &JsonValue::Null), IoClass::Pure);
}

#[test]
fn frozen_clock_never_advances() {
    let mut clock = DeterministicClock::frozen(1_000_000);
    assert_eq!(clock.now_us(), 1_000_000);
    assert_eq!(clock.now_us(), 1_000_000);
    assert_eq!(clock.now_us(), 1_000_000);
    assert_eq!(clock.call_count(), 3);
}

#[test]
fn stepping_clock_advances_each_call() {
    let mut clock = DeterministicClock::stepping(0, 100);
    assert_eq!(clock.now_us(), 0);
    assert_eq!(clock.now_us(), 100);
    assert_eq!(clock.now_us(), 200);
}

#[test]
fn live_clock_is_nondeterministic() {
    let mut clock = DeterministicClock::live();
    assert!(!clock.is_deterministic());
    let a = clock.now_us();
    let b = clock.now_us();
    assert!(b >= a);
}

#[test]
fn manual_advance() {
    let mut clock = DeterministicClock::frozen(0);
    clock.advance(Duration::from_secs(1).as_micros() as u64);
    assert_eq!(clock.now_us(), 1_000_000);
}

#[test]
fn freeze_live_clock() {
    let mut clock = DeterministicClock::live();
    assert!(!clock.is_deterministic());
    clock.freeze();
    assert!(clock.is_deterministic());
    let t1 = clock.now_us();
    let t2 = clock.now_us();
    assert_eq!(t1, t2);
}

#[test]
fn clock_set_time_and_modes() {
    let mut clock = DeterministicClock::stepping(5, 10);
    clock.set_time(50);
    assert_eq!(clock.current_us(), 50);
    assert_eq!(clock.now_us(), 50);
    assert_eq!(clock.current_us(), 60);
    assert_eq!(clock.mode(), ClockMode::Stepping { step_us: 10 });
    let mut live = DeterministicClock::live();
    live.advance(10);
    assert_eq!(live.current_us(), 0);
}

#[test]
fn diverging_read_is_never_passed_through() {
    let recording = || {
        vec![(
            "bua_read_file",
            r#"{"path":"/x"}"#,
            r#"{"content":"hello"}"#,
        )]
    };
    let strict = make_engine(recording(), true);
    let mut interceptor = IoInterceptor::new(strict, DeterministicClock::frozen(0));
    let err = interceptor
        .intercept("bua_read_file", &obj(vec![("path", text("/y"))]))
        .err()
        .unwrap();
    assert_eq!(
        err.message(),
        r#"internal error: replay diverged at call #0: expected bua_read_file({"path":"/x"}) got bua_read_file({"path":"/y"})"#
    );

    let mut lax = make_interceptor(recording());
    let result = lax
        .intercept("bua_read_file", &obj(vec![("path", text("/y"))]))
        .unwrap();
    assert!(matches!(result, InterceptResult::Replay(JsonValue::Object(ref m)) if m.len() == 1 && m[0].0 == "content"));
    assert_eq!(lax.divergence_count(), 1);
}

#[test]
fn run_counts_every_call() {
    let mut engine = make_engine(
        vec![("bua_read_file", r#"{"path":"/x"}"#, r#""a""#)],
        false,
    );
    let _ = engine.intercept_tool_call("bua_http_get", &JsonValue::Null);
    let _ = engine.intercept_tool_call("bua_read_file", &JsonValue::Null);
    let _ = engine.intercept_tool_call("bua_read_file", &JsonValue::Null);
    assert_eq!(engine.calls_replayed(), 3);
    assert_eq!(engine.result().calls_replayed, 3);
    assert!(engine.verify_complete().is_none());
    assert_eq!(engine.divergence_count(), 3);
}

#[test]
fn recorded_texts_are_read_as_json() {
    let parsed = parse_json(r#"{"b":1,"a":[true,null,"x",-2,1.5]}"#).unwrap();
    let expected = obj(vec![
        ("a", JsonValue::Array(vec![
            JsonValue::Bool(true),
            JsonValue::Null,
            text("x"),
            JsonValue::Number(JsonNumber::NegInt(-2)),
            JsonValue::Number(JsonNumber::Float("1.5".into())),
        ])),
        ("b", num(1)),
    ]);
    assert!(json_equivalent(&parsed, &expected));
    assert!(parse_json("not json").is_none());
    assert!(matches!(parse_json_or_null("{"), JsonValue::Null));
    assert_eq!(json_text(&obj(vec![("k", num(2))])), r#"{"k":2}"#);
    assert_eq!(json_text(&JsonValue::Number(JsonNumber::Float("1.5".into()))), "1.5");
    assert_eq!(json_text(&text("a\"b")), r#""a\"b""#);
    assert_eq!(json_text(&JsonValue::Array(vec![JsonValue::Null, JsonValue::Bool(false)])), "[null,false]");
}

#[test]
fn unreadable_recorded_result_is_served_as_null() {
    let mut engine = make_engine(vec![("t", "{}", "not json")], false);
    let v = engine.intercept_tool_call("t", &obj(vec![])).unwrap();
    assert!(matches!(v, JsonValue::Null));
    assert_eq!(engine.divergence_count(), 0);
}

#[test]
fn recorded_args_match_after_normalisation() {
    let mut engine = make_engine(vec![("t", r#"{"a":1,"b":"x"}"#, "[1,2]")], true);
    let v = engine.intercept_tool_call("t", &obj(vec![("b", text("x")), ("a", num(1))])).unwrap();
    assert!(json_equivalent(&v, &JsonValue::Array(vec![num(1), num(2)])));
    assert!(engine.result().is_clean());

    let mut bad = make_engine(vec![("t", "not json", "1")], true);
    let err = bad.intercept_tool_call("t", &obj(vec![("a", num(1)), ("b", text("x"))])).unwrap_err();
    assert_eq!(err.expected_args, "not json");
    assert_eq!(err.actual_args, r#"{"a":1,"b":"x"}"#);
}
