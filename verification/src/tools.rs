//! Tool calls and their results, and the checks a dispatch makes before a
//! tool runs: that it is registered, and that every permission it requires
//! is granted.
use vstd::prelude::*;

use crate::capabilities::{spec_check, CapabilitySet, Permission, PermView};
use crate::error::BuaError;
use crate::json::JsonValue;
use crate::text::{push_decimal, push_text};

verus! {

/// A call of a tool.
#[derive(Debug)]
pub struct ToolCall {
    pub name: String,
    pub args: JsonValue,
    /// Caller-supplied correlation id for tracing.
    pub call_id: Option<String>,
}

/// The result of a tool call.
#[derive(Debug)]
pub struct ToolResult {
    pub call_id: Option<String>,
    pub name: String,
    pub output: JsonValue,
    pub duration_us: u64,
    pub error: Option<String>,
}

/// The view of an optional text.
pub open spec fn opt_view(o: Option<String>) -> Option<Seq<char>> {
    match o {
        Some(s) => Some(s@),
        None => None,
    }
}

fn clone_opt(o: &Option<String>) -> (r: Option<String>)
    ensures
        opt_view(r) == opt_view(*o),
{
    match o {
        Some(s) => Some(s.clone()),
        None => None,
    }
}

impl ToolResult {
    /// A successful result of `call`.
    pub fn success(call: &ToolCall, output: JsonValue, duration_us: u64) -> (r: Self)
        ensures
            opt_view(r.call_id) == opt_view(call.call_id),
            r.name@ == call.name@,
            r.output == output,
            r.duration_us == duration_us,
            r.error is None,
    {
        ToolResult {
            call_id: clone_opt(&call.call_id),
            name: call.name.clone(),
            output,
            duration_us,
            error: None,
        }
    }

    /// A failed result of `call`: no output, and the error.
    pub fn failed(call: &ToolCall, error: String, duration_us: u64) -> (r: Self)
        ensures
            opt_view(r.call_id) == opt_view(call.call_id),
            r.name@ == call.name@,
            r.output == JsonValue::Null,
            r.duration_us == duration_us,
            r.error matches Some(e) && e@ == error@,
    {
        ToolResult {
            call_id: clone_opt(&call.call_id),
            name: call.name.clone(),
            output: JsonValue::Null,
            duration_us,
            error: Some(error),
        }
    }
}

/// The error of a call of a tool that is not registered.
pub open spec fn not_registered_message(name: Seq<char>) -> Seq<char> {
    "tool '"@ + name + "' not registered"@
}

/// The error of a call whose tool requires a permission not granted.
pub open spec fn tool_denied_message(name: Seq<char>) -> Seq<char> {
    "permission denied for tool '"@ + name + "'"@
}

/// The error of a call of a tool that is not registered.
pub fn not_registered(name: &str) -> (m: String)
    ensures
        m@ == not_registered_message(name@),
{
    let mut m = String::new();
    push_text(&mut m, "tool '");
    push_text(&mut m, name);
    push_text(&mut m, "' not registered");
    m
}

/// Checks the permissions a tool requires: `Ok` when `caps` grants each of
/// them, else the denial message.
pub fn check_tool_permissions(name: &str, required: &Vec<Permission>, caps: &CapabilitySet) -> (r: Result<(), String>)
    ensures
        r is Ok <==> (forall|i: int| 0 <= i < required@.len() ==> spec_check(caps@.caps, #[trigger] required@[i]@)),
        r matches Err(m) ==> m@ == tool_denied_message(name@),
{
    let mut i: usize = 0;
    while i < required.len()
        invariant
            i <= required@.len(),
            forall|j: int| 0 <= j < i ==> spec_check(caps@.caps, #[trigger] required@[j]@),
        decreases required.len() - i,
    {
        if !caps.check(&required[i]) {
            let mut m = String::new();
            push_text(&mut m, "permission denied for tool '");
            push_text(&mut m, name);
            push_text(&mut m, "'");
            return Err(m);
        }
        i = i + 1;
    }
    Ok(())
}

/// The error a failed tool result becomes for the caller.
pub fn tool_failure(name: &str, reason: &String) -> (e: BuaError)
    ensures
        e matches BuaError::ToolCallFailed { name: n, reason: r } && n@ == name@ && r@ == reason@,
{
    BuaError::ToolCallFailed { name: name.to_owned(), reason: reason.clone() }
}

/// The correlation id of the `n`-th tool call of an agent: `tc-n`.
pub fn call_id_for(n: u64) -> (s: String)
    ensures
        s@ == "tc-"@ + crate::text::decimal(n as nat),
{
    let mut s = String::new();
    push_text(&mut s, "tc-");
    push_decimal(&mut s, n);
    s
}

/// The built-in tool that reads a UTF-8 text file.
#[derive(Debug)]
pub struct ReadFileTool;

impl ReadFileTool {
    /// Its name.
    pub fn name(&self) -> (s: &'static str)
        ensures
            s@ == "bua_read_file"@,
    {
        "bua_read_file"
    }
}

} // verus!
