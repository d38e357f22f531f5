//! The error taxonomy of the runtime.
use vstd::prelude::*;

use crate::text::{decimal, push_decimal, push_text};

verus! {

/// `std::io::Error`, carried through unchanged.
#[verifier::external_type_specification]
#[verifier::external_body]
pub struct ExIoError(std::io::Error);

/// `serde_json::Error`, carried through unchanged.
#[verifier::external_type_specification]
#[verifier::external_body]
pub struct ExJsonError(serde_json::Error);

/// Every error the runtime reports.
#[derive(Debug)]
pub enum BuaError {
    PermissionDenied { operation: String, capability: String },
    JsException { message: String, stack: Option<String> },
    JsEngineInit(String),
    ModuleNotFound { specifier: String },
    ModuleLoadFailed { specifier: String, reason: String },
    AgentNotFound { id: String },
    AgentSpawnFailed { id: String, reason: String },
    AgentTimeout { id: String, timeout_ms: u64 },
    ToolNotFound { name: String },
    ToolCallFailed { name: String, reason: String },
    SnapshotSerialize(String),
    SnapshotRestore(String),
    Io(std::io::Error),
    Serialize(serde_json::Error),
    Internal(String),
}

/// The display text of an I/O error (`Display` of `std::io::Error`); nothing
/// is stated of the text.
#[verifier::external_body]
fn io_error_text(e: &std::io::Error) -> String {
    format!("{e}")
}

/// The display text of a JSON error (`Display` of `serde_json::Error`);
/// nothing is stated of the text.
#[verifier::external_body]
fn json_error_text(e: &serde_json::Error) -> String {
    format!("{e}")
}

/// The message of an error with text fields, as the runtime displays it.
/// `None` for the I/O and serialization errors, whose text comes from the
/// wrapped error.
pub open spec fn error_message(e: BuaError) -> Option<Seq<char>> {
    match e {
        BuaError::PermissionDenied { operation, capability } => Some(
            "permission denied: "@ + operation@ + " requires capability "@ + capability@,
        ),
        BuaError::JsException { message, .. } => Some("js exception: "@ + message@),
        BuaError::JsEngineInit(m) => Some("js engine init failed: "@ + m@),
        BuaError::ModuleNotFound { specifier } => Some("module not found: "@ + specifier@),
        BuaError::ModuleLoadFailed { specifier, reason } => Some(
            "module load failed: "@ + specifier@ + ": "@ + reason@,
        ),
        BuaError::AgentNotFound { id } => Some("agent "@ + id@ + " not found"@),
        BuaError::AgentSpawnFailed { id, reason } => Some(
            "agent "@ + id@ + " spawn failed: "@ + reason@,
        ),
        BuaError::AgentTimeout { id, timeout_ms } => Some(
            "agent "@ + id@ + " timed out after "@ + decimal(timeout_ms as nat) + "ms"@,
        ),
        BuaError::ToolNotFound { name } => Some("tool "@ + name@ + " not registered"@),
        BuaError::ToolCallFailed { name, reason } => Some(
            "tool "@ + name@ + " call failed: "@ + reason@,
        ),
        BuaError::SnapshotSerialize(m) => Some("snapshot serialize failed: "@ + m@),
        BuaError::SnapshotRestore(m) => Some("snapshot restore failed: "@ + m@),
        BuaError::Io(_) => None,
        BuaError::Serialize(_) => None,
        BuaError::Internal(m) => Some("internal error: "@ + m@),
    }
}

impl BuaError {
    /// A permission error for `operation`, which needs `capability`.
    pub fn permission_denied(operation: String, capability: String) -> (e: Self)
        ensures
            e matches BuaError::PermissionDenied { operation: o, capability: c } && o@
                == operation@ && c@ == capability@,
    {
        BuaError::PermissionDenied { operation, capability }
    }

    /// An internal error with message `msg`.
    pub fn internal(msg: String) -> (e: Self)
        ensures
            e matches BuaError::Internal(m) && m@ == msg@,
    {
        BuaError::Internal(msg)
    }

    /// Whether this is a permission error.
    pub fn is_permission_error(&self) -> (r: bool)
        ensures
            r == (*self is PermissionDenied),
    {
        match self {
            BuaError::PermissionDenied { .. } => true,
            _ => false,
        }
    }

    /// The message of this error (see [`error_message`]); for I/O and
    /// serialization errors, the prefix followed by the wrapped error's text.
    pub fn message(&self) -> (s: String)
        ensures
            error_message(*self) matches Some(m) ==> s@ == m,
            *self is Io ==> s@.len() >= 10 && s@.subrange(0, 10) == "io error: "@,
            *self is Serialize ==> s@.len() >= 21 && s@.subrange(0, 21)
                == "serialization error: "@,
    {
        let mut s = String::new();
        match self {
            BuaError::PermissionDenied { operation, capability } => {
                push_text(&mut s, "permission denied: ");
                push_text(&mut s, operation.as_str());
                push_text(&mut s, " requires capability ");
                push_text(&mut s, capability.as_str());
            },
            BuaError::JsException { message, .. } => {
                push_text(&mut s, "js exception: ");
                push_text(&mut s, message.as_str());
            },
            BuaError::JsEngineInit(m) => {
                push_text(&mut s, "js engine init failed: ");
                push_text(&mut s, m.as_str());
            },
            BuaError::ModuleNotFound { specifier } => {
                push_text(&mut s, "module not found: ");
                push_text(&mut s, specifier.as_str());
            },
            BuaError::ModuleLoadFailed { specifier, reason } => {
                push_text(&mut s, "module load failed: ");
                push_text(&mut s, specifier.as_str());
                push_text(&mut s, ": ");
                push_text(&mut s, reason.as_str());
            },
            BuaError::AgentNotFound { id } => {
                push_text(&mut s, "agent ");
                push_text(&mut s, id.as_str());
                push_text(&mut s, " not found");
            },
            BuaError::AgentSpawnFailed { id, reason } => {
                push_text(&mut s, "agent ");
                push_text(&mut s, id.as_str());
                push_text(&mut s, " spawn failed: ");
                push_text(&mut s, reason.as_str());
            },
            BuaError::AgentTimeout { id, timeout_ms } => {
                push_text(&mut s, "agent ");
                push_text(&mut s, id.as_str());
                push_text(&mut s, " timed out after ");
                push_decimal(&mut s, *timeout_ms);
                push_text(&mut s, "ms");
            },
            BuaError::ToolNotFound { name } => {
                push_text(&mut s, "tool ");
                push_text(&mut s, name.as_str());
                push_text(&mut s, " not registered");
            },
            BuaError::ToolCallFailed { name, reason } => {
                push_text(&mut s, "tool ");
                push_text(&mut s, name.as_str());
                push_text(&mut s, " call failed: ");
                push_text(&mut s, reason.as_str());
            },
            BuaError::SnapshotSerialize(m) => {
                push_text(&mut s, "snapshot serialize failed: ");
                push_text(&mut s, m.as_str());
            },
            BuaError::SnapshotRestore(m) => {
                push_text(&mut s, "snapshot restore failed: ");
                push_text(&mut s, m.as_str());
            },
            BuaError::Io(e) => {
                push_text(&mut s, "io error: ");
                proof {
                    reveal_strlit("io error: ");
                }
                assert(s@.subrange(0, 10) =~= "io error: "@);
                let t = io_error_text(e);
                let ghost before = s@;
                push_text(&mut s, t.as_str());
                assert(s@.subrange(0, 10) =~= before.subrange(0, 10));
            },
            BuaError::Serialize(e) => {
                push_text(&mut s, "serialization error: ");
                proof {
                    reveal_strlit("serialization error: ");
                }
                assert(s@.subrange(0, 21) =~= "serialization error: "@);
                let t = json_error_text(e);
                let ghost before = s@;
                push_text(&mut s, t.as_str());
                assert(s@.subrange(0, 21) =~= before.subrange(0, 21));
            },
            BuaError::Internal(m) => {
                push_text(&mut s, "internal error: ");
                push_text(&mut s, m.as_str());
            },
        }
        s
    }
}

} // verus!
