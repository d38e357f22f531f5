//! Identifiers of agents, executions and tasks: 128-bit UUIDs.
use vstd::prelude::*;

use crate::text::hex_digits;

verus! {

/// The 32 lowercase hexadecimal digits of a UUID, most significant first
/// (the "simple" format).
pub open spec fn uuid_simple(v: u128) -> Seq<char> {
    hex_digits(v as nat, 32)
}

/// The hyphenated format of a UUID: its simple digits grouped 8-4-4-4-12.
pub open spec fn uuid_hyphenated(v: u128) -> Seq<char> {
    let h = uuid_simple(v);
    h.subrange(0, 8) + seq!['-'] + h.subrange(8, 12) + seq!['-'] + h.subrange(12, 16) + seq!['-']
        + h.subrange(16, 20) + seq!['-'] + h.subrange(20, 32)
}

/// Whether `v` is a version 4 UUID of the RFC 4122 variant: its version
/// nibble is 4 and the top two bits of its variant byte are `10`.
pub open spec fn is_uuid_v4(v: u128) -> bool {
    v & 0xF000_C000_0000_0000_0000u128 == 0x4000_8000_0000_0000_0000u128
}

/// A fresh random (version 4) UUID, as its 128-bit value
/// (`uuid::Uuid::new_v4`). Claimed: its version and variant bits are set
/// as the crate sets them on every value; the other bits are random and
/// nothing is stated of them.
#[verifier::external_body]
fn new_v4_value() -> (v: u128)
    ensures
        is_uuid_v4(v),
{
    uuid::Uuid::new_v4().as_u128()
}

/// The simple format of the UUID with value `v`
/// (`uuid::Uuid::from_u128(v).simple()`, displayed). Claimed: the 32
/// lowercase hexadecimal digits of `v`, most significant first, as the
/// crate documents its simple format.
#[verifier::external_body]
fn simple_text(v: u128) -> (s: String)
    ensures
        s@ == uuid_simple(v),
{
    uuid::Uuid::from_u128(v).simple().to_string()
}

/// The hyphenated format of the UUID with value `v`
/// (`uuid::Uuid::from_u128(v).hyphenated()`, displayed). Claimed: the simple
/// digits grouped 8-4-4-4-12 with hyphens, as the crate documents it.
#[verifier::external_body]
fn hyphenated_text(v: u128) -> (s: String)
    ensures
        s@ == uuid_hyphenated(v),
{
    uuid::Uuid::from_u128(v).hyphenated().to_string()
}

/// Identifies one agent.
#[derive(Clone, Copy, PartialEq, Eq, Structural, Debug, Hash)]
pub struct AgentId(pub u128);

/// Identifies one execution (one run of an agent's code).
#[derive(Clone, Copy, PartialEq, Eq, Structural, Debug, Hash)]
pub struct ExecutionId(pub u128);

/// Identifies one scheduled task.
#[derive(Clone, Copy, PartialEq, Eq, Structural, Debug, Hash)]
pub struct TaskId(pub u128);

impl AgentId {
    /// A fresh random identifier: a version 4 UUID.
    pub fn new() -> (id: Self)
        ensures
            is_uuid_v4(id.0),
    {
        AgentId(new_v4_value())
    }

    /// The identifier with UUID value `v`.
    pub fn from_u128(v: u128) -> (id: Self)
        ensures
            id.0 == v,
    {
        AgentId(v)
    }

    /// The UUID value.
    pub fn as_u128(&self) -> (v: u128)
        ensures
            v == self.0,
    {
        self.0
    }

    /// The hyphenated UUID text.
    pub fn to_text(&self) -> (s: String)
        ensures
            s@ == uuid_hyphenated(self.0),
    {
        hyphenated_text(self.0)
    }

    /// The simple (unhyphenated) UUID text.
    pub fn simple(&self) -> (s: String)
        ensures
            s@ == uuid_simple(self.0),
    {
        simple_text(self.0)
    }
}

impl ExecutionId {
    /// A fresh random identifier: a version 4 UUID.
    pub fn new() -> (id: Self)
        ensures
            is_uuid_v4(id.0),
    {
        ExecutionId(new_v4_value())
    }

    /// The identifier with UUID value `v`.
    pub fn from_u128(v: u128) -> (id: Self)
        ensures
            id.0 == v,
    {
        ExecutionId(v)
    }

    /// The UUID value.
    pub fn as_u128(&self) -> (v: u128)
        ensures
            v == self.0,
    {
        self.0
    }

    /// The hyphenated UUID text.
    pub fn to_text(&self) -> (s: String)
        ensures
            s@ == uuid_hyphenated(self.0),
    {
        hyphenated_text(self.0)
    }

    /// The simple (unhyphenated) UUID text.
    pub fn simple(&self) -> (s: String)
        ensures
            s@ == uuid_simple(self.0),
    {
        simple_text(self.0)
    }
}

impl TaskId {
    /// A fresh random identifier: a version 4 UUID.
    pub fn new() -> (id: Self)
        ensures
            is_uuid_v4(id.0),
    {
        TaskId(new_v4_value())
    }

    /// The identifier with UUID value `v`.
    pub fn from_u128(v: u128) -> (id: Self)
        ensures
            id.0 == v,
    {
        TaskId(v)
    }

    /// The UUID value.
    pub fn as_u128(&self) -> (v: u128)
        ensures
            v == self.0,
    {
        self.0
    }

    /// The hyphenated UUID text.
    pub fn to_text(&self) -> (s: String)
        ensures
            s@ == uuid_hyphenated(self.0),
    {
        hyphenated_text(self.0)
    }
}

} // verus!
