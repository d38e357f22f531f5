//! JSON values as the replay engine compares them.
use vstd::prelude::*;

use crate::text::text_eq;
use serde_json::{Number, Value};

verus! {

/// A JSON number: a non-negative integer, a negative integer, or a finite
/// float held by the text `serde_json` writes for it (the shortest text that
/// reads back as the same float, such as `1.5` or `-0.0`).
#[derive(Debug)]
pub enum JsonNumber {
    PosInt(u64),
    NegInt(i64),
    Float(String),
}

/// A JSON value. An object holds its members in order, each key once.
#[derive(Debug)]
pub enum JsonValue {
    Null,
    Bool(bool),
    Number(JsonNumber),
    String(String),
    Array(Vec<JsonValue>),
    Object(Vec<(String, JsonValue)>),
}

/// Whether `t` is the text of a zero float (positive or negative).
pub open spec fn is_zero_float(t: Seq<char>) -> bool {
    t == "0.0"@ || t == "-0.0"@
}

/// Float equality on the texts of finite floats: the same text (the text
/// of a float is unique), or both zeros.
pub open spec fn float_text_eq(a: Seq<char>, b: Seq<char>) -> bool {
    a == b || (is_zero_float(a) && is_zero_float(b))
}

/// Equality of JSON numbers: same kind and equal value.
pub open spec fn number_eq(a: JsonNumber, b: JsonNumber) -> bool {
    match (a, b) {
        (JsonNumber::PosInt(x), JsonNumber::PosInt(y)) => x == y,
        (JsonNumber::NegInt(x), JsonNumber::NegInt(y)) => x == y,
        (JsonNumber::Float(x), JsonNumber::Float(y)) => float_text_eq(x@, y@),
        _ => false,
    }
}

/// The index of the first member of `members` whose key is `key`.
pub open spec fn member_index(members: Seq<(String, JsonValue)>, key: Seq<char>) -> Option<int> {
    if exists|j: int| 0 <= j < members.len() && #[trigger] members[j].0@ == key {
        let j = choose|j: int|
            0 <= j < members.len() && #[trigger] members[j].0@ == key && forall|k: int|
                0 <= k < j ==> members[k].0@ != key;
        Some(j)
    } else {
        None
    }
}

/// Structural equivalence of JSON values: objects are compared as maps
/// (member order does not matter), arrays element by element, and scalars
/// by value.
pub open spec fn json_equiv(a: JsonValue, b: JsonValue) -> bool
    decreases a,
{
    match (a, b) {
        (JsonValue::Object(ao), JsonValue::Object(bo)) => {
            &&& ao@.len() == bo@.len()
            &&& forall|i: int|
                0 <= i < ao@.len() ==> match member_index(bo@, (#[trigger] ao@[i]).0@) {
                    Some(j) => json_equiv(ao@[i].1, bo@[j].1),
                    None => false,
                }
        },
        (JsonValue::Array(aa), JsonValue::Array(ba)) => {
            &&& aa@.len() == ba@.len()
            &&& forall|i: int| 0 <= i < aa@.len() ==> json_equiv(#[trigger] aa@[i], ba@[i])
        },
        (JsonValue::Null, JsonValue::Null) => true,
        (JsonValue::Bool(x), JsonValue::Bool(y)) => x == y,
        (JsonValue::Number(x), JsonValue::Number(y)) => number_eq(x, y),
        (JsonValue::String(x), JsonValue::String(y)) => x@ == y@,
        _ => false,
    }
}

proof fn lemma_first_member(members: Seq<(String, JsonValue)>, key: Seq<char>, j: int)
    requires
        0 <= j < members.len(),
        members[j].0@ == key,
        forall|k: int| 0 <= k < j ==> members[k].0@ != key,
    ensures
        member_index(members, key) == Some(j),
{
    let c = choose|c: int|
        0 <= c < members.len() && #[trigger] members[c].0@ == key && forall|k: int|
            0 <= k < c ==> members[k].0@ != key;
    assert(c == j) by {
        if c < j {
            assert(members[c].0@ != key);
        }
        if j < c {
            assert(members[j].0@ != key);
        }
    }
}

/// The index of the first member of `members` whose key is `key`.
fn find_member(members: &Vec<(String, JsonValue)>, key: &String) -> (r: Option<usize>)
    ensures
        match r {
            Some(j) => j < members@.len() && member_index(members@, key@) == Some(j as int),
            None => member_index(members@, key@) is None,
        },
{
    let mut i: usize = 0;
    while i < members.len()
        invariant
            i <= members@.len(),
            forall|k: int| 0 <= k < i ==> members@[k].0@ != key@,
        decreases members.len() - i,
    {
        if members[i].0 == *key {
            proof {
                lemma_first_member(members@, key@, i as int);
            }
            return Some(i);
        }
        i = i + 1;
    }
    None
}

/// Whether `t` is the text of a zero float (see [`is_zero_float`]).
fn is_zero_text(t: &str) -> (r: bool)
    ensures
        r == is_zero_float(t@),
{
    text_eq(t, "0.0") || text_eq(t, "-0.0")
}

/// Equality of JSON numbers (see [`number_eq`]).
fn number_equal(a: &JsonNumber, b: &JsonNumber) -> (r: bool)
    ensures
        r == number_eq(*a, *b),
{
    match (a, b) {
        (JsonNumber::PosInt(x), JsonNumber::PosInt(y)) => *x == *y,
        (JsonNumber::NegInt(x), JsonNumber::NegInt(y)) => *x == *y,
        (JsonNumber::Float(x), JsonNumber::Float(y)) => text_eq(x.as_str(), y.as_str()) || (
        is_zero_text(x.as_str()) && is_zero_text(y.as_str())),
        _ => false,
    }
}

/// Structural JSON equivalence, independent of object member order.
pub fn json_equivalent(a: &JsonValue, b: &JsonValue) -> (r: bool)
    ensures
        r == json_equiv(*a, *b),
    decreases a,
{
    match (a, b) {
        (JsonValue::Object(ao), JsonValue::Object(bo)) => {
            if ao.len() != bo.len() {
                return false;
            }
            let mut i: usize = 0;
            while i < ao.len()
                invariant
                    i <= ao@.len(),
                    ao@.len() == bo@.len(),
                    *a == JsonValue::Object(*ao),
                    *b == JsonValue::Object(*bo),
                    forall|k: int|
                        0 <= k < i ==> match member_index(bo@, (#[trigger] ao@[k]).0@) {
                            Some(j) => json_equiv(ao@[k].1, bo@[j].1),
                            None => false,
                        },
                decreases ao.len() - i,
            {
                match find_member(bo, &ao[i].0) {
                    None => {
                        return false;
                    },
                    Some(j) => {
                        proof {
                            assert(decreases_to!(*a => (*a)->Object_0));
                            assert(decreases_to!(*ao => ao@));
                            assert(decreases_to!(ao@ => ao@[i as int]));
                            assert(decreases_to!(ao@[i as int] => ao@[i as int].1));
                            assert(decreases_to!(*a => ao@[i as int].1));
                        }
                        if !json_equivalent(&ao[i].1, &bo[j].1) {
                            return false;
                        }
                    },
                }
                i = i + 1;
            }
            true
        },
        (JsonValue::Array(aa), JsonValue::Array(ba)) => {
            if aa.len() != ba.len() {
                return false;
            }
            let mut i: usize = 0;
            while i < aa.len()
                invariant
                    i <= aa@.len(),
                    aa@.len() == ba@.len(),
                    *a == JsonValue::Array(*aa),
                    *b == JsonValue::Array(*ba),
                    forall|k: int| 0 <= k < i ==> json_equiv(#[trigger] aa@[k], ba@[k]),
                decreases aa.len() - i,
            {
                proof {
                    assert(decreases_to!(*a => (*a)->Array_0));
                    assert(decreases_to!(*aa => aa@));
                    assert(decreases_to!(aa@ => aa@[i as int]));
                    assert(decreases_to!(*a => aa@[i as int]));
                }
                if !json_equivalent(&aa[i], &ba[i]) {
                    return false;
                }
                i = i + 1;
            }
            true
        },
        (JsonValue::Null, JsonValue::Null) => true,
        (JsonValue::Bool(x), JsonValue::Bool(y)) => *x == *y,
        (JsonValue::Number(x), JsonValue::Number(y)) => number_equal(x, y),
        (JsonValue::String(x), JsonValue::String(y)) => *x == *y,
        _ => false,
    }
}

/// `serde_json::Value`, the value `serde_json` parses into and writes out.
#[verifier::external_type_specification]
#[verifier::external_body]
pub struct ExSerdeValue(serde_json::Value);

/// `Value` as a JSON value of this library, one for one: numbers
/// by the kind `serde_json` holds them in, objects in the order it keeps.
#[verifier::external_body]
fn from_serde_value(v: &Value) -> JsonValue {
    match v {
        Value::Null => JsonValue::Null,
        Value::Bool(b) => JsonValue::Bool(*b),
        Value::Number(n) => JsonValue::Number(match (n.as_u64(), n.as_i64()) {
            (Some(u), _) => JsonNumber::PosInt(u),
            (None, Some(i)) => JsonNumber::NegInt(i),
            (None, None) => JsonNumber::Float(n.to_string()),
        }),
        Value::String(s) => JsonValue::String(s.clone()),
        Value::Array(a) => JsonValue::Array(a.iter().map(from_serde_value).collect()),
        Value::Object(m) => JsonValue::Object(m.iter().map(|(k, x)| (k.clone(), from_serde_value(x))).collect()),
    }
}

/// A JSON value of this library as a `Value`, one for one (a
/// float by reading its text back; a text that is no number becomes null).
#[verifier::external_body]
fn to_serde_value(v: &JsonValue) -> Value {
    match v {
        JsonValue::Null => Value::Null,
        JsonValue::Bool(b) => Value::Bool(*b),
        JsonValue::Number(JsonNumber::PosInt(u)) => Value::from(*u),
        JsonValue::Number(JsonNumber::NegInt(i)) => Value::from(*i),
        JsonValue::Number(JsonNumber::Float(s)) => serde_json::from_str::<Number>(s).map_or(Value::Null, Value::Number),
        JsonValue::String(s) => Value::String(s.clone()),
        JsonValue::Array(a) => Value::Array(a.iter().map(to_serde_value).collect()),
        JsonValue::Object(m) => Value::Object(m.iter().map(|(k, x)| (k.clone(), to_serde_value(x))).collect()),
    }
}

/// What `serde_json::from_str` makes of `text`, as a JSON value of this
/// library: `None` where the text is not JSON.
pub uninterp spec fn spec_parse_json(text: Seq<char>) -> Option<JsonValue>;

/// The text `serde_json` writes for `v` (`Value::to_string`).
pub uninterp spec fn spec_json_text(v: JsonValue) -> Seq<char>;

/// `serde_json::from_str` into a `Value`: the value of `text`,
/// or `None` where the text is not JSON. The value depends on the text
/// alone, so it is named by [`spec_parse_json`].
#[verifier::external_body]
pub fn parse_json(text: &str) -> (r: Option<JsonValue>)
    ensures
        r == spec_parse_json(text@),
{
    serde_json::from_str::<Value>(text).ok().map(|v| from_serde_value(&v))
}

/// `Value::to_string`: the compact JSON text of `v`. The text
/// depends on the value alone, so it is named by [`spec_json_text`].
#[verifier::external_body]
pub fn json_text(v: &JsonValue) -> (s: String)
    ensures
        s@ == spec_json_text(*v),
{
    to_serde_value(v).to_string()
}

/// The value of `text`, and `Null` where it is not JSON.
pub open spec fn json_or_null(text: Seq<char>) -> JsonValue {
    match spec_parse_json(text) {
        Some(v) => v,
        None => JsonValue::Null,
    }
}

/// The value of `text`, and `Null` where it is not JSON (see
/// [`json_or_null`]).
pub fn parse_json_or_null(text: &str) -> (r: JsonValue)
    ensures
        r == json_or_null(text@),
{
    match parse_json(text) {
        Some(v) => v,
        None => JsonValue::Null,
    }
}

/// JSON equivalence of two scalars of one kind is plain equality: two
/// booleans, two strings, two non-negative or two negative integers are
/// equivalent exactly when they are equal, and null is equivalent to null.
/// So a replayed call whose scalar argument differs from the recording is no
/// match.
pub proof fn law_scalar_equivalence_is_equality(x: bool, y: bool, a: String, b: String, u: u64, v: u64, i: i64, j: i64)
    ensures
        json_equiv(JsonValue::Bool(x), JsonValue::Bool(y)) <==> x == y,
        json_equiv(JsonValue::String(a), JsonValue::String(b)) <==> a@ == b@,
        json_equiv(JsonValue::Number(JsonNumber::PosInt(u)), JsonValue::Number(JsonNumber::PosInt(v))) <==> u
            == v,
        json_equiv(JsonValue::Number(JsonNumber::NegInt(i)), JsonValue::Number(JsonNumber::NegInt(j))) <==> i
            == j,
        json_equiv(JsonValue::Null, JsonValue::Null),
        !json_equiv(JsonValue::Null, JsonValue::Bool(x)),
        !json_equiv(JsonValue::Bool(x), JsonValue::Number(JsonNumber::PosInt(u))),
{
}

} // verus!
