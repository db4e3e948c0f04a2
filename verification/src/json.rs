//! Structured documents read from the Grok CLI: JSON replies and TOML
//! configuration, as one tree of plain values.
//!
//! A TOML document uses `Object` for its tables, `InlineTable` for inline
//! tables, `TableArray` for arrays of tables and `Other` for values the crate
//! does not read (dates, floats); JSON uses `Object`, `Array` and the scalars.

use vstd::prelude::*;
use crate::text::{chars_of, eq_str};
use serde_json::Value as JsonValue;

verus! {

/// The integer readings of a number: as a signed and as an unsigned 64-bit
/// integer, where it has one.
pub struct JsonNumber {
    pub as_i64: Option<i64>,
    pub as_u64: Option<u64>,
}

/// A JSON value, or an item of a TOML document.
pub enum Json {
    Null,
    Bool(bool),
    Number(JsonNumber),
    Str(String),
    Array(Vec<Json>),
    Object(Vec<(String, Json)>),
    InlineTable(Vec<(String, Json)>),
    TableArray(Vec<Json>),
    Other,
}

/// The value of the first entry named `key`.
pub open spec fn field(entries: Seq<(String, Json)>, key: Seq<char>) -> Option<Json>
    decreases entries.len(),
{
    if entries.len() == 0 {
        None
    } else if entries[0].0@ == key {
        Some(entries[0].1)
    } else {
        field(entries.drop_first(), key)
    }
}

/// The member `key` of an object or table.
pub open spec fn get_spec(j: Json, key: Seq<char>) -> Option<Json> {
    match j {
        Json::Object(e) => field(e@, key),
        Json::InlineTable(e) => field(e@, key),
        _ => None,
    }
}

/// The text of a string value.
pub open spec fn str_spec(j: Json) -> Option<Seq<char>> {
    match j {
        Json::Str(s) => Some(s@),
        _ => None,
    }
}

/// The value of a boolean.
pub open spec fn bool_spec(j: Json) -> Option<bool> {
    match j {
        Json::Bool(b) => Some(b),
        _ => None,
    }
}

/// A number as an unsigned 64-bit integer, when it is one.
pub open spec fn u64_spec(j: Json) -> Option<u64> {
    match j {
        Json::Number(n) => n.as_u64,
        _ => None,
    }
}

/// The items of an array (not of an array of tables).
pub open spec fn array_spec(j: Json) -> Option<Seq<Json>> {
    match j {
        Json::Array(a) => Some(a@),
        _ => None,
    }
}

/// The string member `key` of an object.
pub open spec fn str_at(j: Json, key: Seq<char>) -> Option<Seq<char>> {
    match get_spec(j, key) {
        Some(v) => str_spec(v),
        None => None,
    }
}

/// The boolean member `key` of an object.
pub open spec fn bool_at(j: Json, key: Seq<char>) -> Option<bool> {
    match get_spec(j, key) {
        Some(v) => bool_spec(v),
        None => None,
    }
}

/// The unsigned integer member `key` of an object.
pub open spec fn u64_at(j: Json, key: Seq<char>) -> Option<u64> {
    match get_spec(j, key) {
        Some(v) => u64_spec(v),
        None => None,
    }
}

/// The array member `key` of an object.
pub open spec fn array_at(j: Json, key: Seq<char>) -> Option<Seq<Json>> {
    match get_spec(j, key) {
        Some(v) => array_spec(v),
        None => None,
    }
}

fn field_exec<'a>(entries: &'a Vec<(String, Json)>, key: &str) -> (r: Option<&'a Json>)
    ensures
        match r {
            Some(v) => field(entries@, key@) == Some(*v),
            None => field(entries@, key@) is None,
        },
{
    let mut i: usize = 0;
    assert(entries@.skip(0) =~= entries@);
    while i < entries.len()
        invariant
            i <= entries.len(),
            field(entries@, key@) == field(entries@.skip(i as int), key@),
        decreases entries.len() - i,
    {
        let k = chars_of(entries[i].0.as_str());
        assert(entries@.skip(i as int)[0] == entries@[i as int]);
        if eq_str(&k, key) {
            return Some(&entries[i].1);
        }
        assert(entries@.skip(i as int).drop_first() =~= entries@.skip(i + 1));
        i += 1;
    }
    None
}

impl Json {
    /// The member `key` of an object or table (see `get_spec`).
    pub fn get(&self, key: &str) -> (r: Option<&Json>)
        ensures
            match r {
                Some(v) => get_spec(*self, key@) == Some(*v),
                None => get_spec(*self, key@) is None,
            },
    {
        match self {
            Json::Object(e) => field_exec(e, key),
            Json::InlineTable(e) => field_exec(e, key),
            _ => None,
        }
    }

    /// The text of a string value.
    pub fn as_str(&self) -> (r: Option<&str>)
        ensures
            crate::session::opt_str_view(r) == str_spec(*self),
    {
        match self {
            Json::Str(s) => Some(s.as_str()),
            _ => None,
        }
    }

    /// The value of a boolean.
    pub fn as_bool(&self) -> (r: Option<bool>)
        ensures
            r == bool_spec(*self),
    {
        match self {
            Json::Bool(b) => Some(*b),
            _ => None,
        }
    }

    /// A number as an unsigned 64-bit integer, when it is one.
    pub fn as_u64(&self) -> (r: Option<u64>)
        ensures
            r == u64_spec(*self),
    {
        match self {
            Json::Number(n) => n.as_u64,
            _ => None,
        }
    }

    /// The items of an array.
    pub fn as_array(&self) -> (r: Option<&Vec<Json>>)
        ensures
            match r {
                Some(a) => array_spec(*self) == Some(a@),
                None => array_spec(*self) is None,
            },
    {
        match self {
            Json::Array(a) => Some(a),
            _ => None,
        }
    }

    /// The string member `key` (see `str_at`).
    pub fn str_at(&self, key: &str) -> (r: Option<&str>)
        ensures
            crate::session::opt_str_view(r) == str_at(*self, key@),
    {
        match self.get(key) {
            Some(v) => v.as_str(),
            None => None,
        }
    }

    /// The boolean member `key` (see `bool_at`).
    pub fn bool_at(&self, key: &str) -> (r: Option<bool>)
        ensures
            r == bool_at(*self, key@),
    {
        match self.get(key) {
            Some(v) => v.as_bool(),
            None => None,
        }
    }

    /// The unsigned integer member `key` (see `u64_at`).
    pub fn u64_at(&self, key: &str) -> (r: Option<u64>)
        ensures
            r == u64_at(*self, key@),
    {
        match self.get(key) {
            Some(v) => v.as_u64(),
            None => None,
        }
    }

    /// The array member `key` (see `array_at`).
    pub fn array_at(&self, key: &str) -> (r: Option<&Vec<Json>>)
        ensures
            match r {
                Some(a) => array_at(*self, key@) == Some(a@),
                None => array_at(*self, key@) is None,
            },
    {
        match self.get(key) {
            Some(v) => v.as_array(),
            None => None,
        }
    }
}


/// A number as a signed 64-bit integer, when it is one.
pub open spec fn i64_spec(j: Json) -> Option<i64> {
    match j {
        Json::Number(n) => n.as_i64,
        _ => None,
    }
}

/// The signed integer member `key` of an object.
pub open spec fn i64_at(j: Json, key: Seq<char>) -> Option<i64> {
    match get_spec(j, key) {
        Some(v) => i64_spec(v),
        None => None,
    }
}

/// The value at the end of the member path `keys`.
pub open spec fn pointer_spec(j: Json, keys: Seq<Seq<char>>) -> Option<Json>
    decreases keys.len(),
{
    if keys.len() == 0 {
        Some(j)
    } else {
        match get_spec(j, keys[0]) {
            Some(v) => pointer_spec(v, keys.drop_first()),
            None => None,
        }
    }
}

/// `j` is the string `t`.
pub open spec fn is_text(j: Json, t: Seq<char>) -> bool {
    j matches Json::Str(s) && s@ == t
}

/// `j` is an object whose members are named `names`, in order.
pub open spec fn object_named(j: Json, names: Seq<Seq<char>>) -> bool {
    j matches Json::Object(es) && es@.len() == names.len() && forall|i: int|
        0 <= i < names.len() ==> (#[trigger] es@[i]).0@ == names[i]
}

/// Member `i` (by position) of an object.
pub open spec fn member(j: Json, i: int) -> Json {
    match j {
        Json::Object(es) => es@[i].1,
        _ => Json::Null,
    }
}

/// A string value.
pub fn text_value(s: &str) -> (r: Json)
    ensures
        is_text(r, s@),
{
    Json::Str(String::from_str(s))
}

/// An integer value.
pub fn int_value(n: i64) -> (r: Json)
    ensures
        i64_spec(r) == Some(n),
        u64_spec(r) == (if n >= 0 {
            Some(n as u64)
        } else {
            None::<u64>
        }),
{
    Json::Number(JsonNumber { as_i64: Some(n), as_u64: if n >= 0 { Some(n as u64) } else { None } })
}

/// An object with one member.
pub fn object1(k0: &str, v0: Json) -> (r: Json)
    ensures
        object_named(r, seq![k0@]),
        member(r, 0) == v0,
{
    let mut es: Vec<(String, Json)> = Vec::new();
    es.push((String::from_str(k0), v0));
    Json::Object(es)
}

/// An object with two members.
pub fn object2(k0: &str, v0: Json, k1: &str, v1: Json) -> (r: Json)
    ensures
        object_named(r, seq![k0@, k1@]),
        member(r, 0) == v0,
        member(r, 1) == v1,
{
    let mut es: Vec<(String, Json)> = Vec::new();
    es.push((String::from_str(k0), v0));
    es.push((String::from_str(k1), v1));
    Json::Object(es)
}

/// An object with three members.
pub fn object3(k0: &str, v0: Json, k1: &str, v1: Json, k2: &str, v2: Json) -> (r: Json)
    ensures
        object_named(r, seq![k0@, k1@, k2@]),
        member(r, 0) == v0,
        member(r, 1) == v1,
        member(r, 2) == v2,
{
    let mut es: Vec<(String, Json)> = Vec::new();
    es.push((String::from_str(k0), v0));
    es.push((String::from_str(k1), v1));
    es.push((String::from_str(k2), v2));
    Json::Object(es)
}

/// An object with four members.
pub fn object4(k0: &str, v0: Json, k1: &str, v1: Json, k2: &str, v2: Json, k3: &str, v3: Json) -> (r:
    Json)
    ensures
        object_named(r, seq![k0@, k1@, k2@, k3@]),
        member(r, 0) == v0,
        member(r, 1) == v1,
        member(r, 2) == v2,
        member(r, 3) == v3,
{
    let mut es: Vec<(String, Json)> = Vec::new();
    es.push((String::from_str(k0), v0));
    es.push((String::from_str(k1), v1));
    es.push((String::from_str(k2), v2));
    es.push((String::from_str(k3), v3));
    Json::Object(es)
}

/// The position of the first member named `key`.
pub fn field_index_pub(entries: &Vec<(String, Json)>, key: &str) -> (r: Option<usize>)
    ensures
        match r {
            Some(i) => i < entries@.len() && field(entries@, key@) == Some(entries@[i as int].1)
                && entries@[i as int].0@ == key@,
            None => field(entries@, key@) is None,
        },
{
    let mut i: usize = 0;
    assert(entries@.skip(0) =~= entries@);
    while i < entries.len()
        invariant
            i <= entries.len(),
            field(entries@, key@) == field(entries@.skip(i as int), key@),
        decreases entries.len() - i,
    {
        let k = chars_of(entries[i].0.as_str());
        assert(entries@.skip(i as int)[0] == entries@[i as int]);
        if eq_str(&k, key) {
            assert(entries@[i as int].0@ == key@);
            return Some(i);
        }
        assert(entries@.skip(i as int).drop_first() =~= entries@.skip(i + 1));
        i += 1;
    }
    None
}

/// The member `key` of an object or table, taken out of it; the value itself
/// when it has no such member.
pub fn into_member_or_self(j: Json, key: &str) -> (r: Json)
    ensures
        r == match get_spec(j, key@) {
            Some(v) => v,
            None => j,
        },
{
    match j {
        Json::Object(mut es) => {
            match field_index_pub(&es, key) {
                Some(i) => {
                    let (_, v) = es.remove(i);
                    v
                },
                None => Json::Object(es),
            }
        },
        Json::InlineTable(mut es) => {
            match field_index_pub(&es, key) {
                Some(i) => {
                    let (_, v) = es.remove(i);
                    v
                },
                None => Json::InlineTable(es),
            }
        },
        other => other,
    }
}

/// The member `key` of an object or table, taken out of it; `null` when it
/// has no such member.
pub fn into_member(j: Json, key: &str) -> (r: Json)
    ensures
        r == match get_spec(j, key@) {
            Some(v) => v,
            None => Json::Null,
        },
{
    match j {
        Json::Object(mut es) => {
            match field_index_pub(&es, key) {
                Some(i) => {
                    let (_, v) = es.remove(i);
                    v
                },
                None => Json::Null,
            }
        },
        Json::InlineTable(mut es) => {
            match field_index_pub(&es, key) {
                Some(i) => {
                    let (_, v) = es.remove(i);
                    v
                },
                None => Json::Null,
            }
        },
        _ => Json::Null,
    }
}

impl Json {
    /// A number as a signed 64-bit integer, when it is one.
    pub fn as_i64(&self) -> (r: Option<i64>)
        ensures
            r == i64_spec(*self),
    {
        match self {
            Json::Number(n) => n.as_i64,
            _ => None,
        }
    }

    /// The signed integer member `key` (see `i64_at`).
    pub fn i64_at(&self, key: &str) -> (r: Option<i64>)
        ensures
            r == i64_at(*self, key@),
    {
        match self.get(key) {
            Some(v) => v.as_i64(),
            None => None,
        }
    }
}

// ---------------------------------------------------------------------------
// JSON text, read and written with `serde_json`
// ---------------------------------------------------------------------------

#[verifier::external_type_specification]
#[verifier::external_body]
pub struct ExJsonValue(serde_json::Value);

/// What `serde_json::from_slice::<serde_json::Value>` gives for `bytes`: the
/// value as a tree (objects as `Object` with their keys in the order
/// `serde_json`'s map keeps them, numbers with their 64-bit integer readings),
/// or the parser's error message.
pub uninterp spec fn json_tree(bytes: Seq<u8>) -> Result<Json, Seq<char>>;

/// The tree of `bytes` when they parse, else none.
pub open spec fn json_ok(bytes: Seq<u8>) -> Option<Json> {
    match json_tree(bytes) {
        Ok(j) => Some(j),
        Err(_) => None,
    }
}

/// Converts a `serde_json::Value` into the tree, one for one; part of the
/// conversion that `parse_json` promises as `json_tree`.
#[verifier::external_body]
fn tree_of_value(value: JsonValue) -> Json {
    match value {
        JsonValue::Null => Json::Null,
        JsonValue::Bool(b) => Json::Bool(b),
        JsonValue::Number(n) => Json::Number(JsonNumber { as_i64: n.as_i64(), as_u64: n.as_u64() }),
        JsonValue::String(s) => Json::Str(s),
        JsonValue::Array(a) => Json::Array(a.into_iter().map(tree_of_value).collect()),
        JsonValue::Object(m) => Json::Object(m.into_iter().map(|(k, v)| (k, tree_of_value(v))).collect()),
    }
}

/// Parses `bytes` with `serde_json::from_slice` into a `serde_json::Value` and
/// converts it, or gives the error's message (`Display`). The contract claims
/// only that the outcome is `json_tree(bytes)`, which depends on the bytes alone.
#[verifier::external_body]
pub(crate) fn parse_json(bytes: &[u8]) -> (r: Result<Json, String>)
    ensures
        match r {
            Ok(j) => json_tree(bytes@) == Ok::<Json, Seq<char>>(j),
            Err(e) => json_tree(bytes@) == Err::<Json, Seq<char>>(e@),
        },
{
    match serde_json::from_slice::<JsonValue>(bytes) {
        Ok(value) => Ok(tree_of_value(value)),
        Err(error) => Err(error.to_string()),
    }
}

/// The compact JSON text `serde_json` writes (`Value`'s `Display`) for the
/// tree `j` made into a `serde_json::Value`: tables as objects, arrays of
/// tables as arrays, `Other` and numbers without an integer reading as `null`.
pub uninterp spec fn json_text_of(j: Json) -> Seq<char>;

/// Converts the tree into a `serde_json::Value`, one for one; part of the
/// conversion that `json_text` promises as `json_text_of`.
#[verifier::external_body]
fn value_of_tree(j: &Json) -> JsonValue {
    match j {
        Json::Null | Json::Other => JsonValue::Null,
        Json::Bool(b) => JsonValue::Bool(*b),
        Json::Number(JsonNumber { as_i64: Some(i), .. }) => JsonValue::from(*i),
        Json::Number(JsonNumber { as_u64: Some(u), .. }) => JsonValue::from(*u),
        Json::Number(_) => JsonValue::Null,
        Json::Str(s) => JsonValue::String(s.clone()),
        Json::Array(a) | Json::TableArray(a) => JsonValue::Array(a.iter().map(value_of_tree).collect()),
        Json::Object(e) | Json::InlineTable(e) => JsonValue::Object(
            e.iter().map(|(k, v)| (k.clone(), value_of_tree(v))).collect(),
        ),
    }
}

/// Writes `j` as compact JSON with `serde_json` (`Value`'s `Display`); the
/// contract claims only that the text is `json_text_of(j)`.
#[verifier::external_body]
pub(crate) fn json_text(j: &Json) -> (r: String)
    ensures
        r@ == json_text_of(*j),
{
    value_of_tree(j).to_string()
}

} // verus!
