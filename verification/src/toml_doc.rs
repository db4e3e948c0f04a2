//! Grok's TOML configuration, read and edited with the `toml_edit` crate: the
//! document as the library's tree (`Json`), and the text after setting boolean
//! keys, with the rest of the file kept as it was written.

use vstd::prelude::*;
use crate::json::{pointer_spec, Json, JsonNumber};
use crate::text::str_views;
use toml_edit::{Item, Table, Value};

verus! {

#[verifier::external_type_specification]
#[verifier::external_body]
pub struct ExTomlItem(toml_edit::Item);

#[verifier::external_type_specification]
#[verifier::external_body]
pub struct ExTomlValue(toml_edit::Value);

#[verifier::external_type_specification]
#[verifier::external_body]
pub struct ExTomlTable(toml_edit::Table);

/// What parsing `raw` with `toml_edit::DocumentMut`'s `FromStr` gives: the
/// document as a tree (tables as `Object`, inline tables as `InlineTable`,
/// arrays of tables as `TableArray`, floats and dates as `Other`), or the
/// parser's error message.
pub uninterp spec fn toml_tree(raw: Seq<char>) -> Result<Json, Seq<char>>;

/// Converts a `toml_edit::Value` into the tree, one for one; part of the
/// conversion that `parse_toml` promises as `toml_tree`.
#[verifier::external_body]
fn value_tree(value: &Value) -> Json {
    match value {
        Value::String(s) => Json::Str(s.value().clone()),
        Value::Integer(i) => Json::Number(
            JsonNumber { as_i64: Some(*i.value()), as_u64: u64::try_from(*i.value()).ok() },
        ),
        Value::Boolean(b) => Json::Bool(*b.value()),
        Value::Array(a) => Json::Array(a.iter().map(value_tree).collect()),
        Value::InlineTable(t) => Json::InlineTable(
            t.iter().map(|(k, v)| (k.to_string(), value_tree(v))).collect(),
        ),
        Value::Float(_) | Value::Datetime(_) => Json::Other,
    }
}

/// Converts a `toml_edit::Item` into the tree, one for one; part of the
/// conversion that `parse_toml` promises as `toml_tree`.
#[verifier::external_body]
fn item_tree(item: &Item) -> Json {
    match item {
        Item::None => Json::Null,
        Item::Value(v) => value_tree(v),
        Item::Table(t) => table_tree(t),
        Item::ArrayOfTables(a) => Json::TableArray(a.iter().map(table_tree).collect()),
    }
}

/// Converts a `toml_edit::Table` into the tree, one for one; part of the
/// conversion that `parse_toml` promises as `toml_tree`.
#[verifier::external_body]
fn table_tree(table: &Table) -> Json {
    Json::Object(table.iter().map(|(k, v)| (k.to_string(), item_tree(v))).collect())
}

/// Parses `raw` with `toml_edit` (`str::parse::<DocumentMut>`) and converts the
/// document, or the error's message (`Display`). The contract claims only that
/// the outcome is `toml_tree(raw)`, which depends on the text alone.
#[verifier::external_body]
pub(crate) fn parse_toml(raw: &str) -> (r: Result<Json, String>)
    ensures
        match r {
            Ok(t) => toml_tree(raw@) == Ok::<Json, Seq<char>>(t),
            Err(e) => toml_tree(raw@) == Err::<Json, Seq<char>>(e@),
        },
{
    match raw.parse::<toml_edit::DocumentMut>() {
        Ok(document) => Ok(table_tree(document.as_table())),
        Err(error) => Err(error.to_string()),
    }
}

/// The parsed configuration, or an empty document when it does not parse.
pub fn config_document(raw: &str) -> (r: Json)
    ensures
        match toml_tree(raw@) {
            Ok(t) => r == t,
            Err(_) => r matches Json::Object(es) && es@.len() == 0,
        },
{
    match parse_toml(raw) {
        Ok(t) => t,
        Err(_) => Json::Object(Vec::new()),
    }
}

/// The text `toml_edit` writes (`DocumentMut`'s `Display`) after parsing `raw`
/// and setting, for each edit in order, the boolean at its key path through
/// `IndexMut` (which creates missing tables as inline tables).
pub uninterp spec fn toml_with_bools(raw: Seq<char>, edits: Seq<(Seq<Seq<char>>, bool)>) -> Seq<char>;

/// The edits as key paths and values.
pub open spec fn edits_view(edits: Seq<(Vec<String>, bool)>) -> Seq<(Seq<Seq<char>>, bool)> {
    edits.map_values(|e: (Vec<String>, bool)| (str_views(e.0@), e.1))
}

/// An item that `toml_edit` can index by key: absent, a table or an inline table.
pub open spec fn indexable(o: Option<Json>) -> bool {
    match o {
        None => true,
        Some(Json::Object(_)) => true,
        Some(Json::InlineTable(_)) => true,
        _ => false,
    }
}

/// Applying `edits` to the document `tree` does not make `toml_edit`'s
/// indexing panic: every key path is non-empty, every item it passes through
/// is absent or a table, and no path passes through the end of an earlier one.
pub open spec fn edits_safe(tree: Json, edits: Seq<(Seq<Seq<char>>, bool)>) -> bool {
    &&& forall|i: int| 0 <= i < edits.len() ==> (#[trigger] edits[i]).0.len() > 0
    &&& forall|i: int, k: int|
        0 <= i < edits.len() && 1 <= k < edits[i].0.len() ==> #[trigger] indexable(
            pointer_spec(tree, edits[i].0.take(k)),
        )
    &&& forall|i: int, j: int|
        0 <= i < j < edits.len() ==> !((#[trigger] edits[i]).0.len() < (#[trigger] edits[j]).0.len()
            && edits[i].0 == edits[j].0.take(edits[i].0.len() as int))
}

/// Parses `raw` with `toml_edit`, sets each edit's boolean through `IndexMut`
/// along its key path, and writes the document back (`Display`). The contract
/// claims only that the text is `toml_with_bools(raw, edits)`; the `requires`
/// leaves out the documents on which the indexing panics.
#[verifier::external_body]
pub(crate) fn set_toml_bools(raw: &str, edits: &Vec<(Vec<String>, bool)>) -> (r: String)
    requires
        toml_tree(raw@) matches Ok(t) && edits_safe(t, edits_view(edits@)),
    ensures
        r@ == toml_with_bools(raw@, edits_view(edits@)),
{
    match raw.parse::<toml_edit::DocumentMut>() {
        Ok(mut document) => {
            for (path, on) in edits.iter() {
                let mut item = document.as_item_mut();
                for key in path.iter() {
                    item = &mut item[key.as_str()];
                }
                *item = toml_edit::value(*on);
            }
            document.to_string()
        },
        Err(_) => String::new(),
    }
}

} // verus!
