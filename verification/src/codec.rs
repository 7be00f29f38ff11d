//! JSON text, read and written by `serde_json`.
//!
//! The library works on its own trees ([`Json`]). This module carries
//! them to and from `serde_json::Value`, one level at a time, and names
//! what `serde_json` makes of a text and of a value.

use vstd::prelude::*;
use crate::json::{
    distinct_keys, lemma_items_view, lemma_members_view, items_view, members_view, Json,
    JsonModel, Members, Number, NumberModel,
};

verus! {

/// `serde_json::Value`, of which nothing is known but through the
/// functions below.
#[verifier::external_type_specification]
#[verifier::external_body]
pub struct ExValue(serde_json::Value);

/// `serde_json::Error`, which is only turned into its words.
#[verifier::external_type_specification]
#[verifier::external_body]
pub struct ExError(serde_json::Error);

/// The document that a `serde_json::Value` holds: its members in the
/// order in which the value hands them out, a number that is no integer
/// by the text that the value writes for it.
pub uninterp spec fn value_model(v: serde_json::Value) -> JsonModel;

/// What `serde_json::from_str` makes of a text: the document that the
/// value read from it holds, or `None` where the text is not JSON.
pub uninterp spec fn json_text(text: Seq<char>) -> Option<JsonModel>;

/// What `serde_json::Number`'s `from_str` makes of a number's text, as a
/// document: the number read, or `null` where the text is no number.
pub uninterp spec fn number_text(text: Seq<char>) -> JsonModel;

/// The text that `serde_json::to_string_pretty` writes for a value that
/// holds the given document.
pub uninterp spec fn json_pretty(doc: JsonModel) -> Seq<char>;

/// One level of a `serde_json::Value`: what kind it is, with its own
/// content as plain values and its children still as they were.
enum Level {
    Null,
    Bool(bool),
    Number(Number),
    String(String),
    Array(Vec<serde_json::Value>),
    Object(Vec<(String, serde_json::Value)>),
}

/// The documents that a row of values holds.
spec fn value_models(children: Seq<serde_json::Value>) -> Seq<JsonModel> {
    children.map_values(|child: serde_json::Value| value_model(child))
}

/// The members that a row of named values holds.
spec fn member_models(children: Seq<(String, serde_json::Value)>) -> Members {
    children.map_values(|child: (String, serde_json::Value)| (child.0@, value_model(child.1)))
}

impl Level {
    /// The document that the level holds, given what its children hold.
    spec fn model(self) -> JsonModel {
        match self {
            Level::Null => JsonModel::Null,
            Level::Bool(b) => JsonModel::Bool(b),
            Level::Number(n) => JsonModel::Number(n@),
            Level::String(s) => JsonModel::String(s@),
            Level::Array(children) => JsonModel::Array(value_models(children@)),
            Level::Object(children) => JsonModel::Object(member_models(children@)),
        }
    }

    /// A number in its one form, and no name twice among the members.
    spec fn well_formed(self) -> bool {
        match self {
            Level::Number(n) => n@.well_formed(),
            Level::Object(children) => distinct_keys(member_models(children@)),
            _ => true,
        }
    }
}

/// `serde_json::from_str` at `serde_json::Value`. The result is `Err`
/// exactly where `json_text` of the text is `None`, and a value that is
/// read holds the document that `json_text` names.
#[verifier::external_body]
fn value_from_text(text: &str) -> (r: Result<serde_json::Value, serde_json::Error>)
    ensures
        match r {
            Ok(v) => json_text(text@) == Some(value_model(v)),
            Err(_) => json_text(text@) is None,
        },
{
    serde_json::from_str::<serde_json::Value>(text)
}

/// `serde_json::to_string_pretty` on a `serde_json::Value`. Writing a
/// value into memory cannot fail: its keys are strings and its numbers
/// finite. The text is the one that `json_pretty` names for the document
/// that the value holds.
#[verifier::external_body]
fn text_from_value(v: &serde_json::Value) -> (r: Result<String, serde_json::Error>)
    ensures
        r is Ok,
        r matches Ok(text) ==> text@ == json_pretty(value_model(*v)),
{
    serde_json::to_string_pretty(v)
}

/// Takes a `serde_json::Value` apart, one arm for each of its variants.
/// An integer comes out as `as_u64` or, failing that, `as_i64` gives it,
/// so that a `NegInt` is negative; any other number comes out as the
/// text that `to_string` writes for it. The members of an object come
/// out in the order in which the map hands them out, and a map holds no
/// name twice.
#[verifier::external_body]
fn open_value(v: serde_json::Value) -> (level: Level)
    ensures
        level.model() == value_model(v),
        level.well_formed(),
{
    match v {
        serde_json::Value::Null => Level::Null,
        serde_json::Value::Bool(b) => Level::Bool(b),
        serde_json::Value::Number(n) => Level::Number(
            match (n.as_u64(), n.as_i64()) {
                (Some(u), _) => Number::PosInt(u),
                (None, Some(i)) => Number::NegInt(i),
                (None, None) => Number::Float(n.to_string()),
            },
        ),
        serde_json::Value::String(s) => Level::String(s),
        serde_json::Value::Array(children) => Level::Array(children),
        serde_json::Value::Object(children) => Level::Object(children.into_iter().collect()),
    }
}

/// Puts a `serde_json::Value` together, one arm for each kind of level.
/// An integer goes through `From`, which keeps a `u64` as it is and a
/// negative `i64` as it is; a number given by its text is read from the
/// text by `serde_json::Number`'s `from_str`, and is `null` where that
/// fails. Members with distinct names go into the map in their order,
/// which the map keeps: `serde_json` is built with `preserve_order`.
#[verifier::external_body]
fn close_value(level: Level) -> (v: serde_json::Value)
    ensures
        level matches Level::Number(Number::Float(text)) ==> value_model(v) == number_text(text@),
        level.well_formed() && !(level matches Level::Number(Number::Float(_))) ==> value_model(v)
            == level.model(),
{
    match level {
        Level::Null => serde_json::Value::Null,
        Level::Bool(b) => serde_json::Value::Bool(b),
        Level::Number(Number::PosInt(u)) => serde_json::Value::from(u),
        Level::Number(Number::NegInt(i)) => serde_json::Value::from(i),
        Level::Number(Number::Float(text)) => text.parse::<serde_json::Number>().map_or(
            serde_json::Value::Null,
            serde_json::Value::Number,
        ),
        Level::String(s) => serde_json::Value::String(s),
        Level::Array(children) => serde_json::Value::Array(children),
        Level::Object(children) => serde_json::Value::Object(children.into_iter().collect()),
    }
}

/// The tree of a `serde_json::Value`.
fn json_from_value(v: serde_json::Value) -> (doc: Json)
    ensures
        doc@ == value_model(v),
        doc@.well_formed(),
    decreases value_model(v),
{
    match open_value(v) {
        Level::Null => Json::Null,
        Level::Bool(b) => Json::Bool(b),
        Level::Number(n) => Json::Number(n),
        Level::String(s) => Json::String(s),
        Level::Array(children) => {
            let ghost all = children@;
            let mut items: Vec<Json> = Vec::new();
            for child in it: children
                invariant
                    it.seq() == all,
                    value_model(v) == JsonModel::Array(value_models(all)),
                    items@.len() == it.index(),
                    forall|k: int|
                        0 <= k < items@.len() ==> (#[trigger] items@[k])@ == value_model(all[k])
                            && items@[k]@.well_formed(),
            {
                assert(value_model(v)->Array_0[it.index()] == value_model(child));
                let item = json_from_value(child);
                items.push(item);
            }
            proof {
                lemma_items_view(items@);
                assert(items_view(items@) =~= value_models(all));
            }
            Json::Array(items)
        },
        Level::Object(children) => {
            let ghost all = children@;
            let mut members: Vec<(String, Json)> = Vec::new();
            for child in it: children
                invariant
                    it.seq() == all,
                    value_model(v) == JsonModel::Object(member_models(all)),
                    members@.len() == it.index(),
                    forall|k: int|
                        0 <= k < members@.len() ==> (#[trigger] members@[k]).0@ == all[k].0@
                            && members@[k].1@ == value_model(all[k].1)
                            && members@[k].1@.well_formed(),
            {
                assert(value_model(v)->Object_0[it.index()].1 == value_model(child.1));
                let (name, value) = child;
                let member = json_from_value(value);
                members.push((name, member));
            }
            proof {
                lemma_members_view(members@);
                assert(members_view(members@) =~= member_models(all));
            }
            Json::Object(members)
        },
    }
}

/// What a document is once `serde_json` holds it: the same, but for the
/// numbers given by their text, each of which is read anew.
pub open spec fn stored(doc: JsonModel) -> JsonModel
    decreases doc, 0nat,
{
    match doc {
        JsonModel::Number(NumberModel::Float(text)) => number_text(text),
        JsonModel::Array(items) => JsonModel::Array(stored_items(items, items.len())),
        JsonModel::Object(members) => JsonModel::Object(stored_members(members, members.len())),
        _ => doc,
    }
}

/// The first `n` of `items`, each as it is stored.
pub open spec fn stored_items(items: Seq<JsonModel>, n: nat) -> Seq<JsonModel>
    decreases items, n,
{
    if n == 0 || n > items.len() {
        Seq::empty()
    } else {
        stored_items(items, (n - 1) as nat).push(stored(items[n - 1]))
    }
}

/// The first `n` of `members`, each under its name as it is stored.
pub open spec fn stored_members(members: Members, n: nat) -> Members
    decreases members, n,
{
    if n == 0 || n > members.len() {
        Seq::empty()
    } else {
        stored_members(members, (n - 1) as nat).push((members[n - 1].0, stored(members[n - 1].1)))
    }
}

/// `stored_items` goes item by item.
pub proof fn lemma_stored_items(items: Seq<JsonModel>, n: nat)
    requires
        n <= items.len(),
    ensures
        stored_items(items, n).len() == n,
        forall|i: int| 0 <= i < n ==> (#[trigger] stored_items(items, n)[i]) == stored(items[i]),
    decreases n,
{
    if n > 0 {
        lemma_stored_items(items, (n - 1) as nat);
    }
}

/// `stored_members` goes member by member, and keeps the names.
pub proof fn lemma_stored_members(members: Members, n: nat)
    requires
        n <= members.len(),
    ensures
        stored_members(members, n).len() == n,
        forall|i: int|
            0 <= i < n ==> (#[trigger] stored_members(members, n)[i]) == (
                members[i].0,
                stored(members[i].1),
            ),
    decreases n,
{
    if n > 0 {
        lemma_stored_members(members, (n - 1) as nat);
    }
}

/// The `serde_json::Value` of a tree.
fn value_from_json(doc: &Json) -> (v: serde_json::Value)
    requires
        doc@.well_formed(),
    ensures
        value_model(v) == stored(doc@),
    decreases doc,
{
    match doc {
        Json::Null => close_value(Level::Null),
        Json::Bool(b) => close_value(Level::Bool(*b)),
        Json::Number(n) => close_value(Level::Number(n.clone())),
        Json::String(s) => close_value(Level::String(s.clone())),
        Json::Array(items) => {
            let mut children: Vec<serde_json::Value> = Vec::new();
            let mut i: usize = 0;
            proof {
                lemma_items_view(items@);
            }
            while i < items.len()
                invariant
                    0 <= i <= items.len(),
                    doc->Array_0 == *items,
                    doc is Array,
                    doc@.well_formed(),
                    doc@ == JsonModel::Array(items_view(items@)),
                    items_view(items@).len() == items@.len(),
                    forall|k: int|
                        0 <= k < items@.len() ==> (#[trigger] items_view(items@)[k]) == items@[k]@,
                    children@.len() == i,
                    forall|k: int|
                        0 <= k < i ==> value_model(#[trigger] children@[k]) == stored(items@[k]@),
                decreases items.len() - i,
            {
                assert(doc@->Array_0[i as int].well_formed());
                let child = value_from_json(&items[i]);
                children.push(child);
                i += 1;
            }
            proof {
                lemma_stored_items(doc@->Array_0, doc@->Array_0.len());
                assert(value_models(children@) =~= stored_items(
                    doc@->Array_0,
                    doc@->Array_0.len(),
                ));
            }
            close_value(Level::Array(children))
        },
        Json::Object(members) => {
            let mut children: Vec<(String, serde_json::Value)> = Vec::new();
            let mut i: usize = 0;
            proof {
                lemma_members_view(members@);
            }
            while i < members.len()
                invariant
                    0 <= i <= members.len(),
                    doc->Object_0 == *members,
                    doc is Object,
                    doc@.well_formed(),
                    doc@ == JsonModel::Object(members_view(members@)),
                    members_view(members@).len() == members@.len(),
                    forall|k: int|
                        0 <= k < members@.len() ==> (#[trigger] members_view(members@)[k]) == (
                            members@[k].0@,
                            members@[k].1@,
                        ),
                    children@.len() == i,
                    forall|k: int|
                        0 <= k < i ==> (#[trigger] children@[k]).0@ == members@[k].0@
                            && value_model(children@[k].1) == stored(members@[k].1@),
                decreases members.len() - i,
            {
                assert(doc@->Object_0[i as int].1.well_formed());
                let name = members[i].0.clone();
                let child = value_from_json(&members[i].1);
                children.push((name, child));
                i += 1;
            }
            proof {
                lemma_stored_members(doc@->Object_0, doc@->Object_0.len());
                assert(member_models(children@) =~= stored_members(
                    doc@->Object_0,
                    doc@->Object_0.len(),
                ));
            }
            close_value(Level::Object(children))
        },
    }
}

/// Reads a JSON text. The result is `Err`, with `serde_json`'s words for
/// what is wrong, exactly where the text is not JSON.
pub fn parse(text: &str) -> (r: Result<Json, String>)
    ensures
        match r {
            Ok(doc) => json_text(text@) == Some(doc@) && doc@.well_formed(),
            Err(_) => json_text(text@) is None,
        },
{
    match value_from_text(text) {
        Ok(v) => Ok(json_from_value(v)),
        Err(e) => Err(e.to_string()),
    }
}

/// Writes a document as indented JSON text.
pub fn to_pretty(doc: &Json) -> (text: String)
    requires
        doc@.well_formed(),
    ensures
        text@ == json_pretty(stored(doc@)),
{
    let v = value_from_json(doc);
    text_from_value(&v).unwrap()
}

} // verus!
