//! The boundary to `serde_json`: its values are taken apart and put together one level
//! at a time.
use vstd::prelude::*;

use crate::json::{items_view, member_names, members_view, Json, JsonView};
use crate::text::texts;

verus! {

#[verifier::external_type_specification]
#[verifier::external_body]
pub struct ExNumber(serde_json::Number);

/// What distinguishes a JSON number from the others: two numbers have one identity
/// exactly where `serde_json` holds them equal.
pub uninterp spec fn number_id(number: serde_json::Number) -> int;

/// Calls `serde_json::Number::eq`, which tells whether two numbers are equal.
#[verifier::external_body]
pub(crate) fn same_number(left: &serde_json::Number, right: &serde_json::Number) -> (r: bool)
    ensures
        r == (number_id(*left) == number_id(*right)),
{
    left == right
}

/// Calls `serde_json::Number::clone`, which gives an equal number.
#[verifier::external_body]
pub(crate) fn copy_number(number: &serde_json::Number) -> (r: serde_json::Number)
    ensures
        number_id(r) == number_id(*number),
{
    number.clone()
}

#[verifier::external_type_specification]
#[verifier::external_body]
pub struct ExValue(serde_json::Value);

/// What a value of `serde_json` holds.
pub uninterp spec fn value_contents(value: serde_json::Value) -> JsonView;

/// What `serde_json::from_str` reads out of a text; `None` where it fails.
pub uninterp spec fn parsed_json(text: Seq<char>) -> Option<JsonView>;

/// The message of the error with which `serde_json::from_str` refuses a text.
pub uninterp spec fn json_parse_error(text: Seq<char>) -> Seq<char>;

/// The text that `serde_json::to_string_pretty` writes; `None` where it fails.
pub uninterp spec fn pretty_text(value: serde_json::Value) -> Option<Seq<char>>;

/// Whether a text is how a document is written.
pub open spec fn is_pretty_text(text: Seq<char>, json: JsonView) -> bool {
    exists|value: serde_json::Value| #[trigger]
        value_contents(value) == json && pretty_text(value) == Some(text)
}

/// Whether a document can fail to be written.
pub open spec fn pretty_fails(json: JsonView) -> bool {
    exists|value: serde_json::Value| #[trigger]
        value_contents(value) == json && pretty_text(value) is None
}

/// The uppermost level of a value of `serde_json`.
pub enum ValueParts<'a> {
    Null,
    Bool(bool),
    Number(&'a serde_json::Number),
    Str(&'a String),
    Array(&'a Vec<serde_json::Value>),
    Object(Vec<(&'a String, &'a serde_json::Value)>),
}

/// What the uppermost level of a value holds.
pub open spec fn parts_contents(parts: ValueParts) -> JsonView {
    match parts {
        ValueParts::Null => JsonView::Null,
        ValueParts::Bool(b) => JsonView::Bool(b),
        ValueParts::Number(n) => JsonView::Number(number_id(*n)),
        ValueParts::Str(s) => JsonView::Str(s@),
        ValueParts::Array(items) => JsonView::Array(
            items@.map_values(|item: serde_json::Value| value_contents(item)),
        ),
        ValueParts::Object(members) => JsonView::Object(entries_contents(members@)),
    }
}

/// The members of a map of `serde_json`, by name.
pub open spec fn entries_contents(entries: Seq<(&String, &serde_json::Value)>) -> Map<
    Seq<char>,
    JsonView,
>
    decreases entries.len(),
{
    if entries.len() == 0 {
        Map::empty()
    } else {
        entries_contents(entries.drop_first()).insert(entries[0].0@, value_contents(*entries[0].1))
    }
}

/// Tells the variants of `serde_json::Value` apart, and lists the entries of an object
/// by `serde_json::Map::iter`, which goes over each once. The names in a map are
/// distinct.
#[verifier::external_body]
fn take_apart(value: &serde_json::Value) -> (r: ValueParts<'_>)
    ensures
        parts_contents(r) == value_contents(*value),
        r matches ValueParts::Object(members) ==> forall|i: int, j: int|
            0 <= i < j < members@.len() ==> (#[trigger] members@[i]).0@ != (
            #[trigger] members@[j]).0@,
{
    match value {
        serde_json::Value::Null => ValueParts::Null,
        serde_json::Value::Bool(b) => ValueParts::Bool(*b),
        serde_json::Value::Number(n) => ValueParts::Number(n),
        serde_json::Value::String(s) => ValueParts::Str(s),
        serde_json::Value::Array(items) => ValueParts::Array(items),
        serde_json::Value::Object(members) => ValueParts::Object(members.iter().collect()),
    }
}

/// An entry of a map is found in it under its name.
proof fn lemma_entry_found(entries: Seq<(&String, &serde_json::Value)>, i: int)
    requires
        0 <= i < entries.len(),
        forall|a: int, b: int|
            0 <= a < b < entries.len() ==> (#[trigger] entries[a]).0@ != (#[trigger] entries[b]).0@,
    ensures
        entries_contents(entries).contains_key(entries[i].0@),
        entries_contents(entries)[entries[i].0@] == value_contents(*entries[i].1),
    decreases entries.len(),
{
    if i > 0 {
        let rest = entries.drop_first();
        assert forall|a: int, b: int| 0 <= a < b < rest.len() implies (#[trigger] rest[a]).0@ != (
        #[trigger] rest[b]).0@ by {
            assert(rest[a] == entries[a + 1] && rest[b] == entries[b + 1]);
        }
        assert(rest[i - 1] == entries[i]);
        assert(entries[0].0@ != entries[i].0@);
        lemma_entry_found(rest, i - 1);
    }
}

/// Entries and members that agree place by place hold the same object.
proof fn lemma_entries_are_members(
    entries: Seq<(&String, &serde_json::Value)>,
    members: Seq<(String, Json)>,
)
    requires
        entries.len() == members.len(),
        forall|j: int|
            0 <= j < members.len() ==> (#[trigger] members[j]).0@ == entries[j].0@ && members[j].1@
                == value_contents(*entries[j].1),
    ensures
        members_view(members) == entries_contents(entries),
    decreases entries.len(),
{
    if members.len() > 0 {
        assert(members[0].0@ == entries[0].0@);
        let m = members.drop_first();
        let e = entries.drop_first();
        assert forall|j: int| 0 <= j < m.len() implies (#[trigger] m[j]).0@ == e[j].0@ && m[j].1@
            == value_contents(*e[j].1) by {
            assert(m[j] == members[j + 1]);
        }
        lemma_entries_are_members(e, m);
    }
}

/// The document that a value of `serde_json` holds.
pub fn from_value(value: &serde_json::Value) -> (r: Json)
    ensures
        r@ == value_contents(*value),
    decreases value_contents(*value),
{
    match take_apart(value) {
        ValueParts::Null => Json::Null,
        ValueParts::Bool(b) => Json::Bool(b),
        ValueParts::Number(n) => Json::Number(copy_number(n)),
        ValueParts::Str(s) => Json::Str(s.clone()),
        ValueParts::Array(values) => {
            let mut items: Vec<Json> = Vec::new();
            let mut i: usize = 0;
            while i < values.len()
                invariant
                    i <= values.len(),
                    items.len() == i,
                    value_contents(*value) == JsonView::Array(
                        values@.map_values(|item: serde_json::Value| value_contents(item)),
                    ),
                    forall|j: int|
                        0 <= j < i ==> (#[trigger] items@[j])@ == value_contents(values@[j]),
                decreases values.len() - i,
            {
                assert(decreases_to!(value_contents(*value) => value_contents(*value)->Array_0));
                assert(value_contents(*value)->Array_0[i as int] == value_contents(
                    values@[i as int],
                ));
                assert(decreases_to!(value_contents(*value)->Array_0 => value_contents(*value)->Array_0[i as int]));
                items.push(from_value(&values[i]));
                i += 1;
            }
            assert(items_view(items@) =~= value_contents(*value)->Array_0);
            Json::Array(items)
        },
        ValueParts::Object(entries) => {
            let mut members: Vec<(String, Json)> = Vec::new();
            let mut i: usize = 0;
            while i < entries.len()
                invariant
                    i <= entries.len(),
                    members.len() == i,
                    value_contents(*value) == JsonView::Object(entries_contents(entries@)),
                    forall|a: int, b: int|
                        0 <= a < b < entries@.len() ==> (#[trigger] entries@[a]).0@ != (
                        #[trigger] entries@[b]).0@,
                    forall|j: int|
                        0 <= j < i ==> (#[trigger] members@[j]).0@ == entries@[j].0@
                            && members@[j].1@ == value_contents(*entries@[j].1),
                decreases entries.len() - i,
            {
                proof {
                    lemma_entry_found(entries@, i as int);
                    let key = entries@[i as int].0@;
                    assert(value_contents(*value)->Object_0.contains_key(key));
                    assert(decreases_to!(value_contents(*value) => value_contents(*value)->Object_0[key]));
                }
                members.push((entries[i].0.clone(), from_value(entries[i].1)));
                i += 1;
            }
            proof {
                lemma_entries_are_members(entries@, members@);
            }
            Json::Object(members)
        },
    }
}

/// Reads a JSON document by `serde_json::from_str`. What it reads, and whether and how
/// it fails, depends on the text alone.
#[verifier::external_body]
fn read_value(text: &str) -> (r: Result<serde_json::Value, String>)
    ensures
        match r {
            Ok(value) => parsed_json(text@) == Some(value_contents(value)),
            Err(message) => parsed_json(text@) is None && message@ == json_parse_error(text@),
        },
{
    serde_json::from_str(text).map_err(|e: serde_json::Error| e.to_string())
}

/// Reads a JSON document; fails with the message of the reader.
pub fn parse_json(text: &str) -> (r: Result<Json, String>)
    ensures
        match r {
            Ok(json) => parsed_json(text@) == Some(json@),
            Err(message) => parsed_json(text@) is None && message@ == json_parse_error(text@),
        },
{
    match read_value(text) {
        Ok(value) => Ok(from_value(&value)),
        Err(message) => Err(message),
    }
}

/// Puts the variants of `serde_json::Value` together.
#[verifier::external_body]
fn put_together(parts: Parts) -> (r: serde_json::Value)
    requires
        parts matches Parts::Object(members) ==> forall|i: int, j: int|
            0 <= i < j < members@.len() ==> (#[trigger] members@[i]).0@ != (
            #[trigger] members@[j]).0@,
    ensures
        value_contents(r) == owned_contents(parts),
{
    match parts {
        Parts::Null => serde_json::Value::Null,
        Parts::Bool(b) => serde_json::Value::Bool(b),
        Parts::Number(n) => serde_json::Value::Number(n),
        Parts::Str(s) => serde_json::Value::String(s),
        Parts::Array(items) => serde_json::Value::Array(items),
        Parts::Object(members) => serde_json::Value::Object(members.into_iter().collect()),
    }
}

/// The uppermost level of a value of `serde_json` that is to be made.
pub enum Parts {
    Null,
    Bool(bool),
    Number(serde_json::Number),
    Str(String),
    Array(Vec<serde_json::Value>),
    Object(Vec<(String, serde_json::Value)>),
}

/// What a value made of these parts holds.
pub open spec fn owned_contents(parts: Parts) -> JsonView {
    match parts {
        Parts::Null => JsonView::Null,
        Parts::Bool(b) => JsonView::Bool(b),
        Parts::Number(n) => JsonView::Number(number_id(n)),
        Parts::Str(s) => JsonView::Str(s@),
        Parts::Array(items) => JsonView::Array(
            items@.map_values(|item: serde_json::Value| value_contents(item)),
        ),
        Parts::Object(members) => JsonView::Object(
            Map::new(
                |key: Seq<char>| exists|i: int| 0 <= i < members@.len() && (#[trigger] members@[i]).0@ == key,
                |key: Seq<char>| {
                    let i = choose|i: int| 0 <= i < members@.len() && (#[trigger] members@[i]).0@ == key;
                    value_contents(members@[i].1)
                },
            ),
        ),
    }
}

/// The value of `serde_json` that holds this document.
pub fn to_value(json: &Json) -> (r: serde_json::Value)
    ensures
        value_contents(r) == json@,
    decreases json@,
{
    match json {
        Json::Null => put_together(Parts::Null),
        Json::Bool(b) => put_together(Parts::Bool(*b)),
        Json::Number(n) => put_together(Parts::Number(copy_number(n))),
        Json::Str(s) => put_together(Parts::Str(s.clone())),
        Json::Array(items) => {
            let mut values: Vec<serde_json::Value> = Vec::new();
            let mut i: usize = 0;
            while i < items.len()
                invariant
                    i <= items.len(),
                    values.len() == i,
                    json@ == JsonView::Array(items_view(items@)),
                    forall|j: int|
                        0 <= j < i ==> value_contents(#[trigger] values@[j]) == items@[j]@,
                decreases items.len() - i,
            {
                assert(decreases_to!(json@ => json@->Array_0));
                assert(decreases_to!(json@->Array_0 => json@->Array_0[i as int]));
                values.push(to_value(&items[i]));
                i += 1;
            }
            assert(values@.map_values(|item: serde_json::Value| value_contents(item))
                =~= items_view(items@));
            put_together(Parts::Array(values))
        },
        Json::Object(members) => {
            let names = member_names(members);
            let mut entries: Vec<(String, serde_json::Value)> = Vec::new();
            let mut i: usize = 0;
            while i < names.len()
                invariant
                    i <= names.len(),
                    entries.len() == i,
                    json@ == JsonView::Object(members_view(members@)),
                    texts(names@).to_set() == members_view(members@).dom(),
                    forall|j: int|
                        0 <= j < i ==> (#[trigger] entries@[j]).0@ == texts(names@)[j]
                            && value_contents(entries@[j].1) == members_view(
                            members@,
                        )[texts(names@)[j]],
                decreases names.len() - i,
            {
                let name = names[i].as_str();
                let ghost key = texts(names@)[i as int];
                proof {
                    assert(texts(names@).to_set().contains(key));
                    assert(json@->Object_0.contains_key(key));
                    assert(decreases_to!(json@ => json@->Object_0[key]));
                }
                if let Some(member) = json.get(name) {
                    entries.push((names[i].clone(), to_value(member)));
                }
                i += 1;
            }
            proof {
                assert forall|a: int, b: int| 0 <= a < b < entries@.len() implies (
                #[trigger] entries@[a]).0@ != (#[trigger] entries@[b]).0@ by {
                    assert(texts(names@)[a] != texts(names@)[b]);
                }
                let made = owned_contents(Parts::Object(entries))->Object_0;
                let wanted = members_view(members@);
                assert forall|key: Seq<char>| #[trigger] made.contains_key(key)
                    <==> wanted.contains_key(key) by {
                    assert(wanted.contains_key(key) <==> texts(names@).to_set().contains(key));
                    if wanted.contains_key(key) {
                        let j = choose|j: int|
                            0 <= j < texts(names@).len() && texts(names@)[j] == key;
                        assert(entries@[j].0@ == key);
                    }
                    if made.contains_key(key) {
                        let j = choose|j: int|
                            0 <= j < entries@.len() && (#[trigger] entries@[j]).0@ == key;
                        assert(texts(names@)[j] == key);
                    }
                }
                assert forall|key: Seq<char>| made.contains_key(key) implies #[trigger] made[key]
                    == wanted[key] by {
                    let j = choose|j: int|
                        0 <= j < entries@.len() && (#[trigger] entries@[j]).0@ == key;
                    assert(texts(names@)[j] == key);
                }
                assert(made =~= wanted);
            }
            put_together(Parts::Object(entries))
        },
    }
}

/// Writes a value by `serde_json::to_string_pretty`. What it writes, and whether it
/// fails, depends on the value alone.
#[verifier::external_body]
fn write_value(value: &serde_json::Value) -> (r: Result<String, String>)
    ensures
        match r {
            Ok(text) => pretty_text(*value) == Some(text@),
            Err(_) => pretty_text(*value) is None,
        },
{
    serde_json::to_string_pretty(value).map_err(|e: serde_json::Error| e.to_string())
}

/// Writes a document, indented.
pub fn write_json(json: &Json) -> (r: Result<String, String>)
    ensures
        match r {
            Ok(text) => is_pretty_text(text@, json@),
            Err(_) => pretty_fails(json@),
        },
{
    let value = to_value(json);
    write_value(&value)
}

} // verus!
