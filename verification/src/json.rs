//! JSON text handled through `serde_json`.

use crate::text::push_str;
use vstd::prelude::*;

verus! {

/// The canonical text (as `serde_json` writes it) of the JSON object that `text` holds,
/// or `None` when `text` is not a JSON object.
pub uninterp spec fn json_object_text(text: Seq<char>) -> Option<Seq<char>>;

/// Parses `text` with `serde_json::from_str` as a JSON object (a map from strings to values) and
/// writes it back with `serde_json`'s `to_string`. The contract says that the result is the
/// named canonical form of `text`; what that form is, is left to `serde_json`.
#[verifier::external_body]
pub(crate) fn parse_json_object(text: &str) -> (r: Option<String>)
    ensures
        match r {
            Some(s) => json_object_text(text@) == Some(s@),
            None => json_object_text(text@) is None,
        },
{
    serde_json::from_str::<serde_json::Map<String, serde_json::Value>>(text).ok().map(
        |m| serde_json::Value::Object(m).to_string(),
    )
}

/// The JSON string literal (quotes and escapes included) that `serde_json` writes for a text.
pub uninterp spec fn json_string_text(s: Seq<char>) -> Seq<char>;

/// Writes a text as a JSON string literal with `serde_json::to_string`, which cannot fail on a
/// `str`. What the literal is, escapes included, is left to `serde_json`.
#[verifier::external_body]
pub(crate) fn json_quote(s: &str) -> (r: String)
    ensures
        r@ == json_string_text(s@),
{
    serde_json::to_string(s).unwrap_or_default()
}

/// A JSON value. A number is held as its JSON text; an object as its entries, in order.
#[derive(Debug)]
pub enum JsonValue {
    Null,
    Bool(bool),
    Number(String),
    String(String),
    Array(Vec<JsonValue>),
    Object(Vec<(String, JsonValue)>),
}

/// The mathematical form of a JSON value: texts by their characters, arrays and objects as
/// sequences.
pub enum JsonData {
    Null,
    Bool(bool),
    Number(Seq<char>),
    Str(Seq<char>),
    Array(Seq<JsonData>),
    Object(Seq<(Seq<char>, JsonData)>),
}

/// The mathematical form of a JSON value.
pub open spec fn json_data(v: JsonValue) -> JsonData
    decreases v,
{
    match v {
        JsonValue::Null => JsonData::Null,
        JsonValue::Bool(b) => JsonData::Bool(b),
        JsonValue::Number(n) => JsonData::Number(n@),
        JsonValue::String(s) => JsonData::Str(s@),
        JsonValue::Array(items) => JsonData::Array(json_data_items(items@, 0)),
        JsonValue::Object(entries) => JsonData::Object(json_data_entries(entries@, 0)),
    }
}

/// The forms of the values of `items` from position `i` on.
pub open spec fn json_data_items(items: Seq<JsonValue>, i: int) -> Seq<JsonData>
    decreases items, items.len() - i,
{
    if 0 <= i < items.len() {
        seq![json_data(items[i])] + json_data_items(items, i + 1)
    } else {
        Seq::empty()
    }
}

/// The forms of the entries of an object from position `i` on.
pub open spec fn json_data_entries(entries: Seq<(String, JsonValue)>, i: int) -> Seq<(Seq<char>, JsonData)>
    decreases entries, entries.len() - i,
{
    if 0 <= i < entries.len() {
        seq![(entries[i].0@, json_data(entries[i].1))] + json_data_entries(entries, i + 1)
    } else {
        Seq::empty()
    }
}

/// The compact JSON text of a value: no whitespace, strings written as `serde_json` writes them,
/// object entries in their order.
pub open spec fn json_text(d: JsonData) -> Seq<char>
    decreases d,
{
    match d {
        JsonData::Null => "null"@,
        JsonData::Bool(b) => if b {
            "true"@
        } else {
            "false"@
        },
        JsonData::Number(n) => n,
        JsonData::Str(s) => json_string_text(s),
        JsonData::Array(items) => "["@ + json_items_text(items, 0) + "]"@,
        JsonData::Object(entries) => "{"@ + json_entries_text(entries, 0) + "}"@,
    }
}

/// The texts of the values of `items` from position `i` on, separated by commas.
pub open spec fn json_items_text(items: Seq<JsonData>, i: int) -> Seq<char>
    decreases items, items.len() - i,
{
    if 0 <= i < items.len() {
        (if i > 0 {
            ","@
        } else {
            Seq::<char>::empty()
        }) + json_text(items[i]) + json_items_text(items, i + 1)
    } else {
        Seq::empty()
    }
}

/// The texts of the entries of an object from position `i` on (`"key":value`), separated by
/// commas.
pub open spec fn json_entries_text(entries: Seq<(Seq<char>, JsonData)>, i: int) -> Seq<char>
    decreases entries, entries.len() - i,
{
    if 0 <= i < entries.len() {
        (if i > 0 {
            ","@
        } else {
            Seq::<char>::empty()
        }) + json_string_text(entries[i].0) + ":"@ + json_text(entries[i].1) + json_entries_text(
            entries,
            i + 1,
        )
    } else {
        Seq::empty()
    }
}

proof fn lemma_data_items_index(items: Seq<JsonValue>, i: int, k: int)
    requires
        0 <= i <= k < items.len(),
    ensures
        json_data_items(items, i).len() == items.len() - i,
        json_data_items(items, i)[k - i] == json_data(items[k]),
    decreases items.len() - i,
{
    if i < k {
        lemma_data_items_index(items, i + 1, k);
    } else {
        lemma_data_items_len(items, i + 1);
    }
}

proof fn lemma_data_items_len(items: Seq<JsonValue>, i: int)
    requires
        0 <= i <= items.len(),
    ensures
        json_data_items(items, i).len() == items.len() - i,
    decreases items.len() - i,
{
    if i < items.len() {
        lemma_data_items_len(items, i + 1);
    }
}

/// The forms of the values of `items`, one for each, in order.
pub proof fn lemma_data_items(items: Seq<JsonValue>)
    ensures
        json_data_items(items, 0).len() == items.len(),
        forall|k: int| 0 <= k < items.len() ==> #[trigger] json_data_items(items, 0)[k] == json_data(items[k]),
{
    lemma_data_items_len(items, 0);
    assert forall|k: int| 0 <= k < items.len() implies #[trigger] json_data_items(items, 0)[k] == json_data(items[k]) by {
        lemma_data_items_index(items, 0, k);
    }
}

proof fn lemma_data_entries_index(entries: Seq<(String, JsonValue)>, i: int, k: int)
    requires
        0 <= i <= k < entries.len(),
    ensures
        json_data_entries(entries, i).len() == entries.len() - i,
        json_data_entries(entries, i)[k - i] == (entries[k].0@, json_data(entries[k].1)),
    decreases entries.len() - i,
{
    if i < k {
        lemma_data_entries_index(entries, i + 1, k);
    } else {
        lemma_data_entries_len(entries, i + 1);
    }
}

proof fn lemma_data_entries_len(entries: Seq<(String, JsonValue)>, i: int)
    requires
        0 <= i <= entries.len(),
    ensures
        json_data_entries(entries, i).len() == entries.len() - i,
    decreases entries.len() - i,
{
    if i < entries.len() {
        lemma_data_entries_len(entries, i + 1);
    }
}

/// The forms of the entries of an object, one for each, in order.
pub proof fn lemma_data_entries(entries: Seq<(String, JsonValue)>)
    ensures
        json_data_entries(entries, 0).len() == entries.len(),
        forall|k: int| 0 <= k < entries.len() ==> #[trigger] json_data_entries(entries, 0)[k] == (
            entries[k].0@,
            json_data(entries[k].1),
        ),
{
    lemma_data_entries_len(entries, 0);
    assert forall|k: int| 0 <= k < entries.len() implies #[trigger] json_data_entries(entries, 0)[k] == (
        entries[k].0@,
        json_data(entries[k].1),
    ) by {
        lemma_data_entries_index(entries, 0, k);
    }
}

/// A copy of a JSON value.
pub fn clone_json(v: &JsonValue) -> (r: JsonValue)
    ensures
        json_data(r) == json_data(*v),
    decreases v,
{
    match v {
        JsonValue::Null => JsonValue::Null,
        JsonValue::Bool(b) => JsonValue::Bool(*b),
        JsonValue::Number(n) => JsonValue::Number(n.clone()),
        JsonValue::String(s) => JsonValue::String(s.clone()),
        JsonValue::Array(items) => {
            let mut out: Vec<JsonValue> = Vec::new();
            for i in 0..items.len()
                invariant
                    out@.len() == i,
                    forall|k: int| 0 <= k < i ==> json_data(#[trigger] out@[k]) == json_data(items@[k]),
                    *v == JsonValue::Array(*items),
            {
                proof {
                    assert(decreases_to!(*v => v->Array_0));
                    assert(decreases_to!(*items => items@));
                    assert(decreases_to!(items@ => items@[i as int]));
                }
                out.push(clone_json(&items[i]));
            }
            proof {
                lemma_data_items(out@);
                lemma_data_items(items@);
                assert(json_data_items(out@, 0) =~= json_data_items(items@, 0));
            }
            JsonValue::Array(out)
        },
        JsonValue::Object(entries) => {
            let mut out: Vec<(String, JsonValue)> = Vec::new();
            for i in 0..entries.len()
                invariant
                    out@.len() == i,
                    forall|k: int|
                        0 <= k < i ==> (#[trigger] out@[k]).0@ == entries@[k].0@ && json_data(out@[k].1)
                            == json_data(entries@[k].1),
                    *v == JsonValue::Object(*entries),
            {
                proof {
                    assert(decreases_to!(*v => v->Object_0));
                    assert(decreases_to!(*entries => entries@));
                    assert(decreases_to!(entries@ => entries@[i as int]));
                    assert(decreases_to!(entries@[i as int] => entries@[i as int].1));
                }
                let value = clone_json(&entries[i].1);
                out.push((entries[i].0.clone(), value));
            }
            proof {
                lemma_data_entries(out@);
                lemma_data_entries(entries@);
                assert(json_data_entries(out@, 0) =~= json_data_entries(entries@, 0));
            }
            JsonValue::Object(out)
        },
    }
}

/// Appends the compact JSON text of a value to `out`.
pub fn write_json(v: &JsonValue, out: &mut String)
    ensures
        final(out)@ == old(out)@ + json_text(json_data(*v)),
    decreases v,
{
    match v {
        JsonValue::Null => push_str(out, "null"),
        JsonValue::Bool(b) => if *b {
            push_str(out, "true")
        } else {
            push_str(out, "false")
        },
        JsonValue::Number(n) => push_str(out, n.as_str()),
        JsonValue::String(t) => {
            let q = json_quote(t.as_str());
            push_str(out, q.as_str());
        },
        JsonValue::Array(items) => {
            proof {
                reveal_strlit("[");
                reveal_strlit("]");
                reveal_strlit(",");
                lemma_data_items(items@);
            }
            let ghost d = json_data_items(items@, 0);
            let ghost base = out@ + "["@;
            push_str(out, "[");
            for i in 0..items.len()
                invariant
                    out@ + json_items_text(d, i as int) == base + json_items_text(d, 0),
                    *v == JsonValue::Array(*items),
                    d == json_data_items(items@, 0),
                    d.len() == items@.len(),
                    forall|k: int| 0 <= k < items@.len() ==> #[trigger] d[k] == json_data(items@[k]),
            {
                let ghost before = out@;
                if i > 0 {
                    push_str(out, ",");
                }
                proof {
                    assert(decreases_to!(*v => v->Array_0));
                    assert(decreases_to!(*items => items@));
                    assert(decreases_to!(items@ => items@[i as int]));
                }
                write_json(&items[i], out);
                assert(d[i as int] == json_data(items@[i as int]));
                assert(out@ + json_items_text(d, i + 1) =~= before + json_items_text(d, i as int));
            }
            push_str(out, "]");
            assert(json_items_text(d, d.len() as int) =~= Seq::<char>::empty());
        },
        JsonValue::Object(entries) => {
            proof {
                reveal_strlit("{");
                reveal_strlit("}");
                assert(decreases_to!(*v => v->Object_0));
            }
            push_str(out, "{");
            write_json_entries(entries, out);
            push_str(out, "}");
        },
    }
}

/// Appends the entries of an object (`"key":value`, separated by commas) to `out`.
pub fn write_json_entries(entries: &Vec<(String, JsonValue)>, out: &mut String)
    ensures
        final(out)@ == old(out)@ + json_entries_text(json_data_entries(entries@, 0), 0),
    decreases entries,
{
    proof {
        reveal_strlit(",");
        reveal_strlit(":");
        lemma_data_entries(entries@);
    }
    let ghost d = json_data_entries(entries@, 0);
    let ghost base = out@;
    for i in 0..entries.len()
        invariant
            out@ + json_entries_text(d, i as int) == base + json_entries_text(d, 0),
            d.len() == entries@.len(),
            forall|k: int| 0 <= k < entries@.len() ==> #[trigger] d[k] == (entries@[k].0@, json_data(entries@[k].1)),
    {
        let ghost before = out@;
        if i > 0 {
            push_str(out, ",");
        }
        let key = json_quote(entries[i].0.as_str());
        push_str(out, key.as_str());
        push_str(out, ":");
        proof {
            assert(decreases_to!(*entries => entries@));
            assert(decreases_to!(entries@ => entries@[i as int]));
            assert(decreases_to!(entries@[i as int] => entries@[i as int].1));
        }
        write_json(&entries[i].1, out);
        assert(d[i as int] == (entries@[i as int].0@, json_data(entries@[i as int].1)));
        assert(out@ + json_entries_text(d, i + 1) =~= before + json_entries_text(d, i as int));
    }
    assert(json_entries_text(d, d.len() as int) =~= Seq::<char>::empty());
}

/// The compact JSON text of a value.
pub fn to_json_text(v: &JsonValue) -> (r: String)
    ensures
        r@ == json_text(json_data(*v)),
{
    let mut out = String::new();
    write_json(v, &mut out);
    assert(out@ =~= json_text(json_data(*v)));
    out
}

} // verus!
