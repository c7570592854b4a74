//! A tool that sends HTTP requests built from templates: the URL, query parameters, headers and
//! JSON body take the values of the tool call's parameters.

use crate::json::{
    clone_json, json_data, json_data_entries, json_data_items, json_text, lemma_data_entries,
    lemma_data_items, to_json_text, JsonData, JsonValue,
};
use crate::text::{chars_of, push_str};
use crate::tools::tool_core::{param_position, get_param, ToolError, ToolJsonSchema, ToolParameters, ToolResult};
use crate::tools::utils::http_request_builder::{
    contains_char, header_outcome, headers_view, percent_encoded, url_encode, HttpRequestBuilder,
};
use crate::tools::utils::{meta_validation, schema_json_text, schema_text, validate_json_schema};
use vstd::prelude::*;
use vstd::utf8::encode_utf8;

verus! {

/// What `subst::substitute` gives for a template and variables (names and values, a later pair
/// replacing an earlier one of the same name): the expanded text, or the message of its error.
pub uninterp spec fn substitution(template: Seq<char>, vars: Seq<(Seq<char>, Seq<char>)>) -> Result<
    Seq<char>,
    Seq<char>,
>;

/// Expands `$name`, `${name}` and `${name:default}` in a template with `subst::substitute`, the
/// variables being put in a `BTreeMap` in order. The result is named; the template language is
/// left to `subst`.
#[verifier::external_body]
pub(crate) fn substitute(template: &str, vars: &Vec<(String, String)>) -> (r: Result<String, String>)
    ensures
        match r {
            Ok(s) => substitution(template@, headers_view(vars@)) == Ok::<Seq<char>, Seq<char>>(s@),
            Err(e) => substitution(template@, headers_view(vars@)) == Err::<Seq<char>, Seq<char>>(e@),
        },
{
    let map: std::collections::BTreeMap<&str, &str> = vars.iter().map(|(k, v)| (k.as_str(), v.as_str())).collect();
    subst::substitute(template, &map).map_err(|e| e.to_string())
}

/// Whether a character is alphanumeric, by `char::is_alphanumeric` (Unicode's `Alphabetic`
/// property, or a numeric general category).
pub uninterp spec fn alphanumeric(c: char) -> bool;

/// Whether a character is an ASCII letter or digit.
pub open spec fn is_ascii_alnum(c: char) -> bool {
    ('a' <= c && c <= 'z') || ('A' <= c && c <= 'Z') || ('0' <= c && c <= '9')
}

/// Whether a character is alphanumeric by `char::is_alphanumeric`: among ASCII characters
/// exactly the letters and digits; past ASCII, by Unicode's tables.
pub open spec fn is_alnum(c: char) -> bool {
    if (c as u32) < 128 {
        is_ascii_alnum(c)
    } else {
        alphanumeric(c)
    }
}

/// Tests a character with `char::is_alphanumeric`. The result is named; std documents it as
/// `is_alphabetic() || is_numeric()`, which among ASCII characters holds of exactly the letters
/// and digits. Past ASCII the Unicode tables are left to std.
#[verifier::external_body]
pub(crate) fn is_alphanumeric(c: char) -> (r: bool)
    ensures
        r == alphanumeric(c),
        (c as u32) < 128 ==> (r == is_ascii_alnum(c)),
{
    c.is_alphanumeric()
}

/// Configuration for the HTTP request tool. Query parameters and headers are names with value
/// templates; the body is a JSON template.
#[derive(Debug)]
pub struct HttpRequestConfig {
    pub input_schema: ToolJsonSchema,
    pub url: String,
    pub method: String,
    pub query: Option<Vec<(String, String)>>,
    pub body: Option<JsonValue>,
    pub headers: Option<Vec<(String, String)>>,
}

/// The public part of an HTTP request configuration.
#[derive(Debug)]
pub struct HttpRequestConfigPublic {
    pub url: String,
    pub method: String,
}

impl HttpRequestConfig {
    /// Check the configured input schema (which is closed to additional properties first).
    pub fn validate(&mut self) -> (r: ToolResult<()>)
        ensures
            final(self).url == old(self).url,
            final(self).method == old(self).method,
            final(self).query == old(self).query,
            final(self).body == old(self).body,
            final(self).headers == old(self).headers,
            final(self).input_schema.schema_type == old(self).input_schema.schema_type,
            final(self).input_schema.additional_properties == Some(false),
            final(self).input_schema.properties == old(self).input_schema.properties,
            final(self).input_schema.required == old(self).input_schema.required,
            match meta_validation(schema_json_text(final(self).input_schema)) {
                Ok(()) => r is Ok,
                Err(m) => r matches Err(ToolError::InvalidJsonSchema(msg)) && msg@ == m,
            },
    {
        validate_json_schema(&mut self.input_schema)
    }

    /// The JSON text of the input schema.
    pub fn get_input_schema(&self) -> (r: String)
        ensures
            r@ == schema_json_text(self.input_schema),
    {
        schema_text(&self.input_schema)
    }
}

/// The text that a parameter value gives to templates: a string's content, a number's or boolean's
/// text, and the JSON text of other values.
pub open spec fn variable_text(d: JsonData) -> Seq<char> {
    match d {
        JsonData::Str(s) => s,
        JsonData::Number(n) => n,
        JsonData::Bool(b) => if b {
            "true"@
        } else {
            "false"@
        },
        _ => json_text(d),
    }
}

/// The template variables of the parameters: each name with the text of its value.
pub open spec fn parameter_variables(params: Seq<(String, JsonValue)>) -> Seq<(Seq<char>, Seq<char>)> {
    params.map_values(|p: (String, JsonValue)| (p.0@, variable_text(json_data(p.1))))
}

fn variable_value(v: &JsonValue) -> (r: String)
    ensures
        r@ == variable_text(json_data(*v)),
{
    match v {
        JsonValue::String(s) => s.clone(),
        JsonValue::Number(n) => n.clone(),
        JsonValue::Bool(b) => if *b {
            "true".to_string()
        } else {
            "false".to_string()
        },
        _ => to_json_text(v),
    }
}

/// The template variables of the parameters.
pub fn parameter_map(params: &ToolParameters) -> (r: Vec<(String, String)>)
    ensures
        headers_view(r@) == parameter_variables(params@),
{
    let mut out: Vec<(String, String)> = Vec::new();
    for i in 0..params.len()
        invariant
            headers_view(out@) == parameter_variables(params@.take(i as int)),
    {
        let ghost before = out@;
        out.push((params[i].0.clone(), variable_value(&params[i].1)));
        assert(params@.take(i + 1) =~= params@.take(i as int).push(params@[i as int]));
        assert(headers_view(out@) =~= headers_view(before).push((params@[i as int].0@, variable_text(json_data(params@[i as int].1)))));
        assert(parameter_variables(params@.take(i + 1)) =~= parameter_variables(params@.take(i as int)).push((params@[i as int].0@, variable_text(json_data(params@[i as int].1)))));
    }
    assert(params@.take(params@.len() as int) =~= params@);
    out
}

/// The name of the parameter that a string template stands for whole: a `$` followed only by
/// alphanumeric characters and underscores.
pub open spec fn injection_name(s: Seq<char>) -> Option<Seq<char>> {
    if s.len() > 0 && s[0] == '$' && forall|i: int| 1 <= i < s.len() ==> (is_alnum(#[trigger] s[i]) || s[i] == '_') {
        Some(s.skip(1))
    } else {
        None
    }
}

/// The value of the named parameter, or null when there is none.
pub open spec fn param_data(params: Seq<(String, JsonValue)>, name: Seq<char>) -> JsonData {
    match param_position(params, name) {
        Some(i) => json_data(params[i].1),
        None => JsonData::Null,
    }
}

/// A body template with parameters injected: a string that stands for a parameter whole is
/// replaced by the parameter's value (null when it is missing); objects and arrays are injected
/// throughout; other values are kept.
pub open spec fn injected(t: JsonData, params: Seq<(String, JsonValue)>) -> JsonData
    decreases t,
{
    match t {
        JsonData::Object(entries) => JsonData::Object(injected_entries(entries, params, 0)),
        JsonData::Array(items) => JsonData::Array(injected_items(items, params, 0)),
        JsonData::Str(s) => match injection_name(s) {
            Some(name) => param_data(params, name),
            None => t,
        },
        _ => t,
    }
}

pub open spec fn injected_items(items: Seq<JsonData>, params: Seq<(String, JsonValue)>, i: int) -> Seq<JsonData>
    decreases items, items.len() - i,
{
    if 0 <= i < items.len() {
        seq![injected(items[i], params)] + injected_items(items, params, i + 1)
    } else {
        Seq::empty()
    }
}

pub open spec fn injected_entries(entries: Seq<(Seq<char>, JsonData)>, params: Seq<(String, JsonValue)>, i: int) -> Seq<
    (Seq<char>, JsonData),
>
    decreases entries, entries.len() - i,
{
    if 0 <= i < entries.len() {
        seq![(entries[i].0, injected(entries[i].1, params))] + injected_entries(entries, params, i + 1)
    } else {
        Seq::empty()
    }
}

/// A value with every string expanded as a template, in order; the first failure is the result.
pub open spec fn substituted_strings(d: JsonData, vars: Seq<(Seq<char>, Seq<char>)>) -> Result<JsonData, Seq<char>>
    decreases d,
{
    match d {
        JsonData::Str(s) => match substitution(s, vars) {
            Ok(t) => Ok(JsonData::Str(t)),
            Err(e) => Err(e),
        },
        JsonData::Array(items) => match substituted_items(items, vars, 0) {
            Ok(xs) => Ok(JsonData::Array(xs)),
            Err(e) => Err(e),
        },
        JsonData::Object(entries) => match substituted_entries(entries, vars, 0) {
            Ok(xs) => Ok(JsonData::Object(xs)),
            Err(e) => Err(e),
        },
        _ => Ok(d),
    }
}

pub open spec fn substituted_items(items: Seq<JsonData>, vars: Seq<(Seq<char>, Seq<char>)>, i: int) -> Result<
    Seq<JsonData>,
    Seq<char>,
>
    decreases items, items.len() - i,
{
    if 0 <= i < items.len() {
        match substituted_strings(items[i], vars) {
            Ok(x) => match substituted_items(items, vars, i + 1) {
                Ok(rest) => Ok(seq![x] + rest),
                Err(e) => Err(e),
            },
            Err(e) => Err(e),
        }
    } else {
        Ok(Seq::empty())
    }
}

pub open spec fn substituted_entries(
    entries: Seq<(Seq<char>, JsonData)>,
    vars: Seq<(Seq<char>, Seq<char>)>,
    i: int,
) -> Result<Seq<(Seq<char>, JsonData)>, Seq<char>>
    decreases entries, entries.len() - i,
{
    if 0 <= i < entries.len() {
        match substituted_strings(entries[i].1, vars) {
            Ok(x) => match substituted_entries(entries, vars, i + 1) {
                Ok(rest) => Ok(seq![(entries[i].0, x)] + rest),
                Err(e) => Err(e),
            },
            Err(e) => Err(e),
        }
    } else {
        Ok(Seq::empty())
    }
}

proof fn lemma_injected_items(items: Seq<JsonData>, params: Seq<(String, JsonValue)>, i: int)
    requires
        0 <= i <= items.len(),
    ensures
        injected_items(items, params, i).len() == items.len() - i,
        forall|k: int| i <= k < items.len() ==> #[trigger] injected_items(items, params, i)[k - i] == injected(items[k], params),
    decreases items.len() - i,
{
    if i < items.len() {
        lemma_injected_items(items, params, i + 1);
        assert forall|k: int| i <= k < items.len() implies #[trigger] injected_items(items, params, i)[k - i] == injected(items[k], params) by {
            if k > i {
                assert(injected_items(items, params, i)[k - i] == injected_items(items, params, i + 1)[k - (i + 1)]);
            }
        }
    }
}

proof fn lemma_injected_entries(entries: Seq<(Seq<char>, JsonData)>, params: Seq<(String, JsonValue)>, i: int)
    requires
        0 <= i <= entries.len(),
    ensures
        injected_entries(entries, params, i).len() == entries.len() - i,
        forall|k: int| i <= k < entries.len() ==> #[trigger] injected_entries(entries, params, i)[k - i] == (
            entries[k].0,
            injected(entries[k].1, params),
        ),
    decreases entries.len() - i,
{
    if i < entries.len() {
        lemma_injected_entries(entries, params, i + 1);
        assert forall|k: int| i <= k < entries.len() implies #[trigger] injected_entries(entries, params, i)[k - i] == (
            entries[k].0,
            injected(entries[k].1, params),
        ) by {
            if k > i {
                assert(injected_entries(entries, params, i)[k - i] == injected_entries(entries, params, i + 1)[k - (i + 1)]);
            }
        }
    }
}

/// The parameter name that a string stands for whole, if it does.
fn injection_target(s: &str) -> (r: Option<String>)
    ensures
        match injection_name(s@) {
            Some(n) => r matches Some(t) && t@ == n,
            None => r is None,
        },
{
    let cs = chars_of(s);
    if cs.len() == 0 || cs[0] != '$' {
        return None;
    }
    let mut name = String::new();
    let mut i: usize = 1;
    while i < cs.len()
        invariant
            cs@ == s@,
            1 <= i <= cs@.len(),
            cs@.len() > 0 && cs@[0] == '$',
            forall|j: int| 1 <= j < i ==> (is_alnum(#[trigger] cs@[j]) || cs@[j] == '_'),
            name@ == s@.subrange(1, i as int),
        decreases cs@.len() - i,
    {
        let c = cs[i];
        if !(is_alphanumeric(c) || c == '_') {
            return None;
        }
        crate::text::push_char(&mut name, c);
        assert(s@.subrange(1, i as int).push(c) =~= s@.subrange(1, i + 1));
        i += 1;
    }
    assert(s@.subrange(1, cs@.len() as int) =~= s@.skip(1));
    Some(name)
}

/// Inject the parameters into a body template: a string that stands for a parameter whole (`$name`)
/// is replaced by the parameter's value, or null when there is no such parameter.
pub fn apply_direct_injection(template: &JsonValue, parameters: &ToolParameters) -> (r: ToolResult<JsonValue>)
    ensures
        r matches Ok(v) && json_data(v) == injected(json_data(*template), parameters@),
    decreases template,
{
    match template {
        JsonValue::Object(entries) => {
            let mut out: Vec<(String, JsonValue)> = Vec::new();
            for i in 0..entries.len()
                invariant
                    out@.len() == i,
                    forall|k: int|
                        0 <= k < i ==> (#[trigger] out@[k]).0@ == entries@[k].0@ && json_data(out@[k].1)
                            == injected(json_data(entries@[k].1), parameters@),
                    *template == JsonValue::Object(*entries),
            {
                proof {
                    assert(decreases_to!(*template => template->Object_0));
                    assert(decreases_to!(*entries => entries@));
                    assert(decreases_to!(entries@ => entries@[i as int]));
                    assert(decreases_to!(entries@[i as int] => entries@[i as int].1));
                }
                let value = match apply_direct_injection(&entries[i].1, parameters) {
                    Ok(v) => v,
                    Err(e) => return Err(e),
                };
                out.push((entries[i].0.clone(), value));
            }
            proof {
                lemma_data_entries(out@);
                lemma_data_entries(entries@);
                let de = json_data_entries(entries@, 0);
                lemma_injected_entries(de, parameters@, 0);
                assert forall|k: int| 0 <= k < out@.len() implies json_data_entries(out@, 0)[k] == injected_entries(de, parameters@, 0)[k] by {
                    assert(injected_entries(de, parameters@, 0)[k - 0] == (de[k].0, injected(de[k].1, parameters@)));
                }
                assert(json_data_entries(out@, 0) =~= injected_entries(de, parameters@, 0));
            }
            Ok(JsonValue::Object(out))
        },
        JsonValue::Array(items) => {
            let mut out: Vec<JsonValue> = Vec::new();
            for i in 0..items.len()
                invariant
                    out@.len() == i,
                    forall|k: int|
                        0 <= k < i ==> json_data(#[trigger] out@[k]) == injected(json_data(items@[k]), parameters@),
                    *template == JsonValue::Array(*items),
            {
                proof {
                    assert(decreases_to!(*template => template->Array_0));
                    assert(decreases_to!(*items => items@));
                    assert(decreases_to!(items@ => items@[i as int]));
                }
                let value = match apply_direct_injection(&items[i], parameters) {
                    Ok(v) => v,
                    Err(e) => return Err(e),
                };
                out.push(value);
            }
            proof {
                lemma_data_items(out@);
                lemma_data_items(items@);
                let di = json_data_items(items@, 0);
                lemma_injected_items(di, parameters@, 0);
                assert forall|k: int| 0 <= k < out@.len() implies json_data_items(out@, 0)[k] == injected_items(di, parameters@, 0)[k] by {
                    assert(injected_items(di, parameters@, 0)[k - 0] == injected(di[k], parameters@));
                }
                assert(json_data_items(out@, 0) =~= injected_items(di, parameters@, 0));
            }
            Ok(JsonValue::Array(out))
        },
        JsonValue::String(s) => match injection_target(s.as_str()) {
            Some(name) => match get_param(parameters, name.as_str()) {
                Some(v) => Ok(clone_json(v)),
                None => Ok(JsonValue::Null),
            },
            None => Ok(JsonValue::String(s.clone())),
        },
        _ => Ok(clone_json(template)),
    }
}

proof fn lemma_substituted_items_prefix(items: Seq<JsonData>, vars: Seq<(Seq<char>, Seq<char>)>, j: int, i: int)
    requires
        0 <= j <= i <= items.len(),
        forall|k: int| j <= k < i ==> #[trigger] substituted_strings(items[k], vars) is Ok,
    ensures
        substituted_items(items, vars, j) == match substituted_items(items, vars, i) {
            Ok(rest) => Ok(Seq::new((i - j) as nat, |k: int| substituted_strings(items[j + k], vars)->Ok_0) + rest),
            Err(e) => Err::<Seq<JsonData>, Seq<char>>(e),
        },
    decreases i - j,
{
    if j < i {
        lemma_substituted_items_prefix(items, vars, j + 1, i);
        assert(substituted_strings(items[j], vars) is Ok);
        match substituted_items(items, vars, i) {
            Ok(rest) => {
                let x = substituted_strings(items[j], vars)->Ok_0;
                assert(seq![x] + (Seq::new((i - (j + 1)) as nat, |k: int| substituted_strings(items[j + 1 + k], vars)->Ok_0) + rest)
                    =~= Seq::new((i - j) as nat, |k: int| substituted_strings(items[j + k], vars)->Ok_0) + rest);
            },
            Err(e) => {},
        }
    } else {
        match substituted_items(items, vars, i) {
            Ok(rest) => {
                assert(Seq::new(0, |k: int| substituted_strings(items[j + k], vars)->Ok_0) + rest =~= rest);
            },
            Err(e) => {},
        }
    }
}

proof fn lemma_substituted_entries_prefix(entries: Seq<(Seq<char>, JsonData)>, vars: Seq<(Seq<char>, Seq<char>)>, j: int, i: int)
    requires
        0 <= j <= i <= entries.len(),
        forall|k: int| j <= k < i ==> #[trigger] substituted_strings(entries[k].1, vars) is Ok,
    ensures
        substituted_entries(entries, vars, j) == match substituted_entries(entries, vars, i) {
            Ok(rest) => Ok(Seq::new((i - j) as nat, |k: int| (entries[j + k].0, substituted_strings(entries[j + k].1, vars)->Ok_0)) + rest),
            Err(e) => Err::<Seq<(Seq<char>, JsonData)>, Seq<char>>(e),
        },
    decreases i - j,
{
    if j < i {
        lemma_substituted_entries_prefix(entries, vars, j + 1, i);
        assert(substituted_strings(entries[j].1, vars) is Ok);
        match substituted_entries(entries, vars, i) {
            Ok(rest) => {
                let x = (entries[j].0, substituted_strings(entries[j].1, vars)->Ok_0);
                assert(seq![x] + (Seq::new((i - (j + 1)) as nat, |k: int| (entries[j + 1 + k].0, substituted_strings(entries[j + 1 + k].1, vars)->Ok_0)) + rest)
                    =~= Seq::new((i - j) as nat, |k: int| (entries[j + k].0, substituted_strings(entries[j + k].1, vars)->Ok_0)) + rest);
            },
            Err(e) => {},
        }
    } else {
        match substituted_entries(entries, vars, i) {
            Ok(rest) => {
                assert(Seq::new(0, |k: int| (entries[j + k].0, substituted_strings(entries[j + k].1, vars)->Ok_0)) + rest =~= rest);
            },
            Err(e) => {},
        }
    }
}

/// Expand every string of a JSON value as a template, in order (as
/// `subst::json::substitute_string_values` does); the first failure is the result.
pub fn substitute_json_strings(v: &JsonValue, vars: &Vec<(String, String)>) -> (r: Result<JsonValue, String>)
    ensures
        match r {
            Ok(x) => substituted_strings(json_data(*v), headers_view(vars@)) == Ok::<JsonData, Seq<char>>(json_data(x)),
            Err(e) => substituted_strings(json_data(*v), headers_view(vars@)) == Err::<JsonData, Seq<char>>(e@),
        },
    decreases v,
{
    let ghost vs = headers_view(vars@);
    match v {
        JsonValue::String(s) => match substitute(s.as_str(), vars) {
            Ok(t) => Ok(JsonValue::String(t)),
            Err(e) => Err(e),
        },
        JsonValue::Array(items) => {
            let ghost d = json_data_items(items@, 0);
            proof {
                lemma_data_items(items@);
            }
            let mut out: Vec<JsonValue> = Vec::new();
            for i in 0..items.len()
                invariant
                    out@.len() == i,
                    d == json_data_items(items@, 0),
                    d.len() == items@.len(),
                    forall|k: int| 0 <= k < items@.len() ==> #[trigger] d[k] == json_data(items@[k]),
                    forall|k: int| 0 <= k < i ==> #[trigger] substituted_strings(d[k], vs) is Ok,
                    forall|k: int| 0 <= k < i ==> json_data(#[trigger] out@[k]) == substituted_strings(d[k], vs)->Ok_0,
                    *v == JsonValue::Array(*items),
                    vs == headers_view(vars@),
            {
                proof {
                    assert(decreases_to!(*v => v->Array_0));
                    assert(decreases_to!(*items => items@));
                    assert(decreases_to!(items@ => items@[i as int]));
                }
                match substitute_json_strings(&items[i], vars) {
                    Ok(x) => {
                        out.push(x);
                        assert(substituted_strings(d[i as int], vs) is Ok);
                    },
                    Err(e) => {
                        proof {
                            lemma_substituted_items_prefix(d, vs, 0, i as int);
                        }
                        return Err(e);
                    },
                }
            }
            proof {
                lemma_substituted_items_prefix(d, vs, 0, d.len() as int);
                lemma_data_items(out@);
                assert(json_data_items(out@, 0) =~= Seq::new(d.len(), |k: int| substituted_strings(d[0 + k], vs)->Ok_0) + Seq::<JsonData>::empty());
            }
            Ok(JsonValue::Array(out))
        },
        JsonValue::Object(entries) => {
            let ghost d = json_data_entries(entries@, 0);
            proof {
                lemma_data_entries(entries@);
            }
            let mut out: Vec<(String, JsonValue)> = Vec::new();
            for i in 0..entries.len()
                invariant
                    out@.len() == i,
                    d == json_data_entries(entries@, 0),
                    d.len() == entries@.len(),
                    forall|k: int| 0 <= k < entries@.len() ==> #[trigger] d[k] == (entries@[k].0@, json_data(entries@[k].1)),
                    forall|k: int| 0 <= k < i ==> #[trigger] substituted_strings(d[k].1, vs) is Ok,
                    forall|k: int| 0 <= k < i ==> (#[trigger] out@[k]).0@ == d[k].0 && json_data(out@[k].1) == substituted_strings(d[k].1, vs)->Ok_0,
                    *v == JsonValue::Object(*entries),
                    vs == headers_view(vars@),
            {
                proof {
                    assert(decreases_to!(*v => v->Object_0));
                    assert(decreases_to!(*entries => entries@));
                    assert(decreases_to!(entries@ => entries@[i as int]));
                    assert(decreases_to!(entries@[i as int] => entries@[i as int].1));
                }
                match substitute_json_strings(&entries[i].1, vars) {
                    Ok(x) => {
                        out.push((entries[i].0.clone(), x));
                        assert(substituted_strings(d[i as int].1, vs) is Ok);
                    },
                    Err(e) => {
                        proof {
                            lemma_substituted_entries_prefix(d, vs, 0, i as int);
                        }
                        return Err(e);
                    },
                }
            }
            proof {
                lemma_substituted_entries_prefix(d, vs, 0, d.len() as int);
                lemma_data_entries(out@);
                assert(json_data_entries(out@, 0) =~= Seq::new(d.len(), |k: int| (d[0 + k].0, substituted_strings(d[0 + k].1, vs)->Ok_0)) + Seq::<(Seq<char>, JsonData)>::empty());
            }
            Ok(JsonValue::Object(out))
        },
        _ => Ok(clone_json(v)),
    }
}

/// The query parts of templated query parameters, in order: each is `key=value`, both URL-encoded,
/// and parameters whose value expands to nothing are left out. The first expansion error is the
/// result.
pub open spec fn query_parts(query: Seq<(String, String)>, vars: Seq<(Seq<char>, Seq<char>)>) -> Result<
    Seq<Seq<char>>,
    Seq<char>,
>
    decreases query.len(),
{
    if query.len() == 0 {
        Ok(Seq::empty())
    } else {
        match query_parts(query.drop_last(), vars) {
            Ok(parts) => match substitution(query.last().1@, vars) {
                Ok(v) => Ok(
                    if v.len() == 0 {
                        parts
                    } else {
                        parts.push(
                            percent_encoded(encode_utf8(query.last().0@)) + "="@ + percent_encoded(
                                encode_utf8(v),
                            ),
                        )
                    },
                ),
                Err(e) => Err(e),
            },
            Err(e) => Err(e),
        }
    }
}

/// Texts joined with `&` between them.
pub open spec fn joined_with_amp(parts: Seq<Seq<char>>) -> Seq<char>
    decreases parts.len(),
{
    if parts.len() == 0 {
        Seq::empty()
    } else if parts.len() == 1 {
        parts[0]
    } else {
        joined_with_amp(parts.drop_last()) + "&"@ + parts.last()
    }
}

/// The headers after one configured header (name and value template): a templating error, or,
/// when the value expands to nothing, the headers unchanged, or else the header set as
/// `header_outcome` says (an invalid name, then an invalid value, is an error).
pub open spec fn header_step(
    acc: Result<Seq<(Seq<char>, Seq<char>)>, Seq<char>>,
    key: Seq<char>,
    template: Seq<char>,
    vars: Seq<(Seq<char>, Seq<char>)>,
) -> Result<Seq<(Seq<char>, Seq<char>)>, Seq<char>> {
    match acc {
        Err(e) => Err(e),
        Ok(hs) => match substitution(template, vars) {
            Err(e) => Err("Header templating failed: "@ + e),
            Ok(v) => if v.len() == 0 {
                Ok(hs)
            } else {
                header_outcome(hs, key, v)
            },
        },
    }
}

/// The headers of a request: the JSON content type, then the configured headers, in order, as
/// `header_step` sets them.
pub open spec fn configured_headers(headers: Seq<(String, String)>, vars: Seq<(Seq<char>, Seq<char>)>) -> Result<
    Seq<(Seq<char>, Seq<char>)>,
    Seq<char>,
>
    decreases headers.len(),
{
    if headers.len() == 0 {
        Ok(seq![("content-type"@, "application/json"@)])
    } else {
        header_step(
            configured_headers(headers.drop_last(), vars),
            headers.last().0@,
            headers.last().1@,
            vars,
        )
    }
}

/// Tool that sends HTTP requests, named after its method and URL template.
pub struct HttpRequestTool<'a> {
    pub name: String,
    pub config: &'a HttpRequestConfig,
}

/// A request ready to be sent: method, URL, headers and body.
#[derive(Debug)]
pub struct PreparedRequest {
    pub method: String,
    pub url: String,
    pub headers: Vec<(String, String)>,
    pub body: Option<String>,
}

/// The URL of a request: the expanded URL template, then `?` (or `&` where the URL already has a
/// query) and the query parts joined with `&`, unless that query text is empty.
pub open spec fn request_url(config: HttpRequestConfig, vars: Seq<(Seq<char>, Seq<char>)>) -> Result<Seq<char>, Seq<char>> {
    match substitution(config.url@, vars) {
        Err(e) => Err("URL templating failed: "@ + e),
        Ok(url) => match (match config.query {
            Some(q) => query_parts(q@, vars),
            None => Ok(Seq::<Seq<char>>::empty()),
        }) {
            Err(e) => Err("Query templating failed: "@ + e),
            Ok(parts) => Ok(
                if joined_with_amp(parts).len() == 0 {
                    url
                } else {
                    url + (if url.contains('?') {
                        "&"@
                    } else {
                        "?"@
                    }) + joined_with_amp(parts)
                },
            ),
        },
    }
}

/// The query parameters are appended to the expanded URL after a `?` when the URL has no query
/// yet, and after a `&` when it has one; without query parameters the URL is kept. So a URL built
/// with query parameters always has a query part.
pub proof fn law_request_url_query(
    config: HttpRequestConfig,
    vars: Seq<(Seq<char>, Seq<char>)>,
    url: Seq<char>,
    parts: Seq<Seq<char>>,
)
    requires
        substitution(config.url@, vars) == Ok::<Seq<char>, Seq<char>>(url),
        match config.query {
            Some(q) => query_parts(q@, vars) == Ok::<Seq<Seq<char>>, Seq<char>>(parts),
            None => parts.len() == 0,
        },
    ensures
        joined_with_amp(parts).len() == 0 ==> request_url(config, vars) == Ok::<Seq<char>, Seq<char>>(url),
        joined_with_amp(parts).len() > 0 && !url.contains('?') ==> request_url(config, vars) == Ok::<
            Seq<char>,
            Seq<char>,
        >(url + seq!['?'] + joined_with_amp(parts)),
        joined_with_amp(parts).len() > 0 && url.contains('?') ==> request_url(config, vars) == Ok::<
            Seq<char>,
            Seq<char>,
        >(url + seq!['&'] + joined_with_amp(parts)),
        joined_with_amp(parts).len() > 0 ==> (request_url(config, vars) matches Ok(u) && u.contains('?')),
{
    reveal_strlit("?");
    reveal_strlit("&");
    if config.query is None {
        assert(parts =~= Seq::<Seq<char>>::empty());
    }
    let q = joined_with_amp(parts);
    if q.len() > 0 {
        if url.contains('?') {
            let i = choose|i: int| 0 <= i < url.len() && url[i] == '?';
            assert((url + seq!['&'] + q)[i] == '?');
        } else {
            assert((url + seq!['?'] + q)[url.len() as int] == '?');
        }
        assert("?"@ =~= seq!['?']);
        assert("&"@ =~= seq!['&']);
    }
}

/// The headers of a request: the JSON content type, then the configured headers whose values do
/// not expand to nothing, each checked and set as a header map sets it (a later header replaces
/// the value of one of the same name, without regard to ASCII case); the first failure is the
/// error.
pub open spec fn request_headers(config: HttpRequestConfig, vars: Seq<(Seq<char>, Seq<char>)>) -> Result<
    Seq<(Seq<char>, Seq<char>)>,
    Seq<char>,
> {
    match config.headers {
        Some(h) => configured_headers(h@, vars),
        None => Ok(seq![("content-type"@, "application/json"@)]),
    }
}

/// The body of a request: the body template with the parameters injected and then every string
/// expanded, as JSON text; no body without a template.
pub open spec fn request_body(
    template: Option<JsonValue>,
    params: Seq<(String, JsonValue)>,
) -> Result<Option<Seq<char>>, Seq<char>> {
    match template {
        None => Ok(None),
        Some(t) => match substituted_strings(injected(json_data(t), params), parameter_variables(params)) {
            Ok(b) => Ok(Some(json_text(b))),
            Err(e) => Err("Body templating failed: "@ + e),
        },
    }
}

proof fn lemma_query_parts_error_from(query: Seq<(String, String)>, vars: Seq<(Seq<char>, Seq<char>)>, j: int, e: Seq<char>)
    requires
        0 < j <= query.len(),
        query_parts(query.take(j), vars) == Err::<Seq<Seq<char>>, Seq<char>>(e),
    ensures
        query_parts(query, vars) == Err::<Seq<Seq<char>>, Seq<char>>(e),
    decreases query.len() - j,
{
    if j < query.len() {
        assert(query.take(j + 1).drop_last() =~= query.take(j));
        lemma_query_parts_error_from(query, vars, j + 1, e);
    } else {
        assert(query.take(j) =~= query);
    }
}

proof fn lemma_query_parts_error(query: Seq<(String, String)>, vars: Seq<(Seq<char>, Seq<char>)>, i: int, e: Seq<char>)
    requires
        0 <= i < query.len(),
        query_parts(query.take(i), vars) is Ok,
        substitution(query[i].1@, vars) == Err::<Seq<char>, Seq<char>>(e),
    ensures
        query_parts(query, vars) == Err::<Seq<Seq<char>>, Seq<char>>(e),
{
    assert(query.take(i + 1).drop_last() =~= query.take(i));
    lemma_query_parts_error_from(query, vars, i + 1, e);
}

proof fn lemma_headers_error_from(headers: Seq<(String, String)>, vars: Seq<(Seq<char>, Seq<char>)>, j: int, e: Seq<char>)
    requires
        0 < j <= headers.len(),
        configured_headers(headers.take(j), vars) == Err::<Seq<(Seq<char>, Seq<char>)>, Seq<char>>(e),
    ensures
        configured_headers(headers, vars) == Err::<Seq<(Seq<char>, Seq<char>)>, Seq<char>>(e),
    decreases headers.len() - j,
{
    if j < headers.len() {
        assert(headers.take(j + 1).drop_last() =~= headers.take(j));
        lemma_headers_error_from(headers, vars, j + 1, e);
    } else {
        assert(headers.take(j) =~= headers);
    }
}

fn query_string(query: &Vec<(String, String)>, vars: &Vec<(String, String)>) -> (r: Result<String, String>)
    ensures
        match query_parts(query@, headers_view(vars@)) {
            Ok(parts) => r matches Ok(q) && q@ == joined_with_amp(parts),
            Err(e) => r matches Err(m) && m@ == e,
        },
{
    proof {
        reveal_strlit("&");
        reveal_strlit("=");
    }
    let ghost vs = headers_view(vars@);
    let mut out = String::new();
    let mut count: usize = 0;
    for i in 0..query.len()
        invariant
            vs == headers_view(vars@),
            query_parts(query@.take(i as int), vs) matches Ok(parts) && out@ == joined_with_amp(parts)
                && parts.len() == count,
            count <= i,
    {
        assert(query@.take(i + 1).drop_last() =~= query@.take(i as int));
        assert(query@.take(i + 1).last() == query@[i as int]);
        let ghost parts = query_parts(query@.take(i as int), vs)->Ok_0;
        match substitute(query[i].1.as_str(), vars) {
            Ok(value) => {
                if !value.as_str().is_empty() {
                    if count > 0 {
                        push_str(&mut out, "&");
                    }
                    let k = url_encode(query[i].0.as_str());
                    let v = url_encode(value.as_str());
                    push_str(&mut out, k.as_str());
                    push_str(&mut out, "=");
                    push_str(&mut out, v.as_str());
                    let ghost part = percent_encoded(encode_utf8(query@[i as int].0@)) + "="@ + percent_encoded(encode_utf8(value@));
                    assert(parts.push(part).drop_last() =~= parts);
                    assert(out@ =~= joined_with_amp(parts.push(part)));
                    count = count + 1;
                } else {
                    assert(value@.len() == 0);
                }
            },
            Err(e) => {
                proof {
                    lemma_query_parts_error(query@, vs, i as int, e@);
                }
                return Err(e);
            },
        }
    }
    assert(query@.take(query@.len() as int) =~= query@);
    Ok(out)
}

fn formatting_error(prefix: &str, e: &str) -> (r: ToolError)
    ensures
        r matches ToolError::FormattingError(m) && m@ == prefix@ + e@,
{
    let mut m = prefix.to_string();
    push_str(&mut m, e);
    ToolError::FormattingError(m)
}

/// The text `HTTP Request (<method> <url>)`.
pub open spec fn tool_name(method: Seq<char>, url: Seq<char>) -> Seq<char> {
    "HTTP Request ("@ + method + " "@ + url + ")"@
}

impl<'a> HttpRequestTool<'a> {
    pub fn new(config: &'a HttpRequestConfig) -> (r: Self)
        ensures
            r.name@ == tool_name(config.method@, config.url@),
            r.config == config,
    {
        let mut name = "HTTP Request (".to_string();
        push_str(&mut name, config.method.as_str());
        push_str(&mut name, " ");
        push_str(&mut name, config.url.as_str());
        push_str(&mut name, ")");
        HttpRequestTool { name, config }
    }

    /// The query parameters, URL-encoded and joined with `&`.
    pub fn build_query_params(&self, parameters: &ToolParameters) -> (r: ToolResult<String>)
        ensures
            match (match self.config.query {
                Some(q) => query_parts(q@, parameter_variables(parameters@)),
                None => Ok(Seq::<Seq<char>>::empty()),
            }) {
                Ok(parts) => r matches Ok(t) && t@ == joined_with_amp(parts),
                Err(e) => r matches Err(ToolError::FormattingError(m)) && m@ == "Query templating failed: "@ + e,
            },
    {
        let vars = parameter_map(parameters);
        match &self.config.query {
            Some(q) => match query_string(q, &vars) {
                Ok(t) => Ok(t),
                Err(e) => Err(formatting_error("Query templating failed: ", e.as_str())),
            },
            None => Ok(String::new()),
        }
    }

    /// The URL, with the templates expanded and the query parameters added.
    pub fn build_url(&self, parameters: &ToolParameters) -> (r: ToolResult<String>)
        ensures
            match request_url(*self.config, parameter_variables(parameters@)) {
                Ok(u) => r matches Ok(t) && t@ == u,
                Err(e) => r matches Err(ToolError::FormattingError(m)) && m@ == e,
            },
    {
        proof {
            reveal_strlit("&");
            reveal_strlit("?");
        }
        let vars = parameter_map(parameters);
        let url = match substitute(self.config.url.as_str(), &vars) {
            Ok(u) => u,
            Err(e) => return Err(formatting_error("URL templating failed: ", e.as_str())),
        };
        let query = self.build_query_params(parameters)?;
        if !query.as_str().is_empty() {
            let mut out = url;
            let has_query = contains_char(out.as_str(), '?');
            if has_query {
                push_str(&mut out, "&");
            } else {
                push_str(&mut out, "?");
            }
            push_str(&mut out, query.as_str());
            Ok(out)
        } else {
            Ok(url)
        }
    }

    /// The headers: the JSON content type, then the configured headers with their templates
    /// expanded, leaving out those that expand to nothing.
    pub fn build_headers(&self, parameters: &ToolParameters) -> (r: ToolResult<Vec<(String, String)>>)
        ensures
            match request_headers(*self.config, parameter_variables(parameters@)) {
                Ok(h) => r matches Ok(v) && headers_view(v@) == h,
                Err(e) => r matches Err(ToolError::FormattingError(m)) && m@ == e,
            },
    {
        let b = HttpRequestBuilder::new("POST", "");
        let mut b = b;
        assert(headers_view(b.headers@) =~= seq![("content-type"@, "application/json"@)]);
        if let Some(mapping) = &self.config.headers {
            let vars = parameter_map(parameters);
            let ghost vs = headers_view(vars@);
            for i in 0..mapping.len()
                invariant
                    vs == headers_view(vars@),
                    vs == parameter_variables(parameters@),
                    self.config.headers matches Some(h) && h@ == mapping@,
                    configured_headers(mapping@.take(i as int), vs) matches Ok(hs) && headers_view(b.headers@)
                        == hs,
            {
                assert(mapping@.take(i + 1).drop_last() =~= mapping@.take(i as int));
                assert(mapping@.take(i + 1).last() == mapping@[i as int]);
                match substitute(mapping[i].1.as_str(), &vars) {
                    Ok(value) => {
                        if !value.as_str().is_empty() {
                            match b.header(mapping[i].0.as_str(), value.as_str()) {
                                Ok(nb) => {
                                    b = nb;
                                },
                                Err(e) => {
                                    proof {
                                        let m = match &e {
                                            ToolError::FormattingError(m) => m@,
                                            _ => Seq::empty(),
                                        };
                                        lemma_headers_error_from(mapping@, vs, i + 1, m);
                                    }
                                    return Err(e);
                                },
                            }
                        }
                    },
                    Err(e) => {
                        let err = formatting_error("Header templating failed: ", e.as_str());
                        proof {
                            lemma_headers_error_from(mapping@, vs, i + 1, "Header templating failed: "@ + e@);
                        }
                        return Err(err);
                    },
                }
            }
            assert(mapping@.take(mapping@.len() as int) =~= mapping@);
        }
        Ok(b.headers)
    }

    /// The body: the template with the parameters injected and its strings expanded, as JSON
    /// text.
    pub fn build_body(&self, parameters: &ToolParameters, body_template: &Option<JsonValue>) -> (r: ToolResult<
        Option<String>,
    >)
        ensures
            match request_body(*body_template, parameters@) {
                Ok(Some(b)) => r matches Ok(Some(t)) && t@ == b,
                Ok(None) => r matches Ok(None),
                Err(e) => r matches Err(ToolError::FormattingError(m)) && m@ == e,
            },
    {
        match body_template {
            Some(template) => {
                let body = match apply_direct_injection(template, parameters) {
                    Ok(b) => b,
                    Err(e) => return Err(e),
                };
                let vars = parameter_map(parameters);
                match substitute_json_strings(&body, &vars) {
                    Ok(b) => Ok(Some(to_json_text(&b))),
                    Err(e) => Err(formatting_error("Body templating failed: ", e.as_str())),
                }
            },
            None => Ok(None),
        }
    }

    /// The request for a tool call: its URL, headers and body are built in this order, and the
    /// first failure is the result.
    pub fn prepare(&self, parameters: &ToolParameters) -> (r: ToolResult<PreparedRequest>)
        ensures
            match (
                request_url(*self.config, parameter_variables(parameters@)),
                request_headers(*self.config, parameter_variables(parameters@)),
                request_body(self.config.body, parameters@),
            ) {
                (Err(e), _, _) => r matches Err(ToolError::FormattingError(m)) && m@ == e,
                (Ok(_), Err(e), _) => r matches Err(ToolError::FormattingError(m)) && m@ == e,
                (Ok(_), Ok(_), Err(e)) => r matches Err(ToolError::FormattingError(m)) && m@ == e,
                (Ok(u), Ok(h), Ok(b)) => r matches Ok(p) && p.method@ == self.config.method@ && p.url@ == u
                    && headers_view(p.headers@) == h && match b {
                    Some(t) => p.body matches Some(pb) && pb@ == t,
                    None => p.body is None,
                },
            },
    {
        let url = self.build_url(parameters)?;
        let headers = self.build_headers(parameters)?;
        let body = self.build_body(parameters, &self.config.body)?;
        Ok(PreparedRequest { method: self.config.method.clone(), url, headers, body })
    }
}

} // verus!
