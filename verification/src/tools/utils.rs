//! Tool utilities: JSON schema checks through `jsonschema`, and the HTTP request builder.

use crate::json::{json_data_entries, json_entries_text, json_quote, json_string_text, write_json_entries};
use crate::text::push_str;
use crate::json::JsonValue;
use crate::tools::tool_core::{ToolError, ToolJsonSchema, ToolParameters, ToolResult};
pub mod http_request_builder;

use vstd::prelude::*;

verus! {

/// What `jsonschema::draft202012::meta::validate` gives for the JSON text of a schema: `Ok` when
/// the schema is valid against the Draft 2020-12 meta-schema, else the message of the first error.
/// Text that is not JSON gives the message of `serde_json`'s parse error.
pub uninterp spec fn meta_validation(schema: Seq<char>) -> Result<(), Seq<char>>;

/// What validating the JSON text of an instance against the JSON text of a schema (draft detected
/// from the schema) gives: `Ok` when the instance is valid, else the message of the first error.
/// A text that is not JSON, or a schema that does not compile, gives the message of that error.
pub uninterp spec fn instance_validation(schema: Seq<char>, instance: Seq<char>) -> Result<(), Seq<char>>;

/// Validates a schema against the Draft 2020-12 meta-schema with
/// `jsonschema::draft202012::meta::validate`, after reading its text with `serde_json`. The result
/// is named; its meaning is left to `jsonschema`.
#[verifier::external_body]
pub(crate) fn meta_validate(schema_text: &str) -> (r: Result<(), String>)
    ensures
        match r {
            Ok(()) => meta_validation(schema_text@) == Ok::<(), Seq<char>>(()),
            Err(m) => meta_validation(schema_text@) == Err::<(), Seq<char>>(m@),
        },
{
    let schema: serde_json::Value = serde_json::from_str(schema_text).map_err(|e| e.to_string())?;
    jsonschema::draft202012::meta::validate(&schema).map_err(|e| e.to_string())
}

/// Validates an instance against a schema with `jsonschema::validator_for` and the validator's
/// `validate`, after reading both texts with `serde_json`. A schema that does not compile gives its
/// error's message (where `jsonschema::validate` would panic). The result is named.
#[verifier::external_body]
pub(crate) fn validate_instance(schema_text: &str, instance_text: &str) -> (r: Result<(), String>)
    ensures
        match r {
            Ok(()) => instance_validation(schema_text@, instance_text@) == Ok::<(), Seq<char>>(()),
            Err(m) => instance_validation(schema_text@, instance_text@) == Err::<(), Seq<char>>(m@),
        },
{
    let schema: serde_json::Value = serde_json::from_str(schema_text).map_err(|e| e.to_string())?;
    let instance: serde_json::Value = serde_json::from_str(instance_text).map_err(|e| e.to_string())?;
    let validator = jsonschema::validator_for(&schema).map_err(|e| e.to_string())?;
    validator.validate(&instance).map_err(|e| e.to_string())
}

/// The texts of strings as JSON string literals, separated by commas.
pub open spec fn json_strings_text(items: Seq<String>) -> Seq<char>
    decreases items.len(),
{
    if items.len() == 0 {
        Seq::empty()
    } else if items.len() == 1 {
        json_string_text(items[0]@)
    } else {
        json_strings_text(items.drop_last()) + ","@ + json_string_text(items.last()@)
    }
}

/// The JSON text of a tool's schema, with its fields in order: `type`, `properties`, `required`
/// (left out when unset) and `additionalProperties`.
pub open spec fn schema_json_text(s: ToolJsonSchema) -> Seq<char> {
    "{\"type\":\"object\",\"properties\":{"@ + json_entries_text(json_data_entries(s.properties@, 0), 0) + "}"@ + match s.required {
        Some(r) => ",\"required\":["@ + json_strings_text(r@) + "]"@,
        None => Seq::<char>::empty(),
    } + ",\"additionalProperties\":"@ + match s.additional_properties {
        Some(b) => if b {
            "true"@
        } else {
            "false"@
        },
        None => "null"@,
    } + "}"@
}

fn write_json_strings(items: &Vec<String>, out: &mut String)
    ensures
        final(out)@ == old(out)@ + json_strings_text(items@),
{
    proof {
        reveal_strlit(",");
    }
    let ghost start = out@;
    for i in 0..items.len()
        invariant
            out@ == start + json_strings_text(items@.take(i as int)),
    {
        let ghost before = out@;
        if i > 0 {
            push_str(out, ",");
        }
        let q = json_quote(items[i].as_str());
        push_str(out, q.as_str());
        assert(items@.take(i + 1).drop_last() =~= items@.take(i as int));
        assert(items@.take(i + 1).last() == items@[i as int]);
        if i == 0 {
            assert(items@.take(1) =~= seq![items@[0]]);
        }
        assert(out@ =~= start + json_strings_text(items@.take(i + 1)));
    }
    assert(items@.take(items@.len() as int) =~= items@);
}

/// The JSON text of a tool's schema.
pub fn schema_text(s: &ToolJsonSchema) -> (r: String)
    ensures
        r@ == schema_json_text(*s),
{
    proof {
        reveal_strlit("{\"type\":\"object\",\"properties\":{");
        reveal_strlit("}");
        reveal_strlit(",\"required\":[");
        reveal_strlit("]");
        reveal_strlit(",\"additionalProperties\":");
    }
    let mut out = "{\"type\":\"object\",\"properties\":{".to_string();
    let ghost a = out@;
    write_json_entries(&s.properties, &mut out);
    push_str(&mut out, "}");
    let ghost b = out@;
    match &s.required {
        Some(r) => {
            push_str(&mut out, ",\"required\":[");
            write_json_strings(r, &mut out);
            push_str(&mut out, "]");
        },
        None => {},
    }
    let ghost c = out@;
    push_str(&mut out, ",\"additionalProperties\":");
    match s.additional_properties {
        Some(true) => push_str(&mut out, "true"),
        Some(false) => push_str(&mut out, "false"),
        None => push_str(&mut out, "null"),
    }
    push_str(&mut out, "}");
    assert(out@ =~= schema_json_text(*s));
    out
}

/// Ensure a tool's JSON schema is valid (against Draft 2020-12), after setting
/// `additionalProperties` to false as OpenAI requires.
pub fn validate_json_schema(input_schema: &mut ToolJsonSchema) -> (r: ToolResult<()>)
    ensures
        final(input_schema).schema_type == old(input_schema).schema_type,
        final(input_schema).properties == old(input_schema).properties,
        final(input_schema).required == old(input_schema).required,
        final(input_schema).additional_properties == Some(false),
        match meta_validation(schema_json_text(*final(input_schema))) {
            Ok(()) => r is Ok,
            Err(m) => r matches Err(ToolError::InvalidJsonSchema(msg)) && msg@ == m,
        },
{
    input_schema.additional_properties = Some(false);
    let text = schema_text(input_schema);
    match meta_validate(text.as_str()) {
        Ok(()) => Ok(()),
        Err(m) => Err(ToolError::InvalidJsonSchema(m)),
    }
}

/// The JSON text of tool parameters, as an object.
pub open spec fn parameters_json_text(params: Seq<(String, JsonValue)>) -> Seq<char> {
    "{"@ + json_entries_text(json_data_entries(params, 0), 0) + "}"@
}

/// Check a tool call's parameters against the tool's input schema (JSON text). An error gives the
/// message of the first violation.
pub fn validate_parameters(input_schema: &str, parameters: &ToolParameters) -> (r: ToolResult<()>)
    ensures
        match instance_validation(input_schema@, parameters_json_text(parameters@)) {
            Ok(()) => r is Ok,
            Err(m) => r matches Err(ToolError::InvalidParameters(msg)) && msg@ == m,
        },
{
    proof {
        reveal_strlit("{");
        reveal_strlit("}");
    }
    let mut text = "{".to_string();
    write_json_entries(parameters, &mut text);
    push_str(&mut text, "}");
    assert(text@ =~= parameters_json_text(parameters@));
    match validate_instance(input_schema, text.as_str()) {
        Ok(()) => Ok(()),
        Err(m) => Err(ToolError::InvalidParameters(m)),
    }
}

} // verus!
