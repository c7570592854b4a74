//! The Exa search provider, through its search API with full texts.

use crate::json::{json_data, json_text, lemma_data_entries, to_json_text, JsonData, JsonValue};
use crate::text::{decimal_text, push_str, write_decimal};
use crate::tools::tool_core::{ToolError, ToolResult};
use crate::tools::utils::http_request_builder::{headers_view, lemma_set_new_header, upper_case_text, valid_header_name, valid_header_value, with_query_params, HttpRequestBuilder};
use crate::tools::web_search::WebSearchResult;
use vstd::prelude::*;

verus! {

pub const EXA_SEARCH_URL: &'static str = "https://api.exa.ai/search";

/// Configuration of Exa: the API key.
#[derive(Debug)]
pub struct ExaConfig {
    pub api_key: String,
}

/// Searches with Exa.
#[derive(Debug)]
pub struct ExaSearchTool<'a> {
    pub config: &'a ExaConfig,
    pub count: u8,
}

/// A result of Exa's search.
#[derive(Debug)]
pub struct ExaSearchResult {
    pub title: String,
    pub url: String,
    pub text: Option<String>,
}

/// The JSON body of a search: full texts, the number of results, the query and automatic search
/// type (keys in `serde_json`'s order).
pub open spec fn exa_search_body(query: Seq<char>, count: u8) -> JsonData {
    JsonData::Object(
        seq![
            ("contents"@, JsonData::Object(seq![("text"@, JsonData::Bool(true))])),
            ("numResults"@, JsonData::Number(decimal_text(count as nat))),
            ("query"@, JsonData::Str(query)),
            ("type"@, JsonData::Str("auto"@)),
        ],
    )
}

fn decimal_string(n: u8) -> (r: String)
    ensures
        r@ == decimal_text(n as nat),
{
    let mut s = String::new();
    write_decimal(&mut s, n as u64);
    assert(s@ =~= decimal_text(n as nat));
    s
}

impl<'a> ExaSearchTool<'a> {
    pub fn new(config: &'a ExaConfig, count: u8) -> (r: Self)
        ensures
            r.config == config,
            r.count == count,
    {
        ExaSearchTool { config, count }
    }

    /// The search request: a GET with the bearer API key and a JSON body.
    pub fn search_request(&self, query: &str) -> (r: ToolResult<HttpRequestBuilder>)
        ensures
            valid_header_value("Bearer "@ + self.config.api_key@) ==> (r matches Ok(b) && is_exa_request(
                b,
                *self.config,
                self.count,
                query@,
            )),
            !valid_header_value("Bearer "@ + self.config.api_key@) ==> (r matches Err(
                ToolError::FormattingError(m),
            ) && m@ == "Invalid header value: "@ + "Bearer "@ + self.config.api_key@),
    {
        let mut text_entries: Vec<(String, JsonValue)> = Vec::new();
        text_entries.push(("text".to_string(), JsonValue::Bool(true)));
        proof {
            lemma_data_entries(text_entries@);
            assert(crate::json::json_data_entries(text_entries@, 0) =~= seq![("text"@, JsonData::Bool(true))]);
        }
        let contents = JsonValue::Object(text_entries);
        let ghost dc = json_data(contents);
        let count = decimal_string(self.count);
        let mut entries: Vec<(String, JsonValue)> = Vec::new();
        entries.push(("contents".to_string(), contents));
        entries.push(("numResults".to_string(), JsonValue::Number(count)));
        entries.push(("query".to_string(), JsonValue::String(query.to_string())));
        entries.push(("type".to_string(), JsonValue::String("auto".to_string())));
        proof {
            lemma_data_entries(entries@);
            assert(crate::json::json_data_entries(entries@, 0) =~= seq![
                ("contents"@, dc),
                ("numResults"@, JsonData::Number(decimal_text(self.count as nat))),
                ("query"@, JsonData::Str(query@)),
                ("type"@, JsonData::Str("auto"@)),
            ]);
        }
        let body = JsonValue::Object(entries);
        let mut auth = "Bearer ".to_string();
        push_str(&mut auth, self.config.api_key.as_str());
        let b = HttpRequestBuilder::new("GET", EXA_SEARCH_URL);
        proof {
            reveal_strlit("content-type");
            reveal_strlit("Authorization");
            lemma_set_new_header(headers_view(b.headers@), "Authorization"@, auth@);
            assert(valid_header_name("Authorization"@));
        }
        let b = match b.header("Authorization", auth.as_str()) {
            Ok(b) => b,
            Err(e) => return Err(e),
        };
        assert(headers_view(b.headers@) =~= seq![
            ("content-type"@, "application/json"@),
            ("Authorization"@, "Bearer "@ + self.config.api_key@),
        ]);
        Ok(b.body(to_json_text(&body)))
    }
}

/// The Exa search request for a query: a GET of the search URL with the JSON content type, the
/// API key as a bearer token, and the JSON search body.
pub open spec fn is_exa_request(b: HttpRequestBuilder, config: ExaConfig, count: u8, query: Seq<char>) -> bool {
    &&& b.method@ == upper_case_text("GET"@)
    &&& b.url@ == EXA_SEARCH_URL@
    &&& headers_view(b.headers@) == seq![
        ("content-type"@, "application/json"@),
        ("Authorization"@, "Bearer "@ + config.api_key@),
    ]
    &&& b.body matches Some(t) && t@ == json_text(exa_search_body(query, count))
}

/// Whether a shared result is made of a provider result: title, URL, and description (empty when
/// there is none).
pub open spec fn is_result_of(w: WebSearchResult, e: ExaSearchResult) -> bool {
    w.title@ == e.title@ && w.url@ == e.url@ && w.description@ == match e.text {
        Some(t) => t@,
        None => Seq::<char>::empty(),
    }
}

/// The shared results made of Exa's, one for each, in order.
pub fn search_results(results: Vec<ExaSearchResult>) -> (r: Vec<WebSearchResult>)
    ensures
        r@.len() == results@.len(),
        forall|i: int| 0 <= i < results@.len() ==> is_result_of(#[trigger] r@[i], results@[i]),
{
    let mut out: Vec<WebSearchResult> = Vec::new();
    for i in 0..results.len()
        invariant
            out@.len() == i,
            forall|k: int| 0 <= k < i ==> is_result_of(#[trigger] out@[k], results@[k]),
    {
        let e = &results[i];
        let description = match &e.text {
            Some(t) => t.clone(),
            None => String::new(),
        };
        out.push(WebSearchResult { title: e.title.clone(), url: e.url.clone(), description });
    }
    out
}

/// The error of a response that could not be read.
pub fn parse_error(message: &str) -> (r: ToolError)
    ensures
        r matches ToolError::ToolExecutionError(m) && m@ == "Failed to parse Exa response: "@ + message@,
{
    let mut m = "Failed to parse Exa response: ".to_string();
    push_str(&mut m, message);
    ToolError::ToolExecutionError(m)
}

} // verus!
