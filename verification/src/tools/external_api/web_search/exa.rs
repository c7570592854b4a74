//! The Exa web search provider: its requests, and what is made of its responses.

use crate::json::{json_data, json_text, lemma_data_entries, lemma_data_items, to_json_text, JsonData, JsonValue};
use crate::text::{decimal_text, push_str, write_decimal};
use crate::tools::tool_core::{ToolError, ToolResult};
use crate::tools::utils::http_request_builder::{headers_view, lemma_set_new_header, valid_header_name, valid_header_value, upper_case_text, HttpRequestBuilder};
use vstd::prelude::*;

verus! {

pub const EXA_SEARCH_URL: &'static str = "https://api.exa.ai/search";
pub const EXA_CONTENTS_URL: &'static str = "https://api.exa.ai/contents";

/// Maximum number of characters of text in each search result.
pub const SEARCH_TEXT_MAX_CHARACTERS: u32 = 300;

/// The Exa provider: the number of search results and the maximum length of extracted text.
#[derive(Debug, Clone, Copy, PartialEq, Eq, Structural)]
pub struct ExaSearchTool {
    pub count: u8,
    pub max_characters: u32,
}

/// A search result, in the shared format of web search tools.
#[derive(Debug)]
pub struct WebSearchResult {
    pub title: String,
    pub url: String,
    pub text: String,
}

/// A search result of the Exa API.
#[derive(Debug)]
pub struct ExaSearchResult {
    pub title: String,
    pub url: String,
    pub text: Option<String>,
}

/// A result of the Exa contents API.
#[derive(Debug)]
pub struct ExaExtractResult {
    pub title: String,
    pub url: String,
    pub text: String,
    pub extras: Option<ExaExtractExtras>,
}

/// Extras of a contents result.
#[derive(Debug)]
pub struct ExaExtractExtras {
    pub links: Option<Vec<String>>,
}

/// The JSON body of a search: the query, automatic search type, the number of results, and the
/// text of each result cut to 300 characters (keys in `serde_json`'s order).
pub open spec fn search_body(query: Seq<char>, count: u8) -> JsonData {
    JsonData::Object(
        seq![
            (
                "contents"@,
                JsonData::Object(
                    seq![("text"@, JsonData::Object(seq![("maxCharacters"@, JsonData::Number("300"@))]))],
                ),
            ),
            ("numResults"@, JsonData::Number(decimal_text(count as nat))),
            ("query"@, JsonData::Str(query)),
            ("type"@, JsonData::Str("auto"@)),
        ],
    )
}

/// The JSON body of a content extraction: up to 5 links and no image links, the URL, and the
/// text cut to the configured length (keys in `serde_json`'s order).
pub open spec fn extract_body(url: Seq<char>, max_characters: u32) -> JsonData {
    JsonData::Object(
        seq![
            (
                "extras"@,
                JsonData::Object(
                    seq![("imageLinks"@, JsonData::Number("0"@)), ("links"@, JsonData::Number("5"@))],
                ),
            ),
            ("ids"@, JsonData::Array(seq![JsonData::Str(url)])),
            ("text"@, JsonData::Object(seq![("maxCharacters"@, JsonData::Number(decimal_text(max_characters as nat)))])),
        ],
    )
}

fn number_value(n: u64) -> (r: JsonValue)
    ensures
        json_data(r) == JsonData::Number(decimal_text(n as nat)),
{
    let mut t = String::new();
    write_decimal(&mut t, n);
    assert(t@ =~= decimal_text(n as nat));
    JsonValue::Number(t)
}

fn object1(key: &str, value: JsonValue) -> (r: JsonValue)
    ensures
        json_data(r) == JsonData::Object(seq![(key@, json_data(value))]),
{
    let ghost d = json_data(value);
    let mut entries: Vec<(String, JsonValue)> = Vec::new();
    entries.push((key.to_string(), value));
    proof {
        lemma_data_entries(entries@);
        assert(crate::json::json_data_entries(entries@, 0) =~= seq![(key@, d)]);
    }
    JsonValue::Object(entries)
}

fn object2(k1: &str, v1: JsonValue, k2: &str, v2: JsonValue) -> (r: JsonValue)
    ensures
        json_data(r) == JsonData::Object(seq![(k1@, json_data(v1)), (k2@, json_data(v2))]),
{
    let ghost d1 = json_data(v1);
    let ghost d2 = json_data(v2);
    let mut entries: Vec<(String, JsonValue)> = Vec::new();
    entries.push((k1.to_string(), v1));
    entries.push((k2.to_string(), v2));
    proof {
        lemma_data_entries(entries@);
        assert(crate::json::json_data_entries(entries@, 0) =~= seq![(k1@, d1), (k2@, d2)]);
    }
    JsonValue::Object(entries)
}

fn object3(k1: &str, v1: JsonValue, k2: &str, v2: JsonValue, k3: &str, v3: JsonValue) -> (r: JsonValue)
    ensures
        json_data(r) == JsonData::Object(seq![(k1@, json_data(v1)), (k2@, json_data(v2)), (k3@, json_data(v3))]),
{
    let ghost d1 = json_data(v1);
    let ghost d2 = json_data(v2);
    let ghost d3 = json_data(v3);
    let mut entries: Vec<(String, JsonValue)> = Vec::new();
    entries.push((k1.to_string(), v1));
    entries.push((k2.to_string(), v2));
    entries.push((k3.to_string(), v3));
    proof {
        lemma_data_entries(entries@);
        assert(crate::json::json_data_entries(entries@, 0) =~= seq![(k1@, d1), (k2@, d2), (k3@, d3)]);
    }
    JsonValue::Object(entries)
}

fn object4(k1: &str, v1: JsonValue, k2: &str, v2: JsonValue, k3: &str, v3: JsonValue, k4: &str, v4: JsonValue) -> (r:
    JsonValue)
    ensures
        json_data(r) == JsonData::Object(
            seq![(k1@, json_data(v1)), (k2@, json_data(v2)), (k3@, json_data(v3)), (k4@, json_data(v4))],
        ),
{
    let ghost d1 = json_data(v1);
    let ghost d2 = json_data(v2);
    let ghost d3 = json_data(v3);
    let ghost d4 = json_data(v4);
    let mut entries: Vec<(String, JsonValue)> = Vec::new();
    entries.push((k1.to_string(), v1));
    entries.push((k2.to_string(), v2));
    entries.push((k3.to_string(), v3));
    entries.push((k4.to_string(), v4));
    proof {
        lemma_data_entries(entries@);
        assert(crate::json::json_data_entries(entries@, 0) =~= seq![(k1@, d1), (k2@, d2), (k3@, d3), (k4@, d4)]);
    }
    JsonValue::Object(entries)
}

/// The request of a POST to an Exa endpoint with the API key and a JSON body.
pub open spec fn is_exa_request(b: HttpRequestBuilder, url: Seq<char>, api_key: Seq<char>, body: JsonData) -> bool {
    &&& b.method@ == upper_case_text("POST"@)
    &&& b.url@ == url
    &&& headers_view(b.headers@) == seq![("content-type"@, "application/json"@), ("X-Api-Key"@, api_key)]
    &&& b.body matches Some(t) && t@ == json_text(body)
}

impl ExaSearchTool {
    pub fn new(count: u8, max_characters: u32) -> (r: Self)
        ensures
            r.count == count,
            r.max_characters == max_characters,
    {
        ExaSearchTool { count, max_characters }
    }

    /// The search request for a query.
    pub fn search_request(&self, query: &str, api_key: &str) -> (r: ToolResult<HttpRequestBuilder>)
        ensures
            valid_header_value(api_key@) ==> (r matches Ok(b) && is_exa_request(b, EXA_SEARCH_URL@, api_key@, search_body(query@, self.count))),
            !valid_header_value(api_key@) ==> (r matches Err(ToolError::FormattingError(m)) && m@
                == "Invalid header value: "@ + api_key@),
    {
        proof {
            reveal_strlit("300");
        }
        let max = JsonValue::Number("300".to_string());
        let text = object1("maxCharacters", max);
        let contents = object1("text", text);
        let body = object4(
            "contents",
            contents,
            "numResults",
            number_value(self.count as u64),
            "query",
            JsonValue::String(query.to_string()),
            "type",
            JsonValue::String("auto".to_string()),
        );
        assert(json_data(body) == search_body(query@, self.count));
        let b = HttpRequestBuilder::new("POST", EXA_SEARCH_URL);
        proof {
            reveal_strlit("content-type");
            reveal_strlit("X-Api-Key");
            lemma_set_new_header(headers_view(b.headers@), "X-Api-Key"@, api_key@);
            assert(valid_header_name("X-Api-Key"@));
        }
        let b = match b.header("X-Api-Key", api_key) {
            Ok(b) => b,
            Err(e) => return Err(e),
        };
        assert(headers_view(b.headers@) =~= seq![("content-type"@, "application/json"@), ("X-Api-Key"@, api_key@)]);
        Ok(b.body(to_json_text(&body)))
    }

    /// The content extraction request for a URL.
    pub fn extract_request(&self, url: &str, api_key: &str) -> (r: ToolResult<HttpRequestBuilder>)
        ensures
            valid_header_value(api_key@) ==> (r matches Ok(b) && is_exa_request(b, EXA_CONTENTS_URL@, api_key@, extract_body(url@, self.max_characters))),
            !valid_header_value(api_key@) ==> (r matches Err(ToolError::FormattingError(m)) && m@
                == "Invalid header value: "@ + api_key@),
    {
        proof {
            reveal_strlit("0");
            reveal_strlit("5");
        }
        let extras = object2(
            "imageLinks",
            JsonValue::Number("0".to_string()),
            "links",
            JsonValue::Number("5".to_string()),
        );
        let mut ids: Vec<JsonValue> = Vec::new();
        ids.push(JsonValue::String(url.to_string()));
        proof {
            lemma_data_items(ids@);
            assert(crate::json::json_data_items(ids@, 0) =~= seq![JsonData::Str(url@)]);
        }
        let text = object1("maxCharacters", number_value(self.max_characters as u64));
        let body = object3("extras", extras, "ids", JsonValue::Array(ids), "text", text);
        assert(json_data(body) == extract_body(url@, self.max_characters));
        let b = HttpRequestBuilder::new("POST", EXA_CONTENTS_URL);
        proof {
            reveal_strlit("content-type");
            reveal_strlit("X-Api-Key");
            lemma_set_new_header(headers_view(b.headers@), "X-Api-Key"@, api_key@);
            assert(valid_header_name("X-Api-Key"@));
        }
        let b = match b.header("X-Api-Key", api_key) {
            Ok(b) => b,
            Err(e) => return Err(e),
        };
        assert(headers_view(b.headers@) =~= seq![("content-type"@, "application/json"@), ("X-Api-Key"@, api_key@)]);
        Ok(b.body(to_json_text(&body)))
    }
}

/// Whether a shared search result is made of an Exa result: same title and URL, and the text, or
/// an empty text when there is none.
pub open spec fn is_search_result(w: WebSearchResult, e: ExaSearchResult) -> bool {
    w.title@ == e.title@ && w.url@ == e.url@ && w.text@ == match e.text {
        Some(t) => t@,
        None => Seq::<char>::empty(),
    }
}

/// The shared search results made of Exa's, one for each, in order.
pub fn search_results(results: Vec<ExaSearchResult>) -> (r: Vec<WebSearchResult>)
    ensures
        r@.len() == results@.len(),
        forall|i: int| 0 <= i < results@.len() ==> is_search_result(#[trigger] r@[i], results@[i]),
{
    let mut out: Vec<WebSearchResult> = Vec::new();
    for i in 0..results.len()
        invariant
            out@.len() == i,
            forall|k: int| 0 <= k < i ==> is_search_result(#[trigger] out@[k], results@[k]),
    {
        let e = &results[i];
        let text = match &e.text {
            Some(t) => t.clone(),
            None => String::new(),
        };
        out.push(WebSearchResult { title: e.title.clone(), url: e.url.clone(), text });
    }
    out
}

/// The links part of extracted text: a `Links:` heading, then one `- <link>` line per link.
pub open spec fn links_text(links: Seq<String>) -> Seq<char>
    decreases links.len(),
{
    if links.len() == 0 {
        "\n\nLinks:\n"@
    } else {
        links_text(links.drop_last()) + "- "@ + links.last()@ + "\n"@
    }
}

/// The text extracted from a contents result: its title, URL and text, then its links if it has
/// any.
pub open spec fn extracted_text(r: ExaExtractResult) -> Seq<char> {
    "Title: "@ + r.title@ + "\nURL: "@ + r.url@ + "\n\nContent:\n\n"@ + r.text@ + match r.extras {
        Some(e) => match e.links {
            Some(links) => links_text(links@),
            None => Seq::<char>::empty(),
        },
        None => Seq::empty(),
    }
}

/// The text extracted from the first result of a contents response; no result is an error.
pub fn extract_text(results: &Vec<ExaExtractResult>) -> (r: ToolResult<String>)
    ensures
        results@.len() > 0 ==> (r matches Ok(t) && t@ == extracted_text(results@[0])),
        results@.len() == 0 ==> (r matches Err(ToolError::ToolExecutionError(m)) && m@ == "No result found in Exa response"@),
{
    if results.len() == 0 {
        return Err(ToolError::ToolExecutionError("No result found in Exa response".to_string()));
    }
    let result = &results[0];
    let mut text = "Title: ".to_string();
    push_str(&mut text, result.title.as_str());
    push_str(&mut text, "\nURL: ");
    push_str(&mut text, result.url.as_str());
    push_str(&mut text, "\n\nContent:\n\n");
    push_str(&mut text, result.text.as_str());
    let ghost head = text@;
    if let Some(extras) = &result.extras {
        if let Some(links) = &extras.links {
            push_str(&mut text, "\n\nLinks:\n");
            for i in 0..links.len()
                invariant
                    text@ == head + links_text(links@.take(i as int)),
            {
                push_str(&mut text, "- ");
                push_str(&mut text, links[i].as_str());
                push_str(&mut text, "\n");
                assert(links@.take(i + 1).drop_last() =~= links@.take(i as int));
            }
            assert(links@.take(links@.len() as int) =~= links@);
        }
    }
    Ok(text)
}

/// The error of a response that could not be read.
pub fn parse_error(message: &str) -> (r: ToolError)
    ensures
        r matches ToolError::ToolExecutionError(m) && m@ == "Failed to parse Exa response: "@ + message@,
{
    let mut m = "Failed to parse Exa response: ".to_string();
    push_str(&mut m, message);
    ToolError::ToolExecutionError(m)
}

} // verus!
