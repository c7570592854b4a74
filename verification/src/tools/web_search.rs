//! A web search tool that supports multiple providers, each queried by its own HTTP request.

pub mod brave;
pub mod exa;
pub mod google;
pub mod serpapi;

use crate::json::{json_data, json_text, JsonData, JsonValue};
use crate::text::{all_white_space, decimal_text, is_blank, push_str, write_decimal};
use crate::tools::tool_core::{get_param, param_position, ToolError, ToolParameters, ToolResult};
use crate::tools::utils::http_request_builder::{
    headers_view, upper_case_text, valid_header_value, with_query_params, HttpRequestBuilder,
};
use crate::tools::web_search::brave::{brave_params, is_brave_request, BraveConfig, BraveSearchTool, BRAVE_SEARCH_URL};
use crate::tools::web_search::exa::{exa_search_body, is_exa_request, ExaConfig, ExaSearchTool, EXA_SEARCH_URL};
use crate::tools::web_search::google::{
    google_params, GoogleCustomSearchConfig, GoogleCustomSearchTool, GOOGLE_SEARCH_URL,
};
use crate::tools::web_search::serpapi::{
    serpapi_params, SerpApiConfig, SerpApiSearchTool, SERPAPI_SEARCH_URL,
};
use vstd::prelude::*;
use vstd::string::StringSliceAdditionalSpecFns;
use vstd::utf8::decode_utf8;

verus! {

/// Web search tool configuration: the provider and the maximum number of results.
#[derive(Debug)]
pub struct WebSearchConfig {
    pub provider: WebSearchProviderConfig,
    pub count: u8,
}

/// Max search results to return, unless configured.
pub fn default_count() -> (r: u8)
    ensures
        r == 10,
{
    10
}

/// The public part of a web search configuration: the provider, without its secrets, and the
/// maximum number of results.
#[derive(Debug, Clone, Copy, PartialEq, Eq, Structural)]
pub struct WebSearchConfigPublic {
    pub provider: WebSearchProviderConfigPublic,
    pub count: u8,
}

/// Providers of web search, with their configuration.
#[derive(Debug)]
pub enum WebSearchProviderConfig {
    Brave(BraveConfig),
    SerpAPI(SerpApiConfig),
    GoogleCustomSearch(GoogleCustomSearchConfig),
    Exa(ExaConfig),
}

/// Providers of web search.
#[derive(Debug, Clone, Copy, PartialEq, Eq, Structural)]
pub enum WebSearchProviderConfigPublic {
    Brave,
    SerpAPI,
    GoogleCustomSearch,
    Exa,
}

/// The input schema of all web search tools, as JSON text: an object with a required string
/// `query`.
pub const WEB_SEARCH_INPUT_SCHEMA: &'static str = "{\"additionalProperties\":false,\"properties\":{\"query\":{\"description\":\"The search query\",\"type\":\"string\"}},\"required\":[\"query\"],\"type\":\"object\"}";

impl WebSearchConfig {
    /// Checks the configuration; every web search configuration is valid.
    pub fn validate(&self) -> (r: ToolResult<()>)
        ensures
            r is Ok,
    {
        Ok(())
    }

    /// The input schema of the tool.
    pub fn get_input_schema(&self) -> (r: &'static str)
        ensures
            r@ == WEB_SEARCH_INPUT_SCHEMA@,
    {
        WEB_SEARCH_INPUT_SCHEMA
    }
}

/// A search result: title, URL and description.
#[derive(Debug)]
pub struct WebSearchResult {
    pub title: String,
    pub url: String,
    pub description: String,
}

/// The search provider of a tool.
#[derive(Debug)]
pub enum WebSearchProvider<'a> {
    Brave(BraveSearchTool<'a>),
    SerpApi(SerpApiSearchTool<'a>),
    GoogleCustomSearch(GoogleCustomSearchTool<'a>),
    Exa(ExaSearchTool<'a>),
}

/// The name of a provider.
pub open spec fn provider_label(p: WebSearchProvider) -> Seq<char> {
    match p {
        WebSearchProvider::Brave(_) => "Brave"@,
        WebSearchProvider::SerpApi(_) => "SerpApi"@,
        WebSearchProvider::GoogleCustomSearch(_) => "Google Custom Search"@,
        WebSearchProvider::Exa(_) => "exa.ai"@,
    }
}

impl<'a> WebSearchProvider<'a> {
    /// The name of the provider.
    pub fn name(&self) -> (r: &'static str)
        ensures
            r@ == provider_label(*self),
    {
        match self {
            WebSearchProvider::Brave(_) => "Brave",
            WebSearchProvider::SerpApi(_) => "SerpApi",
            WebSearchProvider::GoogleCustomSearch(_) => "Google Custom Search",
            WebSearchProvider::Exa(_) => "exa.ai",
        }
    }

    /// The search request for a query.
    pub fn search_request(&self, query: &str) -> (r: ToolResult<HttpRequestBuilder>)
        ensures
            match self {
                WebSearchProvider::Brave(t) => {
                    &&& valid_header_value(t.config.api_key@) ==> (r matches Ok(b) && is_brave_request(
                        b,
                        *t.config,
                        t.count,
                        query@,
                    ))
                    &&& !valid_header_value(t.config.api_key@) ==> (r matches Err(
                        ToolError::FormattingError(m),
                    ) && m@ == "Invalid header value: "@ + t.config.api_key@)
                },
                WebSearchProvider::SerpApi(t) => r matches Ok(b) && {
                    &&& b.method@ == upper_case_text("GET"@)
                    &&& b.url@ == with_query_params(
                        SERPAPI_SEARCH_URL@,
                        serpapi_params(*t.config, t.count, query@),
                    )
                    &&& headers_view(b.headers@) == seq![("content-type"@, "application/json"@)]
                    &&& b.body is None
                },
                WebSearchProvider::GoogleCustomSearch(t) => r matches Ok(b) && {
                    &&& b.method@ == upper_case_text("GET"@)
                    &&& b.url@ == with_query_params(
                        GOOGLE_SEARCH_URL@,
                        google_params(*t.config, t.count, query@),
                    )
                    &&& headers_view(b.headers@) == seq![("content-type"@, "application/json"@)]
                    &&& b.body is None
                },
                WebSearchProvider::Exa(t) => {
                    &&& valid_header_value("Bearer "@ + t.config.api_key@) ==> (r matches Ok(b)
                        && is_exa_request(b, *t.config, t.count, query@))
                    &&& !valid_header_value("Bearer "@ + t.config.api_key@) ==> (r matches Err(
                        ToolError::FormattingError(m),
                    ) && m@ == "Invalid header value: "@ + "Bearer "@ + t.config.api_key@)
                },
            },
    {
        match self {
            WebSearchProvider::Brave(t) => t.search_request(query),
            WebSearchProvider::SerpApi(t) => Ok(t.search_request(query)),
            WebSearchProvider::GoogleCustomSearch(t) => Ok(t.search_request(query)),
            WebSearchProvider::Exa(t) => t.search_request(query),
        }
    }
}

/// A web search tool that supports multiple providers.
#[derive(Debug)]
pub struct WebSearchTool<'a> {
    pub name: String,
    pub provider: WebSearchProvider<'a>,
}

/// The string value of the named parameter, if it has one.
pub open spec fn string_param(params: Seq<(String, JsonValue)>, name: Seq<char>) -> Option<Seq<char>> {
    match param_position(params, name) {
        Some(i) => match json_data(params[i].1) {
            JsonData::Str(s) => Some(s),
            _ => None,
        },
        None => None,
    }
}

/// A description as it is shown: cut to its first 300 bytes and followed by `...` when longer.
pub open spec fn shown_description(d: Seq<char>) -> Seq<char> {
    let bytes = vstd::utf8::encode_utf8(d);
    if bytes.len() > 300 {
        decode_utf8(bytes.subrange(0, 300)) + "..."@
    } else {
        d
    }
}

/// The text of the `n`-th result: its number, title, URL, and description when there is one.
pub open spec fn result_text(n: nat, r: WebSearchResult) -> Seq<char> {
    decimal_text(n) + ". "@ + r.title@ + "\n"@ + "   URL: "@ + r.url@ + "\n"@ + (if r.description@.len() > 0 {
        "   "@ + shown_description(r.description@) + "\n"@
    } else {
        Seq::empty()
    }) + "\n"@
}

/// The texts of the results, numbered from 1.
pub open spec fn results_text(results: Seq<WebSearchResult>) -> Seq<char>
    decreases results.len(),
{
    if results.len() == 0 {
        Seq::empty()
    } else {
        results_text(results.drop_last()) + result_text(results.len(), results.last())
    }
}

fn write_result(out: &mut String, n: u64, result: &WebSearchResult)
    requires
        cuttable(result.description@),
    ensures
        final(out)@ == old(out)@ + result_text(n as nat, *result),
{
    write_decimal(out, n);
    push_str(out, ". ");
    push_str(out, result.title.as_str());
    push_str(out, "\n");
    push_str(out, "   URL: ");
    push_str(out, result.url.as_str());
    push_str(out, "\n");
    if !result.description.as_str().is_empty() {
        let d = shown(result.description.as_str());
        push_str(out, "   ");
        push_str(out, d.as_str());
        push_str(out, "\n");
    }
    push_str(out, "\n");
    assert(final(out)@ =~= old(out)@ + result_text(n as nat, *result));
}

/// The formatted search results of a provider: a heading with the provider's name and the number
/// of results, then the results; a fixed message when there are none.
pub open spec fn formatted_results(provider: Seq<char>, results: Seq<WebSearchResult>) -> Seq<char> {
    if results.len() == 0 {
        "No search results found."@
    } else {
        "Search Results from "@ + provider + " ("@ + decimal_text(results.len()) + ")\n\n"@ + results_text(results)
    }
}

/// Whether a description can be cut after 300 bytes: it is not longer, or its 300th byte ends a
/// character (and its length in bytes fits in a `usize`).
pub open spec fn cuttable(d: Seq<char>) -> bool {
    &&& vstd::utf8::encode_utf8(d).len() <= usize::MAX
    &&& vstd::utf8::encode_utf8(d).len() > 300 ==> vstd::utf8::is_char_boundary(vstd::utf8::encode_utf8(d), 300)
}

fn shown(d: &str) -> (r: String)
    requires
        cuttable(d@),
    ensures
        r@ == shown_description(d@),
{
    proof {
        reveal_strlit("...");
    }
    if d.len() > 300 {
        let (head, _) = d.split_at(300);
        proof {
            vstd::utf8::encode_utf8_decode_utf8(head@);
            assert(head.spec_bytes() =~= d.spec_bytes().subrange(0, 300));
        }
        let mut s = head.to_string();
        push_str(&mut s, "...");
        assert(s@ =~= shown_description(d@));
        s
    } else {
        d.to_string()
    }
}

impl<'a> WebSearchTool<'a> {
    pub fn new(data: &'a WebSearchConfig) -> (r: Self)
        ensures
            r.name@ == "Web Search ("@ + provider_label(r.provider) + ")"@,
    {
        let provider = match &data.provider {
            WebSearchProviderConfig::Brave(config) => WebSearchProvider::Brave(BraveSearchTool::new(config, data.count)),
            WebSearchProviderConfig::SerpAPI(config) => WebSearchProvider::SerpApi(SerpApiSearchTool::new(config, data.count)),
            WebSearchProviderConfig::GoogleCustomSearch(config) => WebSearchProvider::GoogleCustomSearch(
                GoogleCustomSearchTool::new(config, data.count),
            ),
            WebSearchProviderConfig::Exa(config) => WebSearchProvider::Exa(ExaSearchTool::new(config, data.count)),
        };
        let mut name = "Web Search (".to_string();
        push_str(&mut name, provider.name());
        push_str(&mut name, ")");
        WebSearchTool { name, provider }
    }

    /// The query of a tool call: the `query` parameter, which must be a string that is not blank.
    pub fn query(&self, parameters: &ToolParameters) -> (r: ToolResult<String>)
        ensures
            match string_param(parameters@, "query"@) {
                Some(q) => if all_white_space(q) {
                    r matches Err(ToolError::FormattingError(m)) && m@ == "Query parameter cannot be empty"@
                } else {
                    r matches Ok(t) && t@ == q
                },
                None => r matches Err(ToolError::FormattingError(m)) && m@ == "Missing 'query' parameter"@,
            },
    {
        proof {
            reveal_strlit("query");
        }
        match get_param(parameters, "query") {
            Some(JsonValue::String(q)) => if is_blank(q.as_str()) {
                Err(ToolError::FormattingError("Query parameter cannot be empty".to_string()))
            } else {
                Ok(q.clone())
            },
            _ => Err(ToolError::FormattingError("Missing 'query' parameter".to_string())),
        }
    }

    /// The search results as text for the LLM.
    pub fn format_results(&self, results: &[WebSearchResult]) -> (r: String)
        requires
            forall|i: int| 0 <= i < results@.len() ==> cuttable(#[trigger] results@[i].description@),
        ensures
            r@ == formatted_results(provider_label(self.provider), results@),
    {
        if results.len() == 0 {
            return "No search results found.".to_string();
        }
        let mut formatted = "Search Results from ".to_string();
        push_str(&mut formatted, self.provider.name());
        push_str(&mut formatted, " (");
        write_decimal(&mut formatted, results.len() as u64);
        push_str(&mut formatted, ")\n\n");
        let ghost head = formatted@;
        for i in 0..results.len()
            invariant
                formatted@ == head + results_text(results@.take(i as int)),
                forall|k: int| 0 <= k < results@.len() ==> cuttable(#[trigger] results@[k].description@),
        {
            write_result(&mut formatted, (i + 1) as u64, &results[i]);
            assert(results@.take(i + 1).drop_last() =~= results@.take(i as int));
            assert(results@.take(i + 1).last() == results@[i as int]);
            assert(formatted@ =~= head + results_text(results@.take(i + 1)));
        }
        assert(results@.take(results@.len() as int) =~= results@);
        formatted
    }
}

} // verus!
