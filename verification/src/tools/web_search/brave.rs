//! The Brave search provider.

use crate::text::{decimal_text, push_str, write_decimal};
use crate::tools::tool_core::{ToolError, ToolResult};
use crate::tools::utils::http_request_builder::{headers_view, param_sent, lemma_set_new_header, upper_case_text, valid_header_name, valid_header_value, with_query_params, HttpRequestBuilder};
use crate::tools::web_search::WebSearchResult;
use vstd::prelude::*;

verus! {

pub const BRAVE_SEARCH_URL: &'static str = "https://api.search.brave.com/res/v1/web/search";

/// Configuration of Brave search: the API key, and optional country and language codes.
#[derive(Debug)]
pub struct BraveConfig {
    pub api_key: String,
    pub country: Option<String>,
    pub search_lang: Option<String>,
}

/// Searches with Brave.
#[derive(Debug)]
pub struct BraveSearchTool<'a> {
    pub config: &'a BraveConfig,
    pub count: u8,
}

/// A result of Brave's web search.
#[derive(Debug)]
pub struct BraveSearchResult {
    pub title: String,
    pub url: String,
    pub description: Option<String>,
}

/// The query parameters of a search: the query, the number of results, no text decorations, and
/// the country and language when configured.
pub open spec fn brave_params(config: BraveConfig, count: u8, query: Seq<char>) -> Seq<(Seq<char>, Seq<char>)> {
    let base = seq![("q"@, query), ("count"@, decimal_text(count as nat)), ("text_decorations"@, "false"@)];
    let with_country = match config.country {
        Some(c) => base.push(("country"@, c@)),
        None => base,
    };
    match config.search_lang {
        Some(l) => with_country.push(("search_lang"@, l@)),
        None => with_country,
    }
}

pub open spec fn opt_text(o: Option<String>) -> Option<Seq<char>> {
    match o {
        Some(s) => Some(s@),
        None => None,
    }
}

/// A Brave search sends the query as `q`, the configured country as `country` and the
/// configured language as `search_lang`, each under that name only; an unset country or language
/// sends no such parameter.
pub proof fn law_brave_params(config: BraveConfig, count: u8, query: Seq<char>)
    ensures
        param_sent(brave_params(config, count, query), "q"@, Some(query)),
        param_sent(brave_params(config, count, query), "country"@, opt_text(config.country)),
        param_sent(brave_params(config, count, query), "search_lang"@, opt_text(config.search_lang)),
{
    reveal_strlit("q");
    reveal_strlit("count");
    reveal_strlit("text_decorations");
    reveal_strlit("country");
    reveal_strlit("search_lang");
    let p = brave_params(config, count, query);
    let base = seq![("q"@, query), ("count"@, decimal_text(count as nat)), ("text_decorations"@, "false"@)];
    let c = opt_text(config.country);
    let l = opt_text(config.search_lang);
    assert(forall|i: int| 0 <= i < 3 ==> p[i] == base[i]);
    assert(p.len() == 3 + (if c is Some { 1int } else { 0 }) + (if l is Some { 1int } else { 0 }));
    assert(c matches Some(cv) ==> p[3] == ("country"@, cv));
    assert(l matches Some(lv) ==> p[p.len() - 1] == ("search_lang"@, lv));
    assert(p[0] == ("q"@, query));
    assert forall|i: int| 0 <= i < p.len() implies (#[trigger] p[i]).0.len() == (if i == 0 {
        1int
    } else if i == 1 {
        5int
    } else if i == 2 {
        16int
    } else if i == 3 && c is Some {
        7int
    } else {
        11int
    }) by {}
}

fn decimal_string(n: u8) -> (r: String)
    ensures
        r@ == decimal_text(n as nat),
{
    let mut s = String::new();
    write_decimal(&mut s, n as u64);
    assert(s@ =~= decimal_text(n as nat));
    s
}

impl<'a> BraveSearchTool<'a> {
    pub fn new(config: &'a BraveConfig, count: u8) -> (r: Self)
        ensures
            r.config == config,
            r.count == count,
    {
        BraveSearchTool { config, count }
    }

    /// The search request: a GET with the subscription token and the query parameters. An API
    /// key that cannot stand in a header is a formatting error.
    pub fn search_request(&self, query: &str) -> (r: ToolResult<HttpRequestBuilder>)
        ensures
            valid_header_value(self.config.api_key@) ==> (r matches Ok(b) && is_brave_request(
                b,
                *self.config,
                self.count,
                query@,
            )),
            !valid_header_value(self.config.api_key@) ==> (r matches Err(ToolError::FormattingError(m))
                && m@ == "Invalid header value: "@ + self.config.api_key@),
    {
        let ghost p = brave_params(*self.config, self.count, query@);
        let b = HttpRequestBuilder::new("GET", BRAVE_SEARCH_URL);
        proof {
            reveal_strlit("content-type");
            reveal_strlit("X-Subscription-Token");
            reveal_strlit("Accept");
            lemma_set_new_header(headers_view(b.headers@), "X-Subscription-Token"@, self.config.api_key@);
            assert(valid_header_name("X-Subscription-Token"@));
        }
        let b = match b.header("X-Subscription-Token", self.config.api_key.as_str()) {
            Ok(b) => b,
            Err(e) => return Err(e),
        };
        proof {
            reveal_strlit("application/json");
            lemma_set_new_header(headers_view(b.headers@), "Accept"@, "application/json"@);
            assert(valid_header_name("Accept"@));
            assert(valid_header_value("application/json"@));
        }
        let b = match b.header("Accept", "application/json") {
            Ok(b) => b,
            Err(e) => return Err(e),
        };
        assert(headers_view(b.headers@) =~= seq![
            ("content-type"@, "application/json"@),
            ("X-Subscription-Token"@, self.config.api_key@),
            ("Accept"@, "application/json"@),
        ]);
        let count = decimal_string(self.count);
        let mut b = b._query_param("q", query)._query_param("count", count.as_str())._query_param("text_decorations", "false");
        let ghost base = seq![("q"@, query@), ("count"@, decimal_text(self.count as nat)), ("text_decorations"@, "false"@)];
        proof {
            reveal_with_fuel(with_query_params, 6);
            assert(base.drop_last().drop_last().drop_last() =~= Seq::<(Seq<char>, Seq<char>)>::empty());
            assert(base.drop_last().drop_last() =~= seq![("q"@, query@)]);
            assert(base.drop_last() =~= seq![("q"@, query@), ("count"@, decimal_text(self.count as nat))]);
            assert(b.url@ == with_query_params(BRAVE_SEARCH_URL@, base));
        }
        let ghost with_country = match &self.config.country {
            Some(c) => base.push(("country"@, c@)),
            None => base,
        };
        if let Some(country) = &self.config.country {
            b = b._query_param("country", country.as_str());
            assert(base.push(("country"@, country@)).drop_last() =~= base);
        }
        assert(b.url@ == with_query_params(BRAVE_SEARCH_URL@, with_country));
        if let Some(search_lang) = &self.config.search_lang {
            b = b._query_param("search_lang", search_lang.as_str());
            assert(with_country.push(("search_lang"@, search_lang@)).drop_last() =~= with_country);
        }
        Ok(b)
    }
}

/// The Brave search request for a query: a GET of the search URL with the query parameters, the
/// JSON content type, the subscription token and `Accept: application/json`, and no body.
pub open spec fn is_brave_request(b: HttpRequestBuilder, config: BraveConfig, count: u8, query: Seq<char>) -> bool {
    &&& b.method@ == upper_case_text("GET"@)
    &&& b.url@ == with_query_params(BRAVE_SEARCH_URL@, brave_params(config, count, query))
    &&& headers_view(b.headers@) == seq![
        ("content-type"@, "application/json"@),
        ("X-Subscription-Token"@, config.api_key@),
        ("Accept"@, "application/json"@),
    ]
    &&& b.body is None
}

/// Whether a shared result is made of a provider result: title, URL, and description (empty when
/// there is none).
pub open spec fn is_result_of(w: WebSearchResult, e: BraveSearchResult) -> bool {
    w.title@ == e.title@ && w.url@ == e.url@ && w.description@ == match e.description {
        Some(t) => t@,
        None => Seq::<char>::empty(),
    }
}

/// The shared results made of Brave's, one for each, in order.
pub fn search_results(results: Vec<BraveSearchResult>) -> (r: Vec<WebSearchResult>)
    ensures
        r@.len() == results@.len(),
        forall|i: int| 0 <= i < results@.len() ==> is_result_of(#[trigger] r@[i], results@[i]),
{
    let mut out: Vec<WebSearchResult> = Vec::new();
    for i in 0..results.len()
        invariant
            out@.len() == i,
            forall|k: int| 0 <= k < i ==> is_result_of(#[trigger] out@[k], results@[k]),
    {
        let e = &results[i];
        let description = match &e.description {
            Some(t) => t.clone(),
            None => String::new(),
        };
        out.push(WebSearchResult { title: e.title.clone(), url: e.url.clone(), description });
    }
    out
}

/// The error of a response that could not be read.
pub fn parse_error(message: &str) -> (r: ToolError)
    ensures
        r matches ToolError::ToolExecutionError(m) && m@ == "Failed to parse Brave response: "@ + message@,
{
    let mut m = "Failed to parse Brave response: ".to_string();
    push_str(&mut m, message);
    ToolError::ToolExecutionError(m)
}

} // verus!
