//! The Google Custom Search provider.

use crate::text::{decimal_text, push_str, write_decimal};
use crate::tools::tool_core::ToolError;
use crate::tools::utils::http_request_builder::{headers_view, param_sent, upper_case_text, with_query_params, HttpRequestBuilder};
use crate::tools::web_search::WebSearchResult;
use vstd::prelude::*;

verus! {

pub const GOOGLE_SEARCH_URL: &'static str = "https://www.googleapis.com/customsearch/v1";

/// Configuration of Google Custom Search: the API key, optional country and language codes, and
/// the search engine ID.
#[derive(Debug)]
pub struct GoogleCustomSearchConfig {
    pub api_key: String,
    pub country: Option<String>,
    pub search_lang: Option<String>,
    pub cx: String,
}

/// Searches with Google Custom Search.
#[derive(Debug)]
pub struct GoogleCustomSearchTool<'a> {
    pub config: &'a GoogleCustomSearchConfig,
    pub count: u8,
}

/// A result of Google Custom Search.
#[derive(Debug)]
pub struct GoogleSearchResult {
    pub title: String,
    pub link: String,
    pub snippet: Option<String>,
}

/// The query parameters of a search: the key, the engine, the query, the number of results (at
/// most 10, Google's maximum), and the language and country when configured.
pub open spec fn google_params(config: GoogleCustomSearchConfig, count: u8, query: Seq<char>) -> Seq<(Seq<char>, Seq<char>)> {
    let num: u8 = if count < 10 { count } else { 10 };
    let base = seq![("key"@, config.api_key@), ("cx"@, config.cx@), ("q"@, query), ("num"@, decimal_text(num as nat))];
    let with_lang = match config.search_lang {
        Some(l) => base.push(("lr"@, l@)),
        None => base,
    };
    match config.country {
        Some(c) => with_lang.push(("gl"@, c@)),
        None => with_lang,
    }
}

pub open spec fn opt_text(o: Option<String>) -> Option<Seq<char>> {
    match o {
        Some(s) => Some(s@),
        None => None,
    }
}

/// A Google search sends the query as `q`, the configured language as `lr` and the configured
/// country as `gl`, each under that name only; an unset language or country sends no such
/// parameter.
pub proof fn law_google_params(config: GoogleCustomSearchConfig, count: u8, query: Seq<char>)
    ensures
        param_sent(google_params(config, count, query), "q"@, Some(query)),
        param_sent(google_params(config, count, query), "lr"@, opt_text(config.search_lang)),
        param_sent(google_params(config, count, query), "gl"@, opt_text(config.country)),
{
    reveal_strlit("key");
    reveal_strlit("cx");
    reveal_strlit("q");
    reveal_strlit("num");
    reveal_strlit("lr");
    reveal_strlit("gl");
    let p = google_params(config, count, query);
    let num: u8 = if count < 10 { count } else { 10 };
    let base = seq![("key"@, config.api_key@), ("cx"@, config.cx@), ("q"@, query), ("num"@, decimal_text(num as nat))];
    let l = opt_text(config.search_lang);
    let c = opt_text(config.country);
    assert(forall|i: int| 0 <= i < 4 ==> p[i] == base[i]);
    assert(p.len() == 4 + (if l is Some { 1int } else { 0 }) + (if c is Some { 1int } else { 0 }));
    assert(l matches Some(lv) ==> p[4] == ("lr"@, lv));
    assert(c matches Some(cv) ==> p[p.len() - 1] == ("gl"@, cv));
    assert(p[2] == ("q"@, query));
    assert forall|i: int| 0 <= i < p.len() implies (#[trigger] p[i]).0.len() > 0 && p[i].0.len() == (if i == 0 {
        3int
    } else if i == 1 {
        2int
    } else if i == 2 {
        1int
    } else if i == 3 {
        3int
    } else {
        2int
    }) && p[i].0[0] == (if i == 0 {
        'k'
    } else if i == 1 {
        'c'
    } else if i == 2 {
        'q'
    } else if i == 3 {
        'n'
    } else if i == 4 && l is Some {
        'l'
    } else {
        'g'
    }) by {}
}

fn decimal_string(n: u8) -> (r: String)
    ensures
        r@ == decimal_text(n as nat),
{
    let mut s = String::new();
    write_decimal(&mut s, n as u64);
    assert(s@ =~= decimal_text(n as nat));
    s
}

impl<'a> GoogleCustomSearchTool<'a> {
    pub fn new(config: &'a GoogleCustomSearchConfig, count: u8) -> (r: Self)
        ensures
            r.config == config,
            r.count == count,
    {
        GoogleCustomSearchTool { config, count }
    }

    /// The search request: a GET with the query parameters.
    pub fn search_request(&self, query: &str) -> (r: HttpRequestBuilder)
        ensures
            r.method@ == upper_case_text("GET"@),
            r.url@ == with_query_params(GOOGLE_SEARCH_URL@, google_params(*self.config, self.count, query@)),
            headers_view(r.headers@) == seq![("content-type"@, "application/json"@)],
            r.body is None,
    {
        let num: u8 = if self.count < 10 { self.count } else { 10 };
        let num_text = decimal_string(num);
        let b = HttpRequestBuilder::new("GET", GOOGLE_SEARCH_URL);
        let mut b = b._query_param("key", self.config.api_key.as_str())._query_param("cx", self.config.cx.as_str())._query_param(
            "q",
            query,
        )._query_param("num", num_text.as_str());
        let ghost base = seq![("key"@, self.config.api_key@), ("cx"@, self.config.cx@), ("q"@, query@), ("num"@, decimal_text(num as nat))];
        proof {
            reveal_with_fuel(with_query_params, 6);
            assert(base.drop_last().drop_last().drop_last().drop_last() =~= Seq::<(Seq<char>, Seq<char>)>::empty());
            assert(base.drop_last().drop_last().drop_last() =~= seq![("key"@, self.config.api_key@)]);
            assert(base.drop_last().drop_last() =~= seq![("key"@, self.config.api_key@), ("cx"@, self.config.cx@)]);
            assert(base.drop_last() =~= seq![("key"@, self.config.api_key@), ("cx"@, self.config.cx@), ("q"@, query@)]);
            assert(b.url@ == with_query_params(GOOGLE_SEARCH_URL@, base));
        }
        let ghost with_lang = match &self.config.search_lang {
            Some(l) => base.push(("lr"@, l@)),
            None => base,
        };
        if let Some(search_lang) = &self.config.search_lang {
            b = b._query_param("lr", search_lang.as_str());
            assert(base.push(("lr"@, search_lang@)).drop_last() =~= base);
        }
        assert(b.url@ == with_query_params(GOOGLE_SEARCH_URL@, with_lang));
        if let Some(country) = &self.config.country {
            b = b._query_param("gl", country.as_str());
            assert(with_lang.push(("gl"@, country@)).drop_last() =~= with_lang);
        }
        b
    }
}

/// Whether a shared result is made of a provider result: title, URL, and description (empty when
/// there is none).
pub open spec fn is_result_of(w: WebSearchResult, e: GoogleSearchResult) -> bool {
    w.title@ == e.title@ && w.url@ == e.link@ && w.description@ == match e.snippet {
        Some(t) => t@,
        None => Seq::<char>::empty(),
    }
}

/// The shared results made of Google's, one for each, in order (no items is no results).
pub fn search_results(results: Vec<GoogleSearchResult>) -> (r: Vec<WebSearchResult>)
    ensures
        r@.len() == results@.len(),
        forall|i: int| 0 <= i < results@.len() ==> is_result_of(#[trigger] r@[i], results@[i]),
{
    let mut out: Vec<WebSearchResult> = Vec::new();
    for i in 0..results.len()
        invariant
            out@.len() == i,
            forall|k: int| 0 <= k < i ==> is_result_of(#[trigger] out@[k], results@[k]),
    {
        let e = &results[i];
        let description = match &e.snippet {
            Some(t) => t.clone(),
            None => String::new(),
        };
        out.push(WebSearchResult { title: e.title.clone(), url: e.link.clone(), description });
    }
    out
}

/// The error of a response that could not be read.
pub fn parse_error(message: &str) -> (r: ToolError)
    ensures
        r matches ToolError::ToolExecutionError(m) && m@ == "Failed to parse Google response: "@ + message@,
{
    let mut m = "Failed to parse Google response: ".to_string();
    push_str(&mut m, message);
    ToolError::ToolExecutionError(m)
}

} // verus!
