//! The SerpApi search provider.

use crate::text::{decimal_text, push_str, write_decimal};
use crate::tools::tool_core::ToolError;
use crate::tools::utils::http_request_builder::{headers_view, param_sent, upper_case_text, with_query_params, HttpRequestBuilder};
use crate::tools::web_search::WebSearchResult;
use vstd::prelude::*;

verus! {

pub const SERPAPI_SEARCH_URL: &'static str = "https://serpapi.com/search.json";

/// Configuration of SerpApi: the API key, optional country and language codes, and the search
/// engine (Google by default).
#[derive(Debug)]
pub struct SerpApiConfig {
    pub api_key: String,
    pub country: Option<String>,
    pub search_lang: Option<String>,
    pub engine: Option<String>,
}

/// Searches with SerpApi.
#[derive(Debug)]
pub struct SerpApiSearchTool<'a> {
    pub config: &'a SerpApiConfig,
    pub count: u8,
}

/// An organic result of SerpApi.
#[derive(Debug)]
pub struct SerpApiResult {
    pub title: String,
    pub link: String,
    pub snippet: Option<String>,
}

/// The query parameters of a search: the engine (`google` by default), the query, the API key,
/// the number of results, and the country and language when configured.
pub open spec fn serpapi_params(config: SerpApiConfig, count: u8, query: Seq<char>) -> Seq<(Seq<char>, Seq<char>)> {
    let engine = match config.engine {
        Some(e) => e@,
        None => "google"@,
    };
    let base = seq![("engine"@, engine), ("q"@, query), ("api_key"@, config.api_key@), ("num"@, decimal_text(count as nat))];
    let with_country = match config.country {
        Some(c) => base.push(("gl"@, c@)),
        None => base,
    };
    match config.search_lang {
        Some(l) => with_country.push(("hl"@, l@)),
        None => with_country,
    }
}

pub open spec fn opt_text(o: Option<String>) -> Option<Seq<char>> {
    match o {
        Some(s) => Some(s@),
        None => None,
    }
}

/// A SerpApi search sends the query as `q`, the configured country as `gl` and the configured
/// language as `hl`, each under that name only; an unset country or language sends no such
/// parameter.
pub proof fn law_serpapi_params(config: SerpApiConfig, count: u8, query: Seq<char>)
    ensures
        param_sent(serpapi_params(config, count, query), "q"@, Some(query)),
        param_sent(serpapi_params(config, count, query), "gl"@, opt_text(config.country)),
        param_sent(serpapi_params(config, count, query), "hl"@, opt_text(config.search_lang)),
{
    reveal_strlit("engine");
    reveal_strlit("q");
    reveal_strlit("api_key");
    reveal_strlit("num");
    reveal_strlit("gl");
    reveal_strlit("hl");
    let p = serpapi_params(config, count, query);
    let engine = match config.engine {
        Some(e) => e@,
        None => "google"@,
    };
    let base = seq![("engine"@, engine), ("q"@, query), ("api_key"@, config.api_key@), ("num"@, decimal_text(count as nat))];
    let c = opt_text(config.country);
    let l = opt_text(config.search_lang);
    assert(p.subrange(0, 4) =~= base);
    assert(forall|i: int| 0 <= i < 4 ==> p[i] == base[i]);
    assert(p.len() == 4 + (if c is Some { 1int } else { 0 }) + (if l is Some { 1int } else { 0 }));
    assert(c matches Some(cv) ==> p[4] == ("gl"@, cv));
    assert(l matches Some(lv) ==> p[p.len() - 1] == ("hl"@, lv));
    assert(p[1] == ("q"@, query));
    assert forall|i: int| 0 <= i < p.len() && (#[trigger] p[i]).0 == "q"@ implies p[i].1 == query by {
        if i >= 4 {
            assert(p[i].0 == "gl"@ || p[i].0 == "hl"@);
        } else {
            assert(p[i] == base[i]);
            if i == 0 {
                assert(base[0].0.len() == 6);
            } else if i == 2 {
                assert(base[2].0.len() == 7);
            } else if i == 3 {
                assert(base[3].0.len() == 3);
            } else {
                assert(i == 1);
                assert(p[1].1 == query);
            }
        }
    }
    assert forall|i: int| 0 <= i < p.len() && (#[trigger] p[i]).0 == "gl"@ implies c matches Some(cv) && p[i].1
        == cv by {
        if i < 4 {
            assert(p[i].0.len() != 2 || p[i].0 == "q"@);
        } else if i == 4 && c is Some {
        } else {
            assert(p[i].0 == "hl"@);
            assert(p[i].0[0] == 'h');
        }
    }
    assert forall|i: int| 0 <= i < p.len() && (#[trigger] p[i]).0 == "hl"@ implies l matches Some(lv) && p[i].1
        == lv by {
        if i < 4 {
            assert(p[i].0.len() != 2 || p[i].0 == "q"@);
        } else if i == p.len() - 1 && l is Some {
        } else {
            assert(p[i].0 == "gl"@);
            assert(p[i].0[0] == 'g');
        }
    }
}

fn decimal_string(n: u8) -> (r: String)
    ensures
        r@ == decimal_text(n as nat),
{
    let mut s = String::new();
    write_decimal(&mut s, n as u64);
    assert(s@ =~= decimal_text(n as nat));
    s
}

impl<'a> SerpApiSearchTool<'a> {
    pub fn new(config: &'a SerpApiConfig, count: u8) -> (r: Self)
        ensures
            r.config == config,
            r.count == count,
    {
        SerpApiSearchTool { config, count }
    }

    /// The search request: a GET with the query parameters.
    pub fn search_request(&self, query: &str) -> (r: HttpRequestBuilder)
        ensures
            r.method@ == upper_case_text("GET"@),
            r.url@ == with_query_params(SERPAPI_SEARCH_URL@, serpapi_params(*self.config, self.count, query@)),
            headers_view(r.headers@) == seq![("content-type"@, "application/json"@)],
            r.body is None,
    {
        let engine: &str = match &self.config.engine {
            Some(e) => e.as_str(),
            None => "google",
        };
        let num_text = decimal_string(self.count);
        let b = HttpRequestBuilder::new("GET", SERPAPI_SEARCH_URL);
        let mut b = b._query_param("engine", engine)._query_param("q", query)._query_param(
            "api_key",
            self.config.api_key.as_str(),
        )._query_param("num", num_text.as_str());
        let ghost base = seq![("engine"@, engine@), ("q"@, query@), ("api_key"@, self.config.api_key@), ("num"@, decimal_text(self.count as nat))];
        proof {
            reveal_with_fuel(with_query_params, 6);
            assert(base.drop_last().drop_last().drop_last().drop_last() =~= Seq::<(Seq<char>, Seq<char>)>::empty());
            assert(base.drop_last().drop_last().drop_last() =~= seq![("engine"@, engine@)]);
            assert(base.drop_last().drop_last() =~= seq![("engine"@, engine@), ("q"@, query@)]);
            assert(base.drop_last() =~= seq![("engine"@, engine@), ("q"@, query@), ("api_key"@, self.config.api_key@)]);
            assert(b.url@ == with_query_params(SERPAPI_SEARCH_URL@, base));
        }
        let ghost with_country = match &self.config.country {
            Some(c) => base.push(("gl"@, c@)),
            None => base,
        };
        if let Some(country) = &self.config.country {
            b = b._query_param("gl", country.as_str());
            assert(base.push(("gl"@, country@)).drop_last() =~= base);
        }
        assert(b.url@ == with_query_params(SERPAPI_SEARCH_URL@, with_country));
        if let Some(search_lang) = &self.config.search_lang {
            b = b._query_param("hl", search_lang.as_str());
            assert(with_country.push(("hl"@, search_lang@)).drop_last() =~= with_country);
        }
        b
    }
}

/// Whether a shared result is made of a provider result: title, URL, and description (empty when
/// there is none).
pub open spec fn is_result_of(w: WebSearchResult, e: SerpApiResult) -> bool {
    w.title@ == e.title@ && w.url@ == e.link@ && w.description@ == match e.snippet {
        Some(t) => t@,
        None => Seq::<char>::empty(),
    }
}

/// The shared results made of SerpApi's organic results, one for each, in order.
pub fn search_results(results: Vec<SerpApiResult>) -> (r: Vec<WebSearchResult>)
    ensures
        r@.len() == results@.len(),
        forall|i: int| 0 <= i < results@.len() ==> is_result_of(#[trigger] r@[i], results@[i]),
{
    let mut out: Vec<WebSearchResult> = Vec::new();
    for i in 0..results.len()
        invariant
            out@.len() == i,
            forall|k: int| 0 <= k < i ==> is_result_of(#[trigger] out@[k], results@[k]),
    {
        let e = &results[i];
        let description = match &e.snippet {
            Some(t) => t.clone(),
            None => String::new(),
        };
        out.push(WebSearchResult { title: e.title.clone(), url: e.link.clone(), description });
    }
    out
}

/// The error of a response that could not be read.
pub fn parse_error(message: &str) -> (r: ToolError)
    ensures
        r matches ToolError::ToolExecutionError(m) && m@ == "Failed to parse SerpAPI response: "@ + message@,
{
    let mut m = "Failed to parse SerpAPI response: ".to_string();
    push_str(&mut m, message);
    ToolError::ToolExecutionError(m)
}

} // verus!
