//! The web search tool of the external APIs: searching the web and extracting web content, with
//! a configurable provider.

pub mod exa;

use crate::ids::Uuid;
use crate::json::{json_data, JsonData, JsonValue};
use crate::provider::{LlmTool, LlmToolType};
use crate::text::{chars_of, is_trimmed, push_str, str_eq, trim};
use crate::tools::tool_core::{get_param, make_tool, param_position, tool_descs, ToolDesc, ToolError, ToolParameters, ToolResult};
use crate::tools::utils::{instance_validation, validate_instance};
use vstd::prelude::*;
use vstd::string::StringSliceAdditionalSpecFns;

verus! {

pub const WEB_SEARCH_NAME: &'static str = "web_search";
pub const WEB_SEARCH_DESC: &'static str = "Search the web for a given query.";
pub const EXTRACT_NAME: &'static str = "web_content";
pub const EXTRACT_DESC: &'static str = "Extract content from a given URL.";

/// Default maximum number of search results.
pub const DEFAULT_COUNT: u8 = 10;

/// Default maximum number of characters of extracted web content.
pub const DEFAULT_MAX_CHARACTERS: u32 = 5000;

/// Saved configuration for the web search tool: the provider, the maximum number of results (1 to
/// 10) and the maximum number of characters of extracted content (500 to 10000).
#[derive(Debug, Clone, Copy, PartialEq, Eq, Structural)]
pub struct WebSearchConfig {
    pub provider: WebSearchProviderConfig,
    pub count: u8,
    pub max_characters: u32,
}

/// Max search results to return, unless configured.
pub fn default_count() -> (r: u8)
    ensures
        r == DEFAULT_COUNT,
{
    DEFAULT_COUNT
}

/// Max characters when extracting web content, unless configured.
pub fn default_max_characters() -> (r: u32)
    ensures
        r == DEFAULT_MAX_CHARACTERS,
{
    DEFAULT_MAX_CHARACTERS
}

/// Web search providers.
#[derive(Debug, Clone, Copy, PartialEq, Eq, Structural)]
pub enum WebSearchProviderConfig {
    Exa,
}

/// The name of a provider, which prefixes its tools' names.
pub open spec fn provider_name(p: WebSearchProviderConfig) -> Seq<char> {
    match p {
        WebSearchProviderConfig::Exa => "exa"@,
    }
}

impl WebSearchProviderConfig {
    pub fn provider_str(&self) -> (r: &'static str)
        ensures
            r@ == provider_name(*self),
    {
        match self {
            WebSearchProviderConfig::Exa => "exa",
        }
    }
}

/// Dynamic configuration for the web search tool.
#[derive(Debug, Clone, Copy, PartialEq, Eq, Structural)]
pub struct WebSearchDynamicConfig {
    /// Whether search is enabled.
    pub search: bool,
    /// Whether content extraction is enabled.
    pub extract: bool,
}

/// Input schemas of the web search tools, as JSON text.
#[derive(Debug)]
pub struct WebSearchSchemas {
    pub search: String,
    pub extract: String,
}

/// The web search tools offered under a dynamic configuration (both when there is none): search,
/// then content extraction, named after the provider.
pub open spec fn web_search_tools(
    config: WebSearchConfig,
    tool_id: Uuid,
    input: Option<WebSearchDynamicConfig>,
    schemas: WebSearchSchemas,
) -> Seq<ToolDesc> {
    (if input is None || input.unwrap().search {
        seq![
            ToolDesc {
                name: provider_name(config.provider) + "_"@ + WEB_SEARCH_NAME@,
                description: WEB_SEARCH_DESC@,
                input_schema: schemas.search@,
                tool_id,
                tool_type: LlmToolType::ExternalApi,
            },
        ]
    } else {
        Seq::empty()
    }) + (if input is None || input.unwrap().extract {
        seq![
            ToolDesc {
                name: provider_name(config.provider) + "_"@ + EXTRACT_NAME@,
                description: EXTRACT_DESC@,
                input_schema: schemas.extract@,
                tool_id,
                tool_type: LlmToolType::ExternalApi,
            },
        ]
    } else {
        Seq::empty()
    })
}

fn prefixed_name(provider: &str, name: &str) -> (r: String)
    ensures
        r@ == provider@ + "_"@ + name@,
{
    let mut r = provider.to_string();
    push_str(&mut r, "_");
    push_str(&mut r, name);
    r
}

impl WebSearchConfig {
    /// The web search tools offered under a dynamic configuration.
    pub fn get_llm_tools(&self, tool_id: Uuid, input_config: Option<&WebSearchDynamicConfig>, schemas: &WebSearchSchemas) -> (r:
        Vec<LlmTool>)
        ensures
            tool_descs(r@) == web_search_tools(
                *self,
                tool_id,
                match input_config {
                    Some(c) => Some(*c),
                    None => None,
                },
                *schemas,
            ),
    {
        let mut llm_tools: Vec<LlmTool> = Vec::new();
        let search = match input_config {
            Some(c) => c.search,
            None => true,
        };
        let extract = match input_config {
            Some(c) => c.extract,
            None => true,
        };
        let provider = self.provider.provider_str();
        if search {
            let name = prefixed_name(provider, WEB_SEARCH_NAME);
            llm_tools.push(make_tool(name.as_str(), WEB_SEARCH_DESC, schemas.search.as_str(), tool_id, LlmToolType::ExternalApi));
        }
        if extract {
            let name = prefixed_name(provider, EXTRACT_NAME);
            llm_tools.push(make_tool(name.as_str(), EXTRACT_DESC, schemas.extract.as_str(), tool_id, LlmToolType::ExternalApi));
        }
        assert(tool_descs(llm_tools@) =~= web_search_tools(
            *self,
            tool_id,
            match input_config {
                Some(c) => Some(*c),
                None => None,
            },
            *schemas,
        ));
        llm_tools
    }

    /// Validate the configuration (as JSON text) against the JSON schema of its type.
    pub fn validate(&self, config_schema: &str, config_json: &str) -> (r: ToolResult<()>)
        ensures
            match instance_validation(config_schema@, config_json@) {
                Ok(()) => r is Ok,
                Err(m) => r matches Err(ToolError::InvalidConfiguration(msg)) && msg@ == m,
            },
    {
        match validate_instance(config_schema, config_json) {
            Ok(()) => Ok(()),
            Err(m) => Err(ToolError::InvalidConfiguration(m)),
        }
    }
}

/// Position of the first occurrence of a character in a text, if any.
pub open spec fn first_position(s: Seq<char>, c: char) -> Option<int>
    decreases s.len(),
{
    if s.len() == 0 {
        None
    } else if s[0] == c {
        Some(0)
    } else {
        match first_position(s.skip(1), c) {
            Some(i) => Some(i + 1),
            None => None,
        }
    }
}

proof fn lemma_first_position(s: Seq<char>, c: char)
    ensures
        match first_position(s, c) {
            Some(i) => 0 <= i < s.len() && s[i] == c && forall|j: int| 0 <= j < i ==> s[j] != c,
            None => forall|j: int| 0 <= j < s.len() ==> s[j] != c,
        },
    decreases s.len(),
{
    if s.len() > 0 {
        lemma_first_position(s.skip(1), c);
        assert forall|j: int| 0 < j < s.len() implies s[j] == s.skip(1)[j - 1] by {}
    }
}

/// The part of a name after its first underscore, if it has one.
pub open spec fn after_first_underscore(name: Seq<char>) -> Option<Seq<char>> {
    match first_position(name, '_') {
        Some(i) => Some(name.skip(i + 1)),
        None => None,
    }
}

/// The part of a name after its first underscore, if it has one (`str::split_once('_')`).
pub fn split_after_underscore(name: &str) -> (r: Option<String>)
    ensures
        match after_first_underscore(name@) {
            Some(t) => r matches Some(rt) && rt@ == t,
            None => r is None,
        },
{
    proof {
        lemma_first_position(name@, '_');
    }
    let cs = chars_of(name);
    for i in 0..cs.len()
        invariant
            cs@ == name@,
            forall|j: int| 0 <= j < i ==> cs@[j] != '_',
            match first_position(name@, '_') {
                Some(k) => 0 <= k < name@.len() && name@[k] == '_' && forall|j: int| 0 <= j < k ==> name@[j] != '_',
                None => forall|j: int| 0 <= j < name@.len() ==> name@[j] != '_',
            },
    {
        if cs[i] == '_' {
            return Some(crate::text::suffix_from(name, i + 1));
        }
    }
    None
}

/// The web search tools.
#[derive(Debug, Clone, Copy, PartialEq, Eq, Structural)]
pub enum WebSearchToolKind {
    Search,
    Extract,
}

/// The tool that a name after its first underscore designates.
pub open spec fn web_search_tool_kind(rest: Seq<char>) -> Option<WebSearchToolKind> {
    if rest == WEB_SEARCH_NAME@ {
        Some(WebSearchToolKind::Search)
    } else if rest == EXTRACT_NAME@ {
        Some(WebSearchToolKind::Extract)
    } else {
        None
    }
}

/// A web search tool that can support multiple providers.
#[derive(Debug, Clone, Copy, PartialEq, Eq, Structural)]
pub struct WebSearchTool {
    pub provider: exa::ExaSearchTool,
}

/// What a call of a web search tool asks the provider for.
#[derive(Debug)]
pub enum WebSearchRequest {
    Search { query: String, api_key: String },
    Extract { url: String, api_key: String },
}

/// The string value of the named parameter, if it has one.
pub open spec fn string_param(params: Seq<(String, JsonValue)>, name: Seq<char>) -> Option<Seq<char>> {
    match param_position(params, name) {
        Some(i) => match json_data(params[i].1) {
            JsonData::Str(s) => Some(s),
            _ => None,
        },
        None => None,
    }
}

fn get_string_param(params: &ToolParameters, name: &str) -> (r: Option<String>)
    ensures
        match string_param(params@, name@) {
            Some(s) => r matches Some(t) && t@ == s,
            None => r is None,
        },
{
    match get_param(params, name) {
        Some(JsonValue::String(s)) => Some(s.clone()),
        _ => None,
    }
}

impl WebSearchTool {
    pub fn new(config: &WebSearchConfig) -> (r: Self)
        ensures
            r.provider.count == config.count,
            r.provider.max_characters == config.max_characters,
    {
        match config.provider {
            WebSearchProviderConfig::Exa => WebSearchTool {
                provider: exa::ExaSearchTool::new(config.count, config.max_characters),
            },
        }
    }

    /// The input schema of a tool, by the part of its name after the provider's prefix.
    pub fn input_schema<'s>(&self, tool_name: &str, schemas: &'s WebSearchSchemas) -> (r: ToolResult<&'s str>)
        ensures
            match after_first_underscore(tool_name@) {
                Some(rest) => match web_search_tool_kind(rest) {
                    Some(WebSearchToolKind::Search) => r matches Ok(s) && s@ == schemas.search@,
                    Some(WebSearchToolKind::Extract) => r matches Ok(s) && s@ == schemas.extract@,
                    None => r matches Err(ToolError::ToolNotFound),
                },
                None => r matches Err(ToolError::ToolNotFound),
            },
    {
        let rest = match split_after_underscore(tool_name) {
            Some(r) => r,
            None => return Err(ToolError::ToolNotFound),
        };
        if str_eq(rest.as_str(), WEB_SEARCH_NAME) {
            Ok(schemas.search.as_str())
        } else if str_eq(rest.as_str(), EXTRACT_NAME) {
            Ok(schemas.extract.as_str())
        } else {
            Err(ToolError::ToolNotFound)
        }
    }

    /// What a tool call asks the provider for: the API key is the first secret; a search needs a
    /// string `query` parameter and an extraction a string `url` parameter, trimmed.
    pub fn plan(&self, tool_name: &str, parameters: &ToolParameters, secrets: &[String]) -> (r: ToolResult<
        WebSearchRequest,
    >)
        ensures
            secrets@.len() == 0 ==> (r matches Err(ToolError::InvalidConfiguration(m)) && m@ == "Missing API key"@),
            secrets@.len() > 0 ==> match after_first_underscore(tool_name@) {
                Some(rest) => match web_search_tool_kind(rest) {
                    Some(WebSearchToolKind::Search) => match string_param(parameters@, "query"@) {
                        Some(q) => r matches Ok(WebSearchRequest::Search { query, api_key }) && is_trimmed(query@, q)
                            && api_key@ == secrets@[0]@,
                        None => r matches Err(ToolError::FormattingError(m)) && m@ == "Missing 'query' parameter"@,
                    },
                    Some(WebSearchToolKind::Extract) => match string_param(parameters@, "url"@) {
                        Some(u) => r matches Ok(WebSearchRequest::Extract { url, api_key }) && is_trimmed(url@, u)
                            && api_key@ == secrets@[0]@,
                        None => r matches Err(ToolError::FormattingError(m)) && m@ == "Missing 'url' parameter"@,
                    },
                    None => r matches Err(ToolError::ToolNotFound),
                },
                None => r matches Err(ToolError::ToolNotFound),
            },
    {
        proof {
            reveal_strlit("query");
            reveal_strlit("url");
        }
        if secrets.len() == 0 {
            return Err(ToolError::InvalidConfiguration("Missing API key".to_string()));
        }
        let api_key = secrets[0].clone();
        let rest = match split_after_underscore(tool_name) {
            Some(r) => r,
            None => return Err(ToolError::ToolNotFound),
        };
        if str_eq(rest.as_str(), WEB_SEARCH_NAME) {
            match get_string_param(parameters, "query") {
                Some(q) => Ok(WebSearchRequest::Search { query: trim(q.as_str()), api_key }),
                None => Err(ToolError::FormattingError("Missing 'query' parameter".to_string())),
            }
        } else if str_eq(rest.as_str(), EXTRACT_NAME) {
            match get_string_param(parameters, "url") {
                Some(u) => Ok(WebSearchRequest::Extract { url: trim(u.as_str()), api_key }),
                None => Err(ToolError::FormattingError("Missing 'url' parameter".to_string())),
            }
        } else {
            Err(ToolError::ToolNotFound)
        }
    }
}

/// The log message after a search: `Found <n> results`.
pub fn found_message(count: usize) -> (r: String)
    ensures
        r@ == "Found "@ + crate::text::decimal_text(count as nat) + " results"@,
{
    let mut m = "Found ".to_string();
    crate::text::write_decimal(&mut m, count as u64);
    push_str(&mut m, " results");
    m
}

/// The log message after an extraction: `Extracted text. Length: <n>`, `n` being the length of
/// the text in bytes.
pub fn extracted_message(text: &str) -> (r: String)
    ensures
        r@ == "Extracted text. Length: "@ + crate::text::decimal_text(text.len() as nat),
{
    let mut m = "Extracted text. Length: ".to_string();
    crate::text::write_decimal(&mut m, text.len() as u64);
    m
}

/// The log message of a failed search or extraction, with the error's message.
pub fn failure_message(kind: WebSearchToolKind, error_message: &str) -> (r: String)
    ensures
        r@ == match kind {
            WebSearchToolKind::Search => "Search error: "@,
            WebSearchToolKind::Extract => "Extraction error: "@,
        } + error_message@,
{
    let mut m = match kind {
        WebSearchToolKind::Search => "Search error: ".to_string(),
        WebSearchToolKind::Extract => "Extraction error: ".to_string(),
    };
    push_str(&mut m, error_message);
    m
}

} // verus!
