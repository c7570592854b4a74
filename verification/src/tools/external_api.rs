//! External API tools: tools that call outside services, configured by the user.

pub mod web_search;

use crate::ids::Uuid;
use crate::provider::LlmTool;
use crate::tools::external_api::web_search::{
    web_search_tools, WebSearchConfig, WebSearchDynamicConfig, WebSearchSchemas, WebSearchTool,
};
use crate::tools::tool_core::{tool_descs, ToolDesc, ToolError, ToolResult};
use crate::tools::utils::instance_validation;
use vstd::prelude::*;

verus! {

/// External API tool configuration saved in the database
#[derive(Debug, Clone, Copy, PartialEq, Eq, Structural)]
pub enum ChatRsExternalApiToolConfig {
    WebSearch(WebSearchConfig),
}

impl ChatRsExternalApiToolConfig {
    /// Validate the configuration (as JSON text) against the JSON schema of its type.
    pub fn validate(&self, config_schema: &str, config_json: &str) -> (r: ToolResult<()>)
        ensures
            match instance_validation(config_schema@, config_json@) {
                Ok(()) => r is Ok,
                Err(m) => r matches Err(ToolError::InvalidConfiguration(msg)) && msg@ == m,
            },
    {
        match self {
            ChatRsExternalApiToolConfig::WebSearch(config) => config.validate(config_schema, config_json),
        }
    }

    /// The executor of the configured tool.
    pub fn build_executor(&self) -> (r: WebSearchTool)
        ensures
            match *self {
                ChatRsExternalApiToolConfig::WebSearch(c) => r.provider.count == c.count
                    && r.provider.max_characters == c.max_characters,
            },
    {
        match self {
            ChatRsExternalApiToolConfig::WebSearch(config) => WebSearchTool::new(config),
        }
    }
}

/// An external API tool saved for a user.
#[derive(Debug, Clone, Copy, PartialEq, Eq, Structural)]
pub struct ChatRsExternalApiTool {
    pub id: Uuid,
    pub user_id: Uuid,
    pub data: ChatRsExternalApiToolConfig,
}

/// Dynamic configuration of an external API tool, set on a chat.
#[derive(Debug, Clone, Copy, PartialEq, Eq, Structural)]
pub enum ExternalApiToolInputConfig {
    WebSearch(WebSearchDynamicConfig),
}

/// Chat input settings for an external API tool
#[derive(Debug, Clone, Copy, PartialEq, Eq, Structural)]
pub struct ExternalApiToolInput {
    /// ID of the external API tool
    pub id: Uuid,
    /// Dynamic configuration for the external API tool (set permissions, features, etc.)
    pub config: Option<ExternalApiToolInputConfig>,
}

/// Position of the first saved tool with the given ID, if any.
pub open spec fn tool_position(ts: Seq<ChatRsExternalApiTool>, id: Uuid) -> Option<int>
    decreases ts.len(),
{
    if ts.len() == 0 {
        None
    } else if ts[0].id == id {
        Some(0)
    } else {
        match tool_position(ts.skip(1), id) {
            Some(i) => Some(i + 1),
            None => None,
        }
    }
}

proof fn lemma_tool_position(ts: Seq<ChatRsExternalApiTool>, id: Uuid)
    ensures
        match tool_position(ts, id) {
            Some(i) => 0 <= i < ts.len() && ts[i].id == id && forall|j: int| 0 <= j < i ==> (#[trigger] ts[j]).id != id,
            None => forall|j: int| 0 <= j < ts.len() ==> (#[trigger] ts[j]).id != id,
        },
    decreases ts.len(),
{
    if ts.len() > 0 {
        lemma_tool_position(ts.skip(1), id);
        assert forall|j: int| 0 < j < ts.len() implies ts[j] == ts.skip(1)[j - 1] by {}
    }
}

/// The LLM tools of an input: those of the user's saved tool with the input's ID, under the
/// input's dynamic configuration; `None` when the user has no such tool.
pub open spec fn input_llm_tools(input: ExternalApiToolInput, ts: Seq<ChatRsExternalApiTool>, schemas: WebSearchSchemas) -> Option<
    Seq<ToolDesc>,
> {
    match tool_position(ts, input.id) {
        Some(i) => match ts[i].data {
            ChatRsExternalApiToolConfig::WebSearch(c) => Some(
                web_search_tools(
                    c,
                    ts[i].id,
                    match input.config {
                        Some(ExternalApiToolInputConfig::WebSearch(d)) => Some(d),
                        None => None,
                    },
                    schemas,
                ),
            ),
        },
        None => None,
    }
}

impl ExternalApiToolInput {
    /// Get all the LLM tools given the user's input
    pub fn into_llm_tools(&self, external_api_tools: &[ChatRsExternalApiTool], schemas: &WebSearchSchemas) -> (r:
        ToolResult<Vec<LlmTool>>)
        ensures
            match input_llm_tools(*self, external_api_tools@, *schemas) {
                Some(d) => r matches Ok(v) && tool_descs(v@) == d,
                None => r matches Err(ToolError::ToolNotFound),
            },
    {
        proof {
            lemma_tool_position(external_api_tools@, self.id);
        }
        let mut found: Option<usize> = None;
        for i in 0..external_api_tools.len()
            invariant
                found is None ==> forall|j: int| 0 <= j < i ==> (#[trigger] external_api_tools@[j]).id != self.id,
                found matches Some(k) ==> tool_position(external_api_tools@, self.id) == Some(k as int) && k < external_api_tools@.len(),
                match tool_position(external_api_tools@, self.id) {
                    Some(p) => 0 <= p < external_api_tools@.len() && external_api_tools@[p].id == self.id && forall|j: int|
                        0 <= j < p ==> (#[trigger] external_api_tools@[j]).id != self.id,
                    None => forall|j: int| 0 <= j < external_api_tools@.len() ==> (#[trigger] external_api_tools@[j]).id != self.id,
                },
        {
            if found.is_none() && external_api_tools[i].id == self.id {
                found = Some(i);
            }
        }
        let i = match found {
            Some(i) => i,
            None => return Err(ToolError::ToolNotFound),
        };
        let tool = &external_api_tools[i];
        match &tool.data {
            ChatRsExternalApiToolConfig::WebSearch(web_search_config) => {
                let dynamic_config = match &self.config {
                    Some(ExternalApiToolInputConfig::WebSearch(config)) => Some(config),
                    None => None,
                };
                Ok(web_search_config.get_llm_tools(tool.id, dynamic_config, schemas))
            },
        }
    }
}

} // verus!
