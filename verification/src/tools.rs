//! Tools that the LLM can call: system tools, external API tools, and their configuration.

pub mod code_executor;
pub mod external_api;
pub mod http_request;
pub mod system;
pub mod tool_core;
pub mod utils;
pub mod web_search;

use crate::provider::LlmTool;
use crate::tools::external_api::web_search::WebSearchSchemas;
use crate::tools::external_api::{input_llm_tools, ChatRsExternalApiTool, ExternalApiToolInput};
use crate::tools::system::{system_llm_tools, ChatRsSystemTool, SystemToolInput, SystemToolSchemas};
use crate::tools::tool_core::{tool_descs, ToolDesc, ToolError, ToolResult};
use vstd::prelude::*;

verus! {

/// User configuration of tools when sending a chat message
#[derive(Debug)]
pub struct SendChatToolInput {
    pub system: Option<SystemToolInput>,
    pub external_apis: Option<Vec<ExternalApiToolInput>>,
}

/// The LLM tools of the external API inputs, in order; `None` when one of them names a tool that
/// the user has not saved.
pub open spec fn external_llm_tools(inputs: Seq<ExternalApiToolInput>, ts: Seq<ChatRsExternalApiTool>, schemas: WebSearchSchemas) -> Option<
    Seq<ToolDesc>,
>
    decreases inputs.len(),
{
    if inputs.len() == 0 {
        Some(Seq::empty())
    } else {
        match external_llm_tools(inputs.drop_last(), ts, schemas) {
            Some(d) => match input_llm_tools(inputs.last(), ts, schemas) {
                Some(e) => Some(d + e),
                None => None,
            },
            None => None,
        }
    }
}

/// The LLM tools of a chat input: the system tools (when asked for), then the tools of each
/// external API input, in order; `None` when a tool asked for is not among the user's.
pub open spec fn chat_llm_tools(
    input: SendChatToolInput,
    system_tools: Seq<ChatRsSystemTool>,
    external_api_tools: Seq<ChatRsExternalApiTool>,
    system_schemas: SystemToolSchemas,
    web_schemas: WebSearchSchemas,
) -> Option<Seq<ToolDesc>> {
    let sys = match input.system {
        Some(s) => system_llm_tools(s, system_tools, system_schemas),
        None => Some(Seq::empty()),
    };
    let ext = match input.external_apis {
        Some(inputs) => external_llm_tools(inputs@, external_api_tools, web_schemas),
        None => Some(Seq::empty()),
    };
    match (sys, ext) {
        (Some(a), Some(b)) => Some(a + b),
        _ => None,
    }
}

proof fn lemma_external_none_from(inputs: Seq<ExternalApiToolInput>, ts: Seq<ChatRsExternalApiTool>, schemas: WebSearchSchemas, j: int)
    requires
        0 < j <= inputs.len(),
        external_llm_tools(inputs.take(j), ts, schemas) is None,
    ensures
        external_llm_tools(inputs, ts, schemas) is None,
    decreases inputs.len() - j,
{
    if j < inputs.len() {
        assert(inputs.take(j + 1).drop_last() =~= inputs.take(j));
        lemma_external_none_from(inputs, ts, schemas, j + 1);
    } else {
        assert(inputs.take(j) =~= inputs);
    }
}

/// Get all tools from the user's input in LLM generic format, given the user's saved system and
/// external API tools.
pub fn get_llm_tools_from_input(
    input: &SendChatToolInput,
    system_tools: &[ChatRsSystemTool],
    external_api_tools: &[ChatRsExternalApiTool],
    system_schemas: &SystemToolSchemas,
    web_schemas: &WebSearchSchemas,
) -> (r: ToolResult<Vec<LlmTool>>)
    ensures
        match chat_llm_tools(*input, system_tools@, external_api_tools@, *system_schemas, *web_schemas) {
            Some(d) => r matches Ok(v) && tool_descs(v@) == d,
            None => r matches Err(ToolError::ToolNotFound),
        },
{
    let mut llm_tools: Vec<LlmTool> = Vec::new();
    if let Some(system_tool_input) = &input.system {
        let mut tools = system_tool_input.get_llm_tools(system_tools, system_schemas)?;
        llm_tools.append(&mut tools);
    }
    let ghost sys = tool_descs(llm_tools@);
    if let Some(inputs) = &input.external_apis {
        for i in 0..inputs.len()
            invariant
                external_llm_tools(inputs@.take(i as int), external_api_tools@, *web_schemas) matches Some(d)
                    && tool_descs(llm_tools@) == sys + d,
                input.external_apis == Some(*inputs),
        {
            assert(inputs@.take(i + 1).drop_last() =~= inputs@.take(i as int));
            assert(inputs@.take(i + 1).last() == inputs@[i as int]);
            match inputs[i].into_llm_tools(external_api_tools, web_schemas) {
                Ok(tools) => {
                    let ghost before = llm_tools@;
                    let ghost added = tools@;
                    let mut tools = tools;
                    llm_tools.append(&mut tools);
                    assert(tool_descs(llm_tools@) =~= tool_descs(before) + tool_descs(added));
                },
                Err(e) => {
                    proof {
                        assert(input_llm_tools(inputs@[i as int], external_api_tools@, *web_schemas) is None);
                        assert(external_llm_tools(inputs@.take(i + 1), external_api_tools@, *web_schemas) is None);
                        lemma_external_none_from(inputs@, external_api_tools@, *web_schemas, i + 1);
                    }
                    return Err(e);
                },
            }
        }
        assert(inputs@.take(inputs@.len() as int) =~= inputs@);
    } else {
        assert(tool_descs(llm_tools@) =~= sys + Seq::<ToolDesc>::empty());
    }
    Ok(llm_tools)
}

} // verus!
