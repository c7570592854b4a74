//! System tools: the code runner, files of the chat session, and system information.

pub mod code_runner;
pub mod files;
pub mod system_info;

use crate::ids::Uuid;
use crate::provider::LlmTool;
use crate::tools::system::code_runner::{code_runner_tools, CodeRunnerConfig};
use crate::tools::system::files::{files_tools, FilesConfig, FilesInput, FilesSchemas};
use crate::tools::system::system_info::{system_info_tools, SystemInfoConfig};
use crate::tools::tool_core::{tool_descs, ToolDesc, ToolError, ToolResult};
use crate::tools::utils::{instance_validation, validate_instance};
use vstd::prelude::*;

verus! {

/// System tool configuration saved in the database
#[derive(Debug, Clone, Copy, PartialEq, Eq, Structural)]
pub enum ChatRsSystemToolConfig {
    CodeRunner(CodeRunnerConfig),
    Files(FilesConfig),
    SystemInfo,
}

impl ChatRsSystemToolConfig {
    /// Validate the configuration: a code runner configuration (as JSON text) must be valid against
    /// the JSON schema of its type; the other configurations are always valid. An error gives the
    /// message of the first violation.
    pub fn validate(&self, config_schema: &str, config_json: &str) -> (r: ToolResult<()>)
        ensures
            match *self {
                ChatRsSystemToolConfig::CodeRunner(_) => match instance_validation(config_schema@, config_json@) {
                    Ok(()) => r is Ok,
                    Err(m) => r matches Err(ToolError::InvalidConfiguration(msg)) && msg@ == m,
                },
                _ => r is Ok,
            },
    {
        match self {
            ChatRsSystemToolConfig::CodeRunner(_) => match validate_instance(config_schema, config_json) {
                Ok(()) => Ok(()),
                Err(m) => Err(ToolError::InvalidConfiguration(m)),
            },
            ChatRsSystemToolConfig::Files(config) => config.validate(),
            ChatRsSystemToolConfig::SystemInfo => Ok(()),
        }
    }
}

/// A system tool saved for a user.
#[derive(Debug, Clone, Copy, PartialEq, Eq, Structural)]
pub struct ChatRsSystemTool {
    pub id: Uuid,
    pub user_id: Uuid,
    pub data: ChatRsSystemToolConfig,
}

/// Chat input settings for system tools
#[derive(Debug, Clone, Copy, PartialEq, Eq, Structural)]
pub struct SystemToolInput {
    /// Enable/disable the code runner tool
    pub code_runner: bool,
    /// Enable/disable tools to get system information, current date/time, etc.
    pub info: bool,
    pub files: Option<FilesInput>,
}

impl Default for SystemToolInput {
    fn default() -> (r: Self)
        ensures
            !r.code_runner && !r.info && r.files is None,
    {
        SystemToolInput { code_runner: false, info: false, files: None }
    }
}

/// Input schemas of the system tools, as JSON text.
#[derive(Debug)]
pub struct SystemToolSchemas {
    pub code_runner: String,
    pub system_info: String,
    pub files: FilesSchemas,
}

/// Kinds of system tools.
#[derive(Debug, Clone, Copy, PartialEq, Eq, Structural)]
pub enum SystemToolKind {
    CodeRunner,
    Files,
    SystemInfo,
}

pub open spec fn config_kind(c: ChatRsSystemToolConfig) -> SystemToolKind {
    match c {
        ChatRsSystemToolConfig::CodeRunner(_) => SystemToolKind::CodeRunner,
        ChatRsSystemToolConfig::Files(_) => SystemToolKind::Files,
        ChatRsSystemToolConfig::SystemInfo => SystemToolKind::SystemInfo,
    }
}

/// Position of the user's first system tool of a kind, if any.
pub open spec fn first_of_kind(ts: Seq<ChatRsSystemTool>, kind: SystemToolKind) -> Option<int>
    decreases ts.len(),
{
    if ts.len() == 0 {
        None
    } else if config_kind(ts[0].data) == kind {
        Some(0)
    } else {
        match first_of_kind(ts.skip(1), kind) {
            Some(i) => Some(i + 1),
            None => None,
        }
    }
}

proof fn lemma_first_of_kind(ts: Seq<ChatRsSystemTool>, kind: SystemToolKind)
    ensures
        match first_of_kind(ts, kind) {
            Some(i) => 0 <= i < ts.len() && config_kind(ts[i].data) == kind && forall|j: int|
                0 <= j < i ==> config_kind(#[trigger] ts[j].data) != kind,
            None => forall|j: int| 0 <= j < ts.len() ==> config_kind(#[trigger] ts[j].data) != kind,
        },
    decreases ts.len(),
{
    if ts.len() > 0 {
        lemma_first_of_kind(ts.skip(1), kind);
        assert forall|j: int| 0 < j < ts.len() implies ts[j] == ts.skip(1)[j - 1] by {}
    }
}

fn find_first_of_kind(ts: &[ChatRsSystemTool], kind: SystemToolKind) -> (r: Option<usize>)
    ensures
        match r {
            Some(i) => i < ts@.len() && first_of_kind(ts@, kind) == Some(i as int) && config_kind(ts@[i as int].data) == kind,
            None => first_of_kind(ts@, kind) is None,
        },
{
    proof {
        lemma_first_of_kind(ts@, kind);
    }
    for i in 0..ts.len()
        invariant
            forall|j: int| 0 <= j < i ==> config_kind(#[trigger] ts@[j].data) != kind,
            match first_of_kind(ts@, kind) {
                Some(k) => 0 <= k < ts@.len() && config_kind(ts@[k].data) == kind && forall|j: int|
                    0 <= j < k ==> config_kind(#[trigger] ts@[j].data) != kind,
                None => forall|j: int| 0 <= j < ts@.len() ==> config_kind(#[trigger] ts@[j].data) != kind,
            },
    {
        let k = match ts[i].data {
            ChatRsSystemToolConfig::CodeRunner(_) => SystemToolKind::CodeRunner,
            ChatRsSystemToolConfig::Files(_) => SystemToolKind::Files,
            ChatRsSystemToolConfig::SystemInfo => SystemToolKind::SystemInfo,
        };
        if k == kind {
            return Some(i);
        }
    }
    None
}

/// The LLM tools for the user's input: the code runner tool, then the system information tools,
/// then the files tools, each from the user's first saved tool of its kind and only when asked
/// for. A tool asked for that the user has not saved makes the whole request fail.
pub open spec fn system_llm_tools(input: SystemToolInput, ts: Seq<ChatRsSystemTool>, schemas: SystemToolSchemas) -> Option<
    Seq<ToolDesc>,
> {
    let cr = if input.code_runner {
        match first_of_kind(ts, SystemToolKind::CodeRunner) {
            Some(i) => Some(code_runner_tools(ts[i].id, schemas.code_runner@)),
            None => None,
        }
    } else {
        Some(Seq::empty())
    };
    let info = if input.info {
        match first_of_kind(ts, SystemToolKind::SystemInfo) {
            Some(i) => Some(system_info_tools(ts[i].id, schemas.system_info@)),
            None => None,
        }
    } else {
        Some(Seq::empty())
    };
    let files = match input.files {
        Some(f) => match first_of_kind(ts, SystemToolKind::Files) {
            Some(i) => Some(files_tools(ts[i].id, Some(f), schemas.files)),
            None => None,
        },
        None => Some(Seq::empty()),
    };
    match (cr, info, files) {
        (Some(a), Some(b), Some(c)) => Some(a + b + c),
        _ => None,
    }
}

impl SystemToolInput {
    /// Get all the LLM tools given the user's input
    pub fn get_llm_tools(&self, system_tools: &[ChatRsSystemTool], schemas: &SystemToolSchemas) -> (r: ToolResult<
        Vec<LlmTool>,
    >)
        ensures
            match system_llm_tools(*self, system_tools@, *schemas) {
                Some(d) => r matches Ok(v) && tool_descs(v@) == d,
                None => r matches Err(ToolError::ToolNotFound),
            },
    {
        let mut llm_tools: Vec<LlmTool> = Vec::new();
        let ghost ts = system_tools@;
        if self.code_runner {
            match find_first_of_kind(system_tools, SystemToolKind::CodeRunner) {
                Some(i) => {
                    let config: CodeRunnerConfig = match system_tools[i].data {
                        ChatRsSystemToolConfig::CodeRunner(c) => c,
                        _ => CodeRunnerConfig { timeout_seconds: 0, memory_limit_mb: 0, cpu_limit: 0 },
                    };
                    let mut tools = config.get_llm_tools(system_tools[i].id, schemas.code_runner.as_str());
                    llm_tools.append(&mut tools);
                },
                None => return Err(ToolError::ToolNotFound),
            }
        }
        let ghost after_cr = tool_descs(llm_tools@);
        if self.info {
            match find_first_of_kind(system_tools, SystemToolKind::SystemInfo) {
                Some(i) => {
                    let config = SystemInfoConfig {};
                    let mut tools = config.get_llm_tools(system_tools[i].id, schemas.system_info.as_str());
                    let ghost before = llm_tools@;
                    let ghost added = tools@;
                    llm_tools.append(&mut tools);
                    assert(tool_descs(llm_tools@) =~= tool_descs(before) + tool_descs(added));
                },
                None => return Err(ToolError::ToolNotFound),
            }
        }
        let ghost after_info = tool_descs(llm_tools@);
        if let Some(input) = &self.files {
            match find_first_of_kind(system_tools, SystemToolKind::Files) {
                Some(i) => {
                    let config: FilesConfig = match system_tools[i].data {
                        ChatRsSystemToolConfig::Files(c) => c,
                        _ => FilesConfig { storage: crate::tools::system::files::StorageType::Local },
                    };
                    let mut tools = config.get_llm_tools(system_tools[i].id, Some(input), &schemas.files);
                    let ghost before = llm_tools@;
                    let ghost added = tools@;
                    llm_tools.append(&mut tools);
                    assert(tool_descs(llm_tools@) =~= tool_descs(before) + tool_descs(added));
                },
                None => return Err(ToolError::ToolNotFound),
            }
        }
        proof {
            let d = system_llm_tools(*self, ts, *schemas);
            assert(d is Some);
            assert(tool_descs(llm_tools@) =~= d.unwrap());
        }
        Ok(llm_tools)
    }
}

} // verus!
