//! The code runner tool: runs a code snippet in a sandboxed environment.

pub mod tinirun;

use crate::ids::Uuid;
use crate::provider::{LlmTool, LlmToolType};
use crate::tools::tool_core::{make_tool, tool_descs, ToolDesc};
use vstd::prelude::*;

verus! {

/// Name of the code runner tool.
pub const CODE_RUNNER_NAME: &'static str = "code_runner";

/// Description of the code runner tool.
pub const CODE_RUNNER_DESCRIPTION: &'static str = "Run code snippet in a sandboxed environment. Any output files should be written to the `/var/output` directory.";

/// Default timeout of a run, in seconds.
pub const DEFAULT_TIMEOUT_SECONDS: u32 = 30;

/// Default memory limit of a run, in MB.
pub const DEFAULT_MEMORY_LIMIT_MB: u32 = 512;

/// Languages that code can be run in.
#[derive(Debug, Clone, Copy, PartialEq, Eq, Structural)]
pub enum CodeLanguage {
    Python,
    JavaScript,
    TypeScript,
    Rust,
    Go,
    Bash,
}

/// Configuration for the code runner tool: timeout in seconds (5 to 60), memory limit in MB (100 to
/// 1024) and CPU limit (0.1 to 1.2, held as the IEEE-754 bits of the `f32`).
#[derive(Debug, Clone, Copy, PartialEq, Eq, Structural)]
pub struct CodeRunnerConfig {
    pub timeout_seconds: u32,
    pub memory_limit_mb: u32,
    pub cpu_limit: u32,
}

/// Default timeout of a run, in seconds.
pub fn default_timeout() -> (r: u32)
    ensures
        r == DEFAULT_TIMEOUT_SECONDS,
{
    DEFAULT_TIMEOUT_SECONDS
}

/// Default memory limit of a run, in MB.
pub fn default_memory_limit() -> (r: u32)
    ensures
        r == DEFAULT_MEMORY_LIMIT_MB,
{
    DEFAULT_MEMORY_LIMIT_MB
}

/// The code runner tool, described with the given input schema.
pub open spec fn code_runner_tools(tool_id: Uuid, schema: Seq<char>) -> Seq<ToolDesc> {
    seq![
        ToolDesc {
            name: CODE_RUNNER_NAME@,
            description: CODE_RUNNER_DESCRIPTION@,
            input_schema: schema,
            tool_id,
            tool_type: LlmToolType::System,
        },
    ]
}

impl CodeRunnerConfig {
    /// The LLM tools of the code runner: the single `code_runner` tool.
    pub fn get_llm_tools(&self, tool_id: Uuid, input_schema: &str) -> (r: Vec<LlmTool>)
        ensures
            tool_descs(r@) == code_runner_tools(tool_id, input_schema@),
    {
        let mut tools: Vec<LlmTool> = Vec::new();
        tools.push(make_tool(CODE_RUNNER_NAME, CODE_RUNNER_DESCRIPTION, input_schema, tool_id, LlmToolType::System));
        assert(tool_descs(tools@) =~= code_runner_tools(tool_id, input_schema@));
        tools
    }
}

/// Tool to run code snippets in a sandboxed environment.
#[derive(Debug)]
pub struct CodeRunner<'a> {
    pub config: &'a CodeRunnerConfig,
}

impl<'a> CodeRunner<'a> {
    pub fn new(config: &'a CodeRunnerConfig) -> (r: Self)
        ensures
            r.config == config,
    {
        CodeRunner { config }
    }

    /// The options of a run: the configured limits.
    pub fn executor_options(&self) -> (r: tinirun::TinirunExecutorOptions)
        ensures
            r.timeout_seconds == self.config.timeout_seconds,
            r.memory_limit_mb == self.config.memory_limit_mb,
            r.cpu_limit == self.config.cpu_limit,
    {
        tinirun::TinirunExecutorOptions {
            timeout_seconds: self.config.timeout_seconds,
            memory_limit_mb: self.config.memory_limit_mb,
            cpu_limit: self.config.cpu_limit,
        }
    }
}

} // verus!
