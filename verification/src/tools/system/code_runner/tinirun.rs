//! Results of code runs on a tinirun server, as markdown for the LLM.

use crate::text::{decimal_text, push_str, signed_decimal_text, write_decimal, write_signed_decimal};
use crate::tools::system::code_runner::CodeLanguage;
use crate::tools::tool_core::{ToolError, ToolLog, ToolResult};
use vstd::prelude::*;

verus! {

/// Options of a run: timeout in seconds, memory limit in MB, CPU limit (IEEE-754 bits of the
/// `f32`).
#[derive(Debug, Clone, Copy, PartialEq, Eq, Structural)]
pub struct TinirunExecutorOptions {
    pub timeout_seconds: u32,
    pub memory_limit_mb: u32,
    pub cpu_limit: u32,
}

impl Default for TinirunExecutorOptions {
    fn default() -> (r: Self)
        ensures
            r.timeout_seconds == 0,
            r.memory_limit_mb == 0,
            r.cpu_limit == 0,
    {
        TinirunExecutorOptions { timeout_seconds: 0, memory_limit_mb: 0, cpu_limit: 0 }
    }
}

/// Runs code with a tinirun client: the language and the run's limits.
#[derive(Debug, Clone, Copy, PartialEq, Eq, Structural)]
pub struct TinirunExecutor {
    pub lang: CodeLanguage,
    pub timeout_seconds: u32,
    pub memory_limit_mb: u32,
    pub cpu_limit: u32,
}

/// The markdown of a finished run: a warning for a non-zero exit code, or for a timeout when there
/// is no exit code; then the output and the error output, each when not empty.
pub open spec fn run_markdown(stdout: Seq<char>, stderr: Seq<char>, exit_code: Option<i32>, timeout: bool, timeout_seconds: u32) -> Seq<char> {
    (match exit_code {
        Some(code) => if code != 0 {
            "⚠️ Program exited with code "@ + signed_decimal_text(code as int) + "\n\n"@
        } else {
            Seq::empty()
        },
        None => if timeout {
            "⚠️ Timed out after "@ + decimal_text(timeout_seconds as nat) + " seconds\n\n"@
        } else {
            Seq::empty()
        },
    }) + (if stdout.len() > 0 {
        "Output:\n"@ + stdout + "\n\n"@
    } else {
        Seq::empty()
    }) + (if stderr.len() > 0 {
        "Stderr:\n"@ + stderr + "\n"@
    } else {
        Seq::empty()
    })
}

impl TinirunExecutor {
    pub fn new(lang: CodeLanguage, options: TinirunExecutorOptions) -> (r: Self)
        ensures
            r.lang == lang,
            r.timeout_seconds == options.timeout_seconds,
            r.memory_limit_mb == options.memory_limit_mb,
            r.cpu_limit == options.cpu_limit,
    {
        TinirunExecutor {
            lang,
            timeout_seconds: options.timeout_seconds,
            memory_limit_mb: options.memory_limit_mb,
            cpu_limit: options.cpu_limit,
        }
    }

    /// The markdown answer for a finished run.
    pub fn result_markdown(&self, stdout: &str, stderr: &str, exit_code: Option<i32>, timeout: bool) -> (r: String)
        ensures
            r@ == run_markdown(stdout@, stderr@, exit_code, timeout, self.timeout_seconds),
    {
        let mut markdown = String::new();
        match exit_code {
            Some(code) => {
                if code != 0 {
                    push_str(&mut markdown, "⚠️ Program exited with code ");
                    write_signed_decimal(&mut markdown, code);
                    push_str(&mut markdown, "\n\n");
                }
            },
            None => {
                if timeout {
                    push_str(&mut markdown, "⚠️ Timed out after ");
                    write_decimal(&mut markdown, self.timeout_seconds as u64);
                    push_str(&mut markdown, " seconds\n\n");
                }
            },
        }
        let ghost head = markdown@;
        if !stdout.is_empty() {
            push_str(&mut markdown, "Output:\n");
            push_str(&mut markdown, stdout);
            push_str(&mut markdown, "\n\n");
        }
        let ghost mid = markdown@;
        if !stderr.is_empty() {
            push_str(&mut markdown, "Stderr:\n");
            push_str(&mut markdown, stderr);
            push_str(&mut markdown, "\n");
        }
        assert(markdown@ =~= run_markdown(stdout@, stderr@, exit_code, timeout, self.timeout_seconds));
        markdown
    }
}

/// The error of a run that failed: a failed build gives its message and build logs, other
/// failures their message.
pub fn run_error(message: &str, build_logs: Option<&str>) -> (r: ToolError)
    ensures
        r matches ToolError::ToolExecutionError(m) && m@ == match build_logs {
            Some(logs) => message@ + "\n## Build logs\n"@ + logs@,
            None => message@,
        },
{
    let mut m = message.to_string();
    if let Some(logs) = build_logs {
        push_str(&mut m, "\n## Build logs\n");
        push_str(&mut m, logs);
    }
    ToolError::ToolExecutionError(m)
}

/// The error of a run whose stream ended without a result.
pub fn no_output_error() -> (r: ToolError)
    ensures
        r matches ToolError::ToolExecutionError(m) && m@ == "No output"@,
{
    ToolError::ToolExecutionError("No output".to_string())
}

/// A chunk of a run's stream, with the texts that the run server's types display as: log lines,
/// output, an error (its text, and for a failed build the message and build logs), the result,
/// or an error of the stream itself.
#[derive(Debug)]
pub enum RunChunk {
    Info(String),
    Debug(String),
    Stdout(String),
    Stderr(String),
    Error { text: String, build_failure: Option<(String, String)> },
    Result { stdout: String, stderr: String, exit_code: Option<i32>, timeout: bool },
    StreamError(String),
}

/// What a run does with a chunk: send a log and go on, or finish with an answer (after sending a
/// log, for an error).
#[derive(Debug)]
pub enum RunStep {
    Continue(ToolLog),
    Finish(Option<ToolLog>, ToolResult<String>),
}

impl TinirunExecutor {
    /// The step for a chunk of the run's stream: log lines and output are logged and the run goes
    /// on; an error is logged and ends the run with its message (and a failed build's logs); the
    /// result ends the run with its markdown; an error of the stream is logged.
    pub fn on_chunk(&self, chunk: RunChunk) -> (r: RunStep)
        ensures
            match chunk {
                RunChunk::Info(t) => r matches RunStep::Continue(ToolLog::Log(l)) && l == t,
                RunChunk::Debug(t) => r matches RunStep::Continue(ToolLog::Debug(l)) && l == t,
                RunChunk::Stdout(t) => r matches RunStep::Continue(ToolLog::Result(l)) && l == t,
                RunChunk::Stderr(t) => r matches RunStep::Continue(ToolLog::Result(l)) && l == t,
                RunChunk::StreamError(t) => r matches RunStep::Continue(ToolLog::Error(l)) && l == t,
                RunChunk::Error { text, build_failure } => r matches RunStep::Finish(
                    Some(ToolLog::Error(l)),
                    Err(ToolError::ToolExecutionError(m)),
                ) && l == text && m@ == match build_failure {
                    Some((message, logs)) => message@ + "\n## Build logs\n"@ + logs@,
                    None => text@,
                },
                RunChunk::Result { stdout, stderr, exit_code, timeout } => r matches RunStep::Finish(
                    None,
                    Ok(md),
                ) && md@ == run_markdown(stdout@, stderr@, exit_code, timeout, self.timeout_seconds),
            },
    {
        match chunk {
            RunChunk::Info(t) => RunStep::Continue(ToolLog::Log(t)),
            RunChunk::Debug(t) => RunStep::Continue(ToolLog::Debug(t)),
            RunChunk::Stdout(t) => RunStep::Continue(ToolLog::Result(t)),
            RunChunk::Stderr(t) => RunStep::Continue(ToolLog::Result(t)),
            RunChunk::StreamError(t) => RunStep::Continue(ToolLog::Error(t)),
            RunChunk::Error { text, build_failure } => {
                let err = match &build_failure {
                    Some((message, logs)) => run_error(message.as_str(), Some(logs.as_str())),
                    None => run_error(text.as_str(), None),
                };
                RunStep::Finish(Some(ToolLog::Error(text)), Err(err))
            },
            RunChunk::Result { stdout, stderr, exit_code, timeout } => RunStep::Finish(
                None,
                Ok(self.result_markdown(stdout.as_str(), stderr.as_str(), exit_code, timeout)),
            ),
        }
    }
}

} // verus!
