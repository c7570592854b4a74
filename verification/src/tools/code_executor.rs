//! The code executor tool: runs code snippets in Docker containers.

pub mod docker;
pub mod dockerfiles;

use crate::tools::tool_core::{ToolError, ToolResult};
use vstd::prelude::*;

verus! {

/// Whether the `f32` with these IEEE-754 bits is a NaN.
pub open spec fn f32_is_nan(bits: u32) -> bool {
    (bits % 0x8000_0000) > 0x7F80_0000
}

/// Whether the `f32` with these bits compares `<= 0.0` (zeros and negative numbers; not NaN).
pub open spec fn f32_at_most_zero(bits: u32) -> bool {
    !f32_is_nan(bits) && (bits >= 0x8000_0000 || bits == 0)
}

/// Whether the `f32` with these bits compares `> 1.0` (positive numbers above one, and positive
/// infinity; not NaN).
pub open spec fn f32_above_one(bits: u32) -> bool {
    !f32_is_nan(bits) && bits < 0x8000_0000 && bits > 0x3F80_0000
}

/// Configuration of the code executor tool: optional timeout (seconds), memory limit (MB) and CPU
/// limit (the IEEE-754 bits of an `f32`).
#[derive(Debug, Clone, Copy, PartialEq, Eq, Structural)]
pub struct CodeExecutorToolConfig {
    pub timeout_seconds: Option<u32>,
    pub memory_limit_mb: Option<u32>,
    pub cpu_limit: Option<u32>,
}

impl CodeExecutorToolConfig {
    /// Check the limits: the timeout must be under 60 seconds, the memory limit under 1024 MB, and
    /// the CPU limit above 0 and at most 1. The first violation is the error.
    pub fn validate(&self) -> (r: ToolResult<()>)
        ensures
            (self.timeout_seconds matches Some(t) && t >= 60) ==> (r matches Err(ToolError::InvalidConfiguration(m))
                && m@ == "Timeout must be less than 60 seconds"@),
            !(self.timeout_seconds matches Some(t) && t >= 60) && (self.memory_limit_mb matches Some(m) && m >= 1024)
                ==> (r matches Err(ToolError::InvalidConfiguration(m)) && m@ == "Memory limit must be less than 1024 MB"@),
            !(self.timeout_seconds matches Some(t) && t >= 60) && !(self.memory_limit_mb matches Some(m) && m >= 1024)
                && (self.cpu_limit matches Some(c) && (f32_at_most_zero(c) || f32_above_one(c))) ==> (r matches Err(
                ToolError::InvalidConfiguration(m),
            ) && m@ == "CPU limit must be between 0 and 1"@),
            !(self.timeout_seconds matches Some(t) && t >= 60) && !(self.memory_limit_mb matches Some(m) && m >= 1024)
                && !(self.cpu_limit matches Some(c) && (f32_at_most_zero(c) || f32_above_one(c))) ==> r is Ok,
    {
        if let Some(timeout) = self.timeout_seconds {
            if timeout >= 60 {
                return Err(ToolError::InvalidConfiguration("Timeout must be less than 60 seconds".to_string()));
            }
        }
        if let Some(memory) = self.memory_limit_mb {
            if memory >= 1024 {
                return Err(ToolError::InvalidConfiguration("Memory limit must be less than 1024 MB".to_string()));
            }
        }
        if let Some(cpu) = self.cpu_limit {
            let nan = cpu % 0x8000_0000 > 0x7F80_0000;
            let at_most_zero = !nan && (cpu >= 0x8000_0000 || cpu == 0);
            let above_one = !nan && cpu < 0x8000_0000 && cpu > 0x3F80_0000;
            if at_most_zero || above_one {
                return Err(ToolError::InvalidConfiguration("CPU limit must be between 0 and 1".to_string()));
            }
        }
        Ok(())
    }
}

/// The code executor tool, with its configuration.
#[derive(Debug)]
pub struct CodeExecutorTool<'a> {
    pub config: &'a CodeExecutorToolConfig,
}

impl<'a> CodeExecutorTool<'a> {
    pub fn new(config: &'a CodeExecutorToolConfig) -> (r: Self)
        ensures
            r.config == config,
    {
        CodeExecutorTool { config }
    }

    /// The tool's name.
    pub fn name(&self) -> (r: &'static str)
        ensures
            r@ == "Code Executor"@,
    {
        "Code Executor"
    }
}

} // verus!
