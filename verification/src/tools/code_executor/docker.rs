//! Runs of code in Docker containers: the executor's settings, the build's dependency list, the
//! run command, and what the run's outcome is reported as.

use crate::ids::{hyphenated_text, Uuid};
use crate::text::{chars_of, decimal_text, is_blank, push_char, push_str, signed_decimal_text, write_decimal};
use crate::tools::http_request::{is_alnum, is_alphanumeric};
use crate::tools::system::code_runner::CodeLanguage;
use crate::tools::tool_core::{ToolError, ToolResult};
use vstd::prelude::*;

verus! {

pub const TIMEOUT_SECONDS: u32 = 30;
pub const GRACE_PERIOD_SECONDS: u32 = 5;
pub const MEMORY_LIMIT_MB: u32 = 512;
/// The default CPU limit, 0.5, as the IEEE-754 bits of an `f32`.
pub const CPU_LIMIT_BITS: u32 = 0x3F00_0000;

/// Options of a run; unset ones take the defaults. The CPU limit is the bits of an `f32`.
#[derive(Debug, Clone, Copy, PartialEq, Eq, Structural)]
pub struct DockerExecutorOptions {
    pub timeout_seconds: Option<u32>,
    pub memory_limit_mb: Option<u32>,
    pub cpu_limit: Option<u32>,
    pub network: Option<bool>,
}

impl Default for DockerExecutorOptions {
    fn default() -> (r: Self)
        ensures
            r.timeout_seconds is None,
            r.memory_limit_mb is None,
            r.cpu_limit is None,
            r.network is None,
    {
        DockerExecutorOptions { timeout_seconds: None, memory_limit_mb: None, cpu_limit: None, network: None }
    }
}

/// Runs code of a language in a Docker container, built as an image of its own.
#[derive(Debug)]
pub struct DockerExecutor {
    pub lang: CodeLanguage,
    pub timeout_seconds: u32,
    pub memory_limit_mb: u32,
    pub cpu_limit: u32,
    pub network: bool,
    pub image_tag: String,
    pub container_name: String,
}

/// Whether a name is `code-runner-` followed by the text of a random UUID.
pub open spec fn is_runner_name(name: Seq<char>) -> bool {
    exists|bits: u128| name == "code-runner-"@ + hyphenated_text(bits)
}

fn runner_name() -> (r: String)
    ensures
        is_runner_name(r@),
{
    let mut name = "code-runner-".to_string();
    let id = Uuid::new_v4();
    let t = id.to_string();
    push_str(&mut name, t.as_str());
    assert(name@ == "code-runner-"@ + hyphenated_text(id.bits));
    name
}

impl DockerExecutor {
    /// An executor with the given options, taking defaults for those unset: 30 seconds, 512 MB,
    /// half a CPU, no network. The image and container are named after fresh random UUIDs.
    pub fn new(lang: CodeLanguage, options: DockerExecutorOptions) -> (r: Self)
        ensures
            r.lang == lang,
            r.timeout_seconds == match options.timeout_seconds {
                Some(t) => t,
                None => TIMEOUT_SECONDS,
            },
            r.memory_limit_mb == match options.memory_limit_mb {
                Some(m) => m,
                None => MEMORY_LIMIT_MB,
            },
            r.cpu_limit == match options.cpu_limit {
                Some(c) => c,
                None => CPU_LIMIT_BITS,
            },
            r.network == match options.network {
                Some(n) => n,
                None => false,
            },
            is_runner_name(r.image_tag@),
            is_runner_name(r.container_name@),
    {
        DockerExecutor {
            lang,
            timeout_seconds: match options.timeout_seconds {
                Some(t) => t,
                None => TIMEOUT_SECONDS,
            },
            memory_limit_mb: match options.memory_limit_mb {
                Some(m) => m,
                None => MEMORY_LIMIT_MB,
            },
            cpu_limit: match options.cpu_limit {
                Some(c) => c,
                None => CPU_LIMIT_BITS,
            },
            network: match options.network {
                Some(n) => n,
                None => false,
            },
            image_tag: runner_name(),
            container_name: runner_name(),
        }
    }

    /// The characters that a package name keeps: alphanumeric ones, `- _ . " : / @`, and those
    /// of version constraints, `= < > ~ ^ ! ,` (as in `pandas>=1.0.0` or `lodash@^4.17`). The
    /// list reaches the package manager through an unquoted build argument, which the shell
    /// splits at spaces without reading redirections or quotes in it, so a constraint arrives as
    /// it was written; spaces, `;`, `$`, `|`, `&`, quotes other than `"`, and glob characters
    /// are left out.
    pub open spec fn package_char(c: char) -> bool {
        ||| is_alnum(c)
        ||| c == '-' || c == '_' || c == '.' || c == '"' || c == ':' || c == '/' || c == '@'
        ||| c == '=' || c == '<' || c == '>' || c == '~' || c == '^' || c == '!' || c == ','
    }

    /// A package name with the characters that are not kept left out.
    pub fn sanitize_package_name(&self, package: &str) -> (r: String)
        ensures
            r@ == package@.filter(|c: char| Self::package_char(c)),
    {
        let cs = chars_of(package);
        let ghost pred = |c: char| Self::package_char(c);
        let mut out = String::new();
        for i in 0..cs.len()
            invariant
                cs@ == package@,
                out@ == package@.take(i as int).filter(pred),
                pred == (|c: char| Self::package_char(c)),
        {
            let c = cs[i];
            assert(package@.take(i + 1) =~= package@.take(i as int).push(c));
            proof {
                package@.take(i as int).lemma_filter_push(c, pred);
            }
            if is_alphanumeric(c) || c == '-' || c == '_' || c == '.' || c == '"' || c == ':' || c == '/'
                || c == '@' || c == '=' || c == '<' || c == '>' || c == '~' || c == '^' || c == '!'
                || c == ',' {
                push_char(&mut out, c);
            }
        }
        assert(package@.take(package@.len() as int) =~= package@);
        out
    }

    /// The sanitized names of the dependencies, leaving out those that are blank, separated by
    /// spaces.
    pub fn build_dependency_string(&self, dependencies: &[String]) -> (r: String)
        ensures
            r@ == joined_with_spaces(kept_dependencies(dependencies@)),
    {
        let mut out = String::new();
        let mut count: usize = 0;
        for i in 0..dependencies.len()
            invariant
                out@ == joined_with_spaces(kept_dependencies(dependencies@.take(i as int))),
                count == kept_dependencies(dependencies@.take(i as int)).len(),
                count <= i,
        {
            let sanitized = self.sanitize_package_name(dependencies[i].as_str());
            let ghost prev = kept_dependencies(dependencies@.take(i as int));
            assert(dependencies@.take(i + 1).drop_last() =~= dependencies@.take(i as int));
            assert(dependencies@.take(i + 1).last() == dependencies@[i as int]);
            if !is_blank(sanitized.as_str()) {
                if count > 0 {
                    push_char(&mut out, ' ');
                }
                push_str(&mut out, sanitized.as_str());
                assert(prev.push(sanitized@).drop_last() =~= prev);
                assert(out@ =~= joined_with_spaces(prev.push(sanitized@)));
                count = count + 1;
            }
        }
        assert(dependencies@.take(dependencies@.len() as int) =~= dependencies@);
        out
    }

    /// The run command: the language's command under `timeout`, with the grace period added to the
    /// timeout.
    pub fn run_command(&self, cmd: &str) -> (r: Vec<String>)
        requires
            self.timeout_seconds + GRACE_PERIOD_SECONDS <= u32::MAX,
        ensures
            r@.len() == 5,
            r@[0]@ == "timeout"@,
            r@[1]@ == decimal_text((self.timeout_seconds + GRACE_PERIOD_SECONDS) as nat) + "s"@,
            r@[2]@ == "sh"@,
            r@[3]@ == "-c"@,
            r@[4]@ == cmd@,
    {
        proof {
            reveal_strlit("s");
        }
        let mut timeout = String::new();
        write_decimal(&mut timeout, (self.timeout_seconds + GRACE_PERIOD_SECONDS) as u64);
        push_char(&mut timeout, 's');
        assert(timeout@ =~= decimal_text((self.timeout_seconds + GRACE_PERIOD_SECONDS) as nat) + "s"@);
        let mut r: Vec<String> = Vec::new();
        r.push("timeout".to_string());
        r.push(timeout);
        r.push("sh".to_string());
        r.push("-c".to_string());
        r.push(cmd.to_string());
        r
    }

    /// The container's memory limit in bytes.
    pub fn memory_bytes(&self) -> (r: u32)
        requires
            self.memory_limit_mb * 1024 * 1024 <= u32::MAX,
        ensures
            r == self.memory_limit_mb * 1024 * 1024,
    {
        self.memory_limit_mb * 1024 * 1024
    }
}

/// Size and mount options of the writable `/tmp` of a container.
pub const TMPFS_OPTIONS: &'static str = "rw,noexec,nosuid,size=100m";

/// Limit on the number of processes in a container (`pids_limit`, and the `nproc` ulimit).
pub const PROCESS_LIMIT: i64 = 50;

/// The settings of the container that runs the code: its image, run command and environment, and
/// the sandbox it runs in. The CPU limit (a float) is carried as the bits of an `f32`.
#[derive(Debug)]
pub struct ContainerSettings {
    pub image: String,
    pub cmd: Vec<String>,
    pub env: Vec<String>,
    pub network_disabled: bool,
    pub readonly_rootfs: bool,
    pub tmpfs: Vec<(String, String)>,
    pub memory_bytes: i64,
    pub cpu_limit: u32,
    pub pids_limit: i64,
    /// Resource limits: name, soft and hard limit.
    pub ulimits: Vec<(String, i64, i64)>,
    pub cap_drop: Vec<String>,
    pub security_opt: Vec<String>,
}

impl DockerExecutor {
    /// The settings of the container that runs `cmd`: the built image, the run command, `HOME`
    /// under `/tmp`, network disabled unless enabled, a read-only root with a `/tmp` tmpfs, the
    /// memory limit in bytes, at most 50 processes, all capabilities dropped, and no new
    /// privileges.
    pub fn container_settings(&self, cmd: &str) -> (r: ContainerSettings)
        requires
            self.timeout_seconds + GRACE_PERIOD_SECONDS <= u32::MAX,
            self.memory_limit_mb * 1024 * 1024 <= u32::MAX,
        ensures
            r.image@ == self.image_tag@,
            r.cmd@.len() == 5,
            r.cmd@[0]@ == "timeout"@,
            r.cmd@[1]@ == decimal_text((self.timeout_seconds + GRACE_PERIOD_SECONDS) as nat) + "s"@,
            r.cmd@[2]@ == "sh"@,
            r.cmd@[3]@ == "-c"@,
            r.cmd@[4]@ == cmd@,
            r.env@.len() == 1 && r.env@[0]@ == "HOME=/tmp/home"@,
            r.network_disabled == !self.network,
            r.readonly_rootfs,
            r.tmpfs@.len() == 1 && r.tmpfs@[0].0@ == "/tmp"@ && r.tmpfs@[0].1@ == TMPFS_OPTIONS@,
            r.memory_bytes == self.memory_limit_mb * 1024 * 1024,
            r.cpu_limit == self.cpu_limit,
            r.pids_limit == 50,
            r.ulimits@.len() == 1 && r.ulimits@[0].0@ == "nproc"@ && r.ulimits@[0].1 == 50
                && r.ulimits@[0].2 == 50,
            r.cap_drop@.len() == 1 && r.cap_drop@[0]@ == "ALL"@,
            r.security_opt@.len() == 1 && r.security_opt@[0]@ == "no-new-privileges"@,
    {
        let mut env: Vec<String> = Vec::new();
        env.push("HOME=/tmp/home".to_string());
        let mut tmpfs: Vec<(String, String)> = Vec::new();
        tmpfs.push(("/tmp".to_string(), TMPFS_OPTIONS.to_string()));
        let mut ulimits: Vec<(String, i64, i64)> = Vec::new();
        ulimits.push(("nproc".to_string(), PROCESS_LIMIT, PROCESS_LIMIT));
        let mut cap_drop: Vec<String> = Vec::new();
        cap_drop.push("ALL".to_string());
        let mut security_opt: Vec<String> = Vec::new();
        security_opt.push("no-new-privileges".to_string());
        let memory = self.memory_bytes();
        ContainerSettings {
            image: self.image_tag.clone(),
            cmd: self.run_command(cmd),
            env,
            network_disabled: !self.network,
            readonly_rootfs: true,
            tmpfs,
            memory_bytes: memory as i64,
            cpu_limit: self.cpu_limit,
            pids_limit: PROCESS_LIMIT,
            ulimits,
            cap_drop,
            security_opt,
        }
    }
}

/// The sanitized names of the dependencies that are not blank, in order.
pub open spec fn kept_dependencies(deps: Seq<String>) -> Seq<Seq<char>>
    decreases deps.len(),
{
    if deps.len() == 0 {
        Seq::empty()
    } else {
        let s = deps.last()@.filter(|c: char| DockerExecutor::package_char(c));
        if crate::text::all_white_space(s) {
            kept_dependencies(deps.drop_last())
        } else {
            kept_dependencies(deps.drop_last()).push(s)
        }
    }
}

/// Texts joined with a space between them.
pub open spec fn joined_with_spaces(parts: Seq<Seq<char>>) -> Seq<char>
    decreases parts.len(),
{
    if parts.len() == 0 {
        Seq::empty()
    } else if parts.len() == 1 {
        parts[0]
    } else {
        joined_with_spaces(parts.drop_last()) + seq![' '] + parts.last()
    }
}

/// How a container's run ended.
#[derive(Debug, Clone, Copy, PartialEq, Eq, Structural)]
pub enum ContainerExit {
    /// The run did not end within the timeout.
    TimedOut,
    /// The container exited successfully.
    Success,
    /// The container exited with an error status.
    ExitCode(i64),
    /// Waiting for the container failed otherwise.
    Failed,
    /// No exit status was received.
    Unknown,
}

/// The captured output of a run, as markdown.
pub open spec fn formatted_output(stdout: Seq<char>, stderr: Seq<char>) -> Seq<char> {
    "**Output (stdout):**\n\n"@ + stdout + "\n\n**Logs (stderr):**\n\n"@ + stderr + "\n"@
}

/// The decimal text of a signed 64-bit number.
pub open spec fn i64_text(n: i64) -> Seq<char> {
    if n < 0 {
        seq!['-'] + decimal_text((-(n as int)) as nat)
    } else {
        decimal_text(n as nat)
    }
}

fn write_i64(out: &mut String, n: i64)
    ensures
        final(out)@ == old(out)@ + i64_text(n),
{
    if n < 0 {
        push_char(out, '-');
        let m: u64 = if n == i64::MIN {
            0x8000_0000_0000_0000u64
        } else {
            (-n) as u64
        };
        write_decimal(out, m);
        assert(final(out)@ =~= old(out)@ + i64_text(n));
    } else {
        write_decimal(out, n as u64);
    }
}

/// What a run is reported as, by how it ended: success, or an execution error, each with the
/// captured output.
pub open spec fn run_report(exit: ContainerExit, stdout: Seq<char>, stderr: Seq<char>) -> Result<Seq<char>, Seq<char>> {
    let out = formatted_output(stdout, stderr);
    match exit {
        ContainerExit::TimedOut => Err("❌ Code execution timed out.\n\n"@ + out),
        ContainerExit::Success => Ok("✅ Code executed successfully!\n\n"@ + out),
        ContainerExit::ExitCode(code) => Err("❌ Code execution failed with exit status "@ + i64_text(code) + ".\n\n"@ + out),
        ContainerExit::Failed => Err("❌ Code execution failed.\n\n"@ + out),
        ContainerExit::Unknown => Ok("Code executed with unknown exit status.\n\n"@ + out),
    }
}

/// The end of a text, of the given length.
pub open spec fn ends_with(t: Seq<char>, suffix: Seq<char>) -> bool {
    t.len() >= suffix.len() && t.subrange(t.len() - suffix.len(), t.len() as int) == suffix
}

/// A run is reported as a success only when the container exited successfully or with no known
/// status; a timeout, an error exit status or a failed wait is an error, marked with `❌`.
/// Either way the report ends with the run's captured output.
pub proof fn law_run_report(exit: ContainerExit, stdout: Seq<char>, stderr: Seq<char>)
    ensures
        run_report(exit, stdout, stderr) is Ok <==> (exit == ContainerExit::Success || exit
            == ContainerExit::Unknown),
        exit == ContainerExit::TimedOut ==> run_report(exit, stdout, stderr) is Err,
        match run_report(exit, stdout, stderr) {
            Ok(t) => ends_with(t, formatted_output(stdout, stderr)),
            Err(t) => ends_with(t, formatted_output(stdout, stderr)) && t.len() > 0 && t[0] == '❌',
        },
{
    reveal_strlit("❌ Code execution timed out.\n\n");
    reveal_strlit("❌ Code execution failed with exit status ");
    reveal_strlit("❌ Code execution failed.\n\n");
    let out = formatted_output(stdout, stderr);
    match run_report(exit, stdout, stderr) {
        Ok(t) => {
            assert(t.subrange(t.len() - out.len(), t.len() as int) =~= out);
        },
        Err(t) => {
            assert(t.subrange(t.len() - out.len(), t.len() as int) =~= out);
        },
    }
}

/// What a run is reported as.
pub fn run_outcome(exit: ContainerExit, stdout: &str, stderr: &str) -> (r: ToolResult<String>)
    ensures
        match run_report(exit, stdout@, stderr@) {
            Ok(t) => r matches Ok(s) && s@ == t,
            Err(t) => r matches Err(ToolError::ToolExecutionError(s)) && s@ == t,
        },
{
    let mut out = "**Output (stdout):**\n\n".to_string();
    push_str(&mut out, stdout);
    push_str(&mut out, "\n\n**Logs (stderr):**\n\n");
    push_str(&mut out, stderr);
    push_str(&mut out, "\n");
    match exit {
        ContainerExit::TimedOut => {
            let mut m = "❌ Code execution timed out.\n\n".to_string();
            push_str(&mut m, out.as_str());
            Err(ToolError::ToolExecutionError(m))
        },
        ContainerExit::Success => {
            let mut m = "✅ Code executed successfully!\n\n".to_string();
            push_str(&mut m, out.as_str());
            Ok(m)
        },
        ContainerExit::ExitCode(code) => {
            let mut m = "❌ Code execution failed with exit status ".to_string();
            write_i64(&mut m, code);
            push_str(&mut m, ".\n\n");
            push_str(&mut m, out.as_str());
            Err(ToolError::ToolExecutionError(m))
        },
        ContainerExit::Failed => {
            let mut m = "❌ Code execution failed.\n\n".to_string();
            push_str(&mut m, out.as_str());
            Err(ToolError::ToolExecutionError(m))
        },
        ContainerExit::Unknown => {
            let mut m = "Code executed with unknown exit status.\n\n".to_string();
            push_str(&mut m, out.as_str());
            Ok(m)
        },
    }
}

/// The error of a failed image build, with the build's logs.
pub fn build_failure(image_tag: &str, error: &str, build_logs: &str) -> (r: ToolError)
    ensures
        r matches ToolError::ToolExecutionError(m) && m@ == "Failed to build image '"@ + image_tag@ + "': "@ + error@
            + ". Build logs:\n\n"@ + build_logs@,
{
    let mut m = "Failed to build image '".to_string();
    push_str(&mut m, image_tag);
    push_str(&mut m, "': ");
    push_str(&mut m, error);
    push_str(&mut m, ". Build logs:\n\n");
    push_str(&mut m, build_logs);
    ToolError::ToolExecutionError(m)
}

/// The steps of a run whose failure ends it.
#[derive(Debug, Clone, Copy, PartialEq, Eq, Structural)]
pub enum RunStepKind {
    PullImage,
    CreateContainer,
    AttachContainer,
    StartContainer,
}

/// The message of a failed step: pulling the base image, or creating, attaching to or starting
/// the named container.
pub open spec fn step_failure_text(step: RunStepKind, container_name: Seq<char>, error: Seq<char>) -> Seq<char> {
    match step {
        RunStepKind::PullImage => "Error pulling image: "@ + error,
        RunStepKind::CreateContainer => "Failed to create container '"@ + container_name + "': "@ + error,
        RunStepKind::AttachContainer => "Failed to attach to container '"@ + container_name + "': "@ + error,
        RunStepKind::StartContainer => "Failed to start container '"@ + container_name + "': "@ + error,
    }
}

/// The error that ends a run when a step fails, with the message that is also logged.
pub fn step_failure(step: RunStepKind, container_name: &str, error: &str) -> (r: ToolError)
    ensures
        r matches ToolError::ToolExecutionError(m) && m@ == step_failure_text(step, container_name@, error@),
{
    let mut m = match step {
        RunStepKind::PullImage => "Error pulling image: ".to_string(),
        RunStepKind::CreateContainer => "Failed to create container '".to_string(),
        RunStepKind::AttachContainer => "Failed to attach to container '".to_string(),
        RunStepKind::StartContainer => "Failed to start container '".to_string(),
    };
    if step != RunStepKind::PullImage {
        push_str(&mut m, container_name);
        push_str(&mut m, "': ");
    }
    push_str(&mut m, error);
    ToolError::ToolExecutionError(m)
}

/// Appends a line of a container's output to the captured output.
pub fn capture_line(output: &mut String, message: &str)
    ensures
        final(output)@ == old(output)@ + message@ + "\n"@,
{
    push_str(output, message);
    push_str(output, "\n");
}

} // verus!
