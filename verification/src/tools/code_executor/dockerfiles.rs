//! Dockerfiles of the code runner, one per language, with their base images, code file names and
//! run commands.

use crate::tools::code_executor::docker::joined_with_spaces;
use crate::tools::system::code_runner::CodeLanguage;
use vstd::prelude::*;

verus! {

pub const JS_IMAGE: &'static str = "node:20-slim";
pub const PYTHON_IMAGE: &'static str = "python:3.13-slim";
pub const RUST_IMAGE: &'static str = "rust:1.85-slim";
pub const GO_IMAGE: &'static str = "golang:1.24";
pub const BASH_IMAGE: &'static str = "bash:5.3";

pub const JS_DOCKERFILE: &'static str = "\nFROM node:20-slim\n\nARG DEPENDENCIES\nENV PNPM_HOME=\"/opt/pnpm\"\nENV PATH=\"$PNPM_HOME:$PATH\"\n\nRUN mkdir -p /opt/pnpm && chown 1000:1000 /opt/pnpm\nRUN npm install -g pnpm@9\n\n\nUSER 1000:1000\nRUN mkdir -p /tmp/home\nWORKDIR /app\n\n\nRUN pnpm init\nRUN if [ -n \"$DEPENDENCIES\" ]; then pnpm install $DEPENDENCIES; fi\n\nCOPY main.js .\n\nCMD [\"node\", \"main.js\"]\n";

pub const TS_DOCKERFILE: &'static str = "\nFROM node:20-slim\n\nARG DEPENDENCIES\nENV PNPM_HOME=\"/opt/pnpm\"\nENV PATH=\"$PNPM_HOME:$PATH\"\n\nRUN mkdir -p /opt/pnpm && chown 1000:1000 /opt/pnpm\nRUN npm install -g pnpm@9\n\n\nUSER 1000:1000\nRUN mkdir -p /tmp/home\nWORKDIR /app\n\n\nRUN pnpm init\nRUN pnpm install tsx $DEPENDENCIES\n\nCOPY main.ts .\n\nCMD [\"pnpm\", \"tsx\", \"main.ts\"]\n";

pub const PYTHON_DOCKERFILE: &'static str = "\nFROM python:3.13-slim\n\nARG DEPENDENCIES\nENV PYTHONUSERBASE=\"/opt/python\"\nENV PATH=\"/opt/python/bin:$PATH\"\n\nRUN mkdir -p /opt/python && chown 1000:1000 /opt/python\n\n\nUSER 1000:1000\nRUN mkdir -p /tmp/home\nWORKDIR /app\n\n\nRUN if [ -n \"$DEPENDENCIES\" ]; then pip install --user --no-cache-dir $DEPENDENCIES; fi\n\nCOPY main.py .\n\nCMD [\"python\", \"main.py\"]\n";

pub const RUST_DOCKERFILE: &'static str = "\nFROM rust:1.85-slim\nRUN apt-get update -qq && apt-get install -y -qq pkg-config libssl-dev ca-certificates && apt-get clean\n\nARG DEPENDENCIES\n\n\nUSER 1000:1000\nRUN mkdir -p /tmp/home\nWORKDIR /app\n\n\nRUN cargo init --name temp\nRUN if [ -n \"$DEPENDENCIES\" ]; then cargo add $DEPENDENCIES; fi\nRUN cargo build\n\nCOPY --chown=1000:1000 main.rs src/\nRUN touch src/main.rs\nRUN cargo build\n\nCMD [\"./target/debug/temp\"]\n";

pub const GO_DOCKERFILE: &'static str = "\nFROM golang:1.24\n\nARG DEPENDENCIES\n\n\nUSER 1000:1000\nRUN mkdir -p /tmp/home\nWORKDIR /app\n\n\nRUN go mod init temp\nRUN if [ -n \"$DEPENDENCIES\" ]; then go get $DEPENDENCIES; fi\n\nCOPY main.go .\n\nCMD [\"go\", \"run\", \"main.go\"]\n";

pub const BASH_DOCKERFILE: &'static str = "\nFROM bash:5.3\n\nARG DEPENDENCIES\n\n\nUSER 1000:1000\nRUN mkdir -p /tmp/home\nWORKDIR /app\n\n\nRUN if [ -n \"$DEPENDENCIES\" ]; then apk add --no-cache $DEPENDENCIES; fi\n\nCOPY script.sh .\n\nCMD [\"bash\", \"script.sh\"]\n";

/// The Dockerfile of a language.
pub open spec fn dockerfile_text(language: CodeLanguage) -> Seq<char> {
    match language {
        CodeLanguage::JavaScript => JS_DOCKERFILE@,
        CodeLanguage::TypeScript => TS_DOCKERFILE@,
        CodeLanguage::Python => PYTHON_DOCKERFILE@,
        CodeLanguage::Rust => RUST_DOCKERFILE@,
        CodeLanguage::Go => GO_DOCKERFILE@,
        CodeLanguage::Bash => BASH_DOCKERFILE@,
    }
}

/// The base image, code file name and run command of a language.
pub open spec fn dockerfile_info(language: CodeLanguage) -> (Seq<char>, Seq<char>, Seq<char>) {
    match language {
        CodeLanguage::JavaScript => (JS_IMAGE@, "main.js"@, "node main.js"@),
        CodeLanguage::TypeScript => (JS_IMAGE@, "main.ts"@, "pnpm tsx main.ts"@),
        CodeLanguage::Python => (PYTHON_IMAGE@, "main.py"@, "python main.py"@),
        CodeLanguage::Rust => (RUST_IMAGE@, "main.rs"@, "./target/debug/temp"@),
        CodeLanguage::Go => (GO_IMAGE@, "main.go"@, "go run main.go"@),
        CodeLanguage::Bash => (BASH_IMAGE@, "script.sh"@, "bash script.sh"@),
    }
}

/// The Dockerfile of a language.
pub fn get_dockerfile(language: &CodeLanguage) -> (r: &'static str)
    ensures
        r@ == dockerfile_text(*language),
{
    match language {
        CodeLanguage::JavaScript => JS_DOCKERFILE,
        CodeLanguage::TypeScript => TS_DOCKERFILE,
        CodeLanguage::Python => PYTHON_DOCKERFILE,
        CodeLanguage::Rust => RUST_DOCKERFILE,
        CodeLanguage::Go => GO_DOCKERFILE,
        CodeLanguage::Bash => BASH_DOCKERFILE,
    }
}

/// The base image, code file name and run command of a language.
pub fn get_dockerfile_info(language: &CodeLanguage) -> (r: (&'static str, &'static str, &'static str))
    ensures
        (r.0@, r.1@, r.2@) == dockerfile_info(*language),
{
    match language {
        CodeLanguage::JavaScript => (JS_IMAGE, "main.js", "node main.js"),
        CodeLanguage::TypeScript => (JS_IMAGE, "main.ts", "pnpm tsx main.ts"),
        CodeLanguage::Python => (PYTHON_IMAGE, "main.py", "python main.py"),
        CodeLanguage::Rust => (RUST_IMAGE, "main.rs", "./target/debug/temp"),
        CodeLanguage::Go => (GO_IMAGE, "main.go", "go run main.go"),
        CodeLanguage::Bash => (BASH_IMAGE, "script.sh", "bash script.sh"),
    }
}

/// The Dockerfile of every language is built `FROM` the base image that
/// `get_dockerfile_info` gives for the language, on its first line.
pub proof fn law_dockerfile_from_base_image(language: CodeLanguage)
    ensures
        ({
            let image = dockerfile_info(language).0;
            let text = dockerfile_text(language);
            let prefix = "\nFROM "@ + image;
            prefix.len() < text.len() && text.subrange(0, prefix.len() as int) == prefix && text[prefix.len() as int] == '\n'
        }),
{
    reveal_strlit("\nFROM node:20-slim\n\nARG DEPENDENCIES\nENV PNPM_HOME=\"/opt/pnpm\"\nENV PATH=\"$PNPM_HOME:$PATH\"\n\nRUN mkdir -p /opt/pnpm && chown 1000:1000 /opt/pnpm\nRUN npm install -g pnpm@9\n\n\nUSER 1000:1000\nRUN mkdir -p /tmp/home\nWORKDIR /app\n\n\nRUN pnpm init\nRUN if [ -n \"$DEPENDENCIES\" ]; then pnpm install $DEPENDENCIES; fi\n\nCOPY main.js .\n\nCMD [\"node\", \"main.js\"]\n");
    reveal_strlit("\nFROM node:20-slim\n\nARG DEPENDENCIES\nENV PNPM_HOME=\"/opt/pnpm\"\nENV PATH=\"$PNPM_HOME:$PATH\"\n\nRUN mkdir -p /opt/pnpm && chown 1000:1000 /opt/pnpm\nRUN npm install -g pnpm@9\n\n\nUSER 1000:1000\nRUN mkdir -p /tmp/home\nWORKDIR /app\n\n\nRUN pnpm init\nRUN pnpm install tsx $DEPENDENCIES\n\nCOPY main.ts .\n\nCMD [\"pnpm\", \"tsx\", \"main.ts\"]\n");
    reveal_strlit("\nFROM python:3.13-slim\n\nARG DEPENDENCIES\nENV PYTHONUSERBASE=\"/opt/python\"\nENV PATH=\"/opt/python/bin:$PATH\"\n\nRUN mkdir -p /opt/python && chown 1000:1000 /opt/python\n\n\nUSER 1000:1000\nRUN mkdir -p /tmp/home\nWORKDIR /app\n\n\nRUN if [ -n \"$DEPENDENCIES\" ]; then pip install --user --no-cache-dir $DEPENDENCIES; fi\n\nCOPY main.py .\n\nCMD [\"python\", \"main.py\"]\n");
    reveal_strlit("\nFROM rust:1.85-slim\nRUN apt-get update -qq && apt-get install -y -qq pkg-config libssl-dev ca-certificates && apt-get clean\n\nARG DEPENDENCIES\n\n\nUSER 1000:1000\nRUN mkdir -p /tmp/home\nWORKDIR /app\n\n\nRUN cargo init --name temp\nRUN if [ -n \"$DEPENDENCIES\" ]; then cargo add $DEPENDENCIES; fi\nRUN cargo build\n\nCOPY --chown=1000:1000 main.rs src/\nRUN touch src/main.rs\nRUN cargo build\n\nCMD [\"./target/debug/temp\"]\n");
    reveal_strlit("\nFROM golang:1.24\n\nARG DEPENDENCIES\n\n\nUSER 1000:1000\nRUN mkdir -p /tmp/home\nWORKDIR /app\n\n\nRUN go mod init temp\nRUN if [ -n \"$DEPENDENCIES\" ]; then go get $DEPENDENCIES; fi\n\nCOPY main.go .\n\nCMD [\"go\", \"run\", \"main.go\"]\n");
    reveal_strlit("\nFROM bash:5.3\n\nARG DEPENDENCIES\n\n\nUSER 1000:1000\nRUN mkdir -p /tmp/home\nWORKDIR /app\n\n\nRUN if [ -n \"$DEPENDENCIES\" ]; then apk add --no-cache $DEPENDENCIES; fi\n\nCOPY script.sh .\n\nCMD [\"bash\", \"script.sh\"]\n");
    reveal_strlit("node:20-slim");
    reveal_strlit("python:3.13-slim");
    reveal_strlit("rust:1.85-slim");
    reveal_strlit("golang:1.24");
    reveal_strlit("bash:5.3");
    reveal_strlit("\nFROM ");
    let image = dockerfile_info(language).0;
    let text = dockerfile_text(language);
    let prefix = "\nFROM "@ + image;
    assert(text.subrange(0, prefix.len() as int) =~= prefix);
}

/// Whether a text has a line (between two line breaks) equal to `line`.
pub open spec fn has_line(text: Seq<char>, line: Seq<char>) -> bool {
    exists|i: int|
        0 <= i && i + line.len() + 2 <= text.len() && #[trigger] text.subrange(i, i + line.len() + 2)
            == seq!['\n'] + line + seq!['\n']
}

/// The words, each in double quotes, separated by `, `.
pub open spec fn quoted_words(words: Seq<Seq<char>>) -> Seq<char>
    decreases words.len(),
{
    if words.len() == 0 {
        Seq::empty()
    } else if words.len() == 1 {
        seq!['"'] + words[0] + seq!['"']
    } else {
        quoted_words(words.drop_last()) + ", \""@ + words.last() + seq!['"']
    }
}

/// Whether a Dockerfile copies the code file: it has a line `COPY [flags ]<file> <destination>`,
/// where the flags, if any, start with `-`.
pub open spec fn copies_file(text: Seq<char>, file: Seq<char>) -> bool {
    exists|flags: Seq<char>, dest: Seq<char>|
        (flags.len() == 0 || (flags[0] == '-' && flags.last() == ' ')) && #[trigger] has_line(
            text,
            "COPY "@ + flags + file + " "@ + dest,
        )
}

/// Whether a Dockerfile runs the command: it has a line `CMD [...]` in exec form whose words,
/// joined by spaces, are the command.
pub open spec fn runs_command(text: Seq<char>, cmd: Seq<char>) -> bool {
    exists|words: Seq<Seq<char>>|
        joined_with_spaces(words) == cmd && #[trigger] has_line(text, "CMD ["@ + quoted_words(words) + "]"@)
}

/// What the Dockerfile of a language is made of, with the base image, code file name and command
/// that `get_dockerfile_info` gives: the dependencies build argument, the unprivileged user, a
/// copy of the code file, and the command in exec form.
pub open spec fn dockerfile_parts(language: CodeLanguage) -> bool {
    let (image, file, cmd) = dockerfile_info(language);
    let text = dockerfile_text(language);
    &&& has_line(text, "FROM "@ + image)
    &&& has_line(text, "ARG DEPENDENCIES"@)
    &&& has_line(text, "USER 1000:1000"@)
    &&& copies_file(text, file)
    &&& runs_command(text, cmd)
}

proof fn lemma_js_dockerfile_parts()
    ensures
        dockerfile_parts(CodeLanguage::JavaScript),
{
    reveal_strlit("\nFROM node:20-slim\n\nARG DEPENDENCIES\nENV PNPM_HOME=\"/opt/pnpm\"\nENV PATH=\"$PNPM_HOME:$PATH\"\n\nRUN mkdir -p /opt/pnpm && chown 1000:1000 /opt/pnpm\nRUN npm install -g pnpm@9\n\n\nUSER 1000:1000\nRUN mkdir -p /tmp/home\nWORKDIR /app\n\n\nRUN pnpm init\nRUN if [ -n \"$DEPENDENCIES\" ]; then pnpm install $DEPENDENCIES; fi\n\nCOPY main.js .\n\nCMD [\"node\", \"main.js\"]\n");
    reveal_strlit("node:20-slim");
    reveal_strlit("main.js");
    reveal_strlit("node main.js");
    reveal_strlit("FROM ");
    reveal_strlit("ARG DEPENDENCIES");
    reveal_strlit("USER 1000:1000");
    reveal_strlit("COPY ");
    reveal_strlit(" ");
    reveal_strlit("CMD [");
    reveal_strlit("]");
    reveal_strlit(", \"");
    reveal_strlit("node");
    reveal_strlit("main.js");
    reveal_strlit(".");
    let text = dockerfile_text(CodeLanguage::JavaScript);
    let from_line = "FROM "@ + "node:20-slim"@;
    assert(text.subrange(0int, (0 + from_line.len() + 2) as int) =~= seq!['\n'] + from_line + seq!['\n']);
    assert(text.subrange(19int, (19 + "ARG DEPENDENCIES"@.len() + 2) as int) =~= seq!['\n'] + "ARG DEPENDENCIES"@ + seq!['\n']);
    assert(text.subrange(171int, (171 + "USER 1000:1000"@.len() + 2) as int) =~= seq!['\n'] + "USER 1000:1000"@ + seq!['\n']);
    let flags: Seq<char> = Seq::empty();
    let copy_line = "COPY "@ + flags + "main.js"@ + " "@ + "."@;
    assert(text.subrange(306int, (306 + copy_line.len() + 2) as int) =~= seq!['\n'] + copy_line + seq!['\n']);
    assert(has_line(text, copy_line));
    let words = seq!["node"@, "main.js"@];
    reveal_with_fuel(quoted_words, 3);
    reveal_with_fuel(joined_with_spaces, 3);
    assert(joined_with_spaces(words) =~= "node main.js"@);
    let cmd_line = "CMD ["@ + quoted_words(words) + "]"@;
    assert(text.subrange(322int, (322 + cmd_line.len() + 2) as int) =~= seq!['\n'] + cmd_line + seq!['\n']);
    assert(has_line(text, cmd_line));
}

proof fn lemma_ts_dockerfile_parts()
    ensures
        dockerfile_parts(CodeLanguage::TypeScript),
{
    reveal_strlit("\nFROM node:20-slim\n\nARG DEPENDENCIES\nENV PNPM_HOME=\"/opt/pnpm\"\nENV PATH=\"$PNPM_HOME:$PATH\"\n\nRUN mkdir -p /opt/pnpm && chown 1000:1000 /opt/pnpm\nRUN npm install -g pnpm@9\n\n\nUSER 1000:1000\nRUN mkdir -p /tmp/home\nWORKDIR /app\n\n\nRUN pnpm init\nRUN pnpm install tsx $DEPENDENCIES\n\nCOPY main.ts .\n\nCMD [\"pnpm\", \"tsx\", \"main.ts\"]\n");
    reveal_strlit("node:20-slim");
    reveal_strlit("main.ts");
    reveal_strlit("pnpm tsx main.ts");
    reveal_strlit("FROM ");
    reveal_strlit("ARG DEPENDENCIES");
    reveal_strlit("USER 1000:1000");
    reveal_strlit("COPY ");
    reveal_strlit(" ");
    reveal_strlit("CMD [");
    reveal_strlit("]");
    reveal_strlit(", \"");
    reveal_strlit("pnpm");
    reveal_strlit("main.ts");
    reveal_strlit("tsx");
    reveal_strlit(".");
    let text = dockerfile_text(CodeLanguage::TypeScript);
    let from_line = "FROM "@ + "node:20-slim"@;
    assert(text.subrange(0int, (0 + from_line.len() + 2) as int) =~= seq!['\n'] + from_line + seq!['\n']);
    assert(text.subrange(19int, (19 + "ARG DEPENDENCIES"@.len() + 2) as int) =~= seq!['\n'] + "ARG DEPENDENCIES"@ + seq!['\n']);
    assert(text.subrange(171int, (171 + "USER 1000:1000"@.len() + 2) as int) =~= seq!['\n'] + "USER 1000:1000"@ + seq!['\n']);
    let flags: Seq<char> = Seq::empty();
    let copy_line = "COPY "@ + flags + "main.ts"@ + " "@ + "."@;
    assert(text.subrange(274int, (274 + copy_line.len() + 2) as int) =~= seq!['\n'] + copy_line + seq!['\n']);
    assert(has_line(text, copy_line));
    let words = seq!["pnpm"@, "tsx"@, "main.ts"@];
    reveal_with_fuel(quoted_words, 4);
    reveal_with_fuel(joined_with_spaces, 4);
    assert(joined_with_spaces(words) =~= "pnpm tsx main.ts"@);
    let cmd_line = "CMD ["@ + quoted_words(words) + "]"@;
    assert(text.subrange(290int, (290 + cmd_line.len() + 2) as int) =~= seq!['\n'] + cmd_line + seq!['\n']);
    assert(has_line(text, cmd_line));
}

proof fn lemma_python_dockerfile_parts()
    ensures
        dockerfile_parts(CodeLanguage::Python),
{
    reveal_strlit("\nFROM python:3.13-slim\n\nARG DEPENDENCIES\nENV PYTHONUSERBASE=\"/opt/python\"\nENV PATH=\"/opt/python/bin:$PATH\"\n\nRUN mkdir -p /opt/python && chown 1000:1000 /opt/python\n\n\nUSER 1000:1000\nRUN mkdir -p /tmp/home\nWORKDIR /app\n\n\nRUN if [ -n \"$DEPENDENCIES\" ]; then pip install --user --no-cache-dir $DEPENDENCIES; fi\n\nCOPY main.py .\n\nCMD [\"python\", \"main.py\"]\n");
    reveal_strlit("python:3.13-slim");
    reveal_strlit("main.py");
    reveal_strlit("python main.py");
    reveal_strlit("FROM ");
    reveal_strlit("ARG DEPENDENCIES");
    reveal_strlit("USER 1000:1000");
    reveal_strlit("COPY ");
    reveal_strlit(" ");
    reveal_strlit("CMD [");
    reveal_strlit("]");
    reveal_strlit(", \"");
    reveal_strlit("python");
    reveal_strlit("main.py");
    reveal_strlit(".");
    let text = dockerfile_text(CodeLanguage::Python);
    let from_line = "FROM "@ + "python:3.13-slim"@;
    assert(text.subrange(0int, (0 + from_line.len() + 2) as int) =~= seq!['\n'] + from_line + seq!['\n']);
    assert(text.subrange(23int, (23 + "ARG DEPENDENCIES"@.len() + 2) as int) =~= seq!['\n'] + "ARG DEPENDENCIES"@ + seq!['\n']);
    assert(text.subrange(165int, (165 + "USER 1000:1000"@.len() + 2) as int) =~= seq!['\n'] + "USER 1000:1000"@ + seq!['\n']);
    let flags: Seq<char> = Seq::empty();
    let copy_line = "COPY "@ + flags + "main.py"@ + " "@ + "."@;
    assert(text.subrange(307int, (307 + copy_line.len() + 2) as int) =~= seq!['\n'] + copy_line + seq!['\n']);
    assert(has_line(text, copy_line));
    let words = seq!["python"@, "main.py"@];
    reveal_with_fuel(quoted_words, 3);
    reveal_with_fuel(joined_with_spaces, 3);
    assert(joined_with_spaces(words) =~= "python main.py"@);
    let cmd_line = "CMD ["@ + quoted_words(words) + "]"@;
    assert(text.subrange(323int, (323 + cmd_line.len() + 2) as int) =~= seq!['\n'] + cmd_line + seq!['\n']);
    assert(has_line(text, cmd_line));
}

proof fn lemma_rust_dockerfile_parts()
    ensures
        dockerfile_parts(CodeLanguage::Rust),
{
    reveal_strlit("\nFROM rust:1.85-slim\nRUN apt-get update -qq && apt-get install -y -qq pkg-config libssl-dev ca-certificates && apt-get clean\n\nARG DEPENDENCIES\n\n\nUSER 1000:1000\nRUN mkdir -p /tmp/home\nWORKDIR /app\n\n\nRUN cargo init --name temp\nRUN if [ -n \"$DEPENDENCIES\" ]; then cargo add $DEPENDENCIES; fi\nRUN cargo build\n\nCOPY --chown=1000:1000 main.rs src/\nRUN touch src/main.rs\nRUN cargo build\n\nCMD [\"./target/debug/temp\"]\n");
    reveal_strlit("rust:1.85-slim");
    reveal_strlit("main.rs");
    reveal_strlit("./target/debug/temp");
    reveal_strlit("FROM ");
    reveal_strlit("ARG DEPENDENCIES");
    reveal_strlit("USER 1000:1000");
    reveal_strlit("COPY ");
    reveal_strlit(" ");
    reveal_strlit("CMD [");
    reveal_strlit("]");
    reveal_strlit(", \"");
    reveal_strlit("src/");
    reveal_strlit("--chown=1000:1000 ");
    reveal_strlit("./target/debug/temp");
    let text = dockerfile_text(CodeLanguage::Rust);
    let from_line = "FROM "@ + "rust:1.85-slim"@;
    assert(text.subrange(0int, (0 + from_line.len() + 2) as int) =~= seq!['\n'] + from_line + seq!['\n']);
    assert(text.subrange(125int, (125 + "ARG DEPENDENCIES"@.len() + 2) as int) =~= seq!['\n'] + "ARG DEPENDENCIES"@ + seq!['\n']);
    assert(text.subrange(144int, (144 + "USER 1000:1000"@.len() + 2) as int) =~= seq!['\n'] + "USER 1000:1000"@ + seq!['\n']);
    let flags: Seq<char> = "--chown=1000:1000 "@;
    let copy_line = "COPY "@ + flags + "main.rs"@ + " "@ + "src/"@;
    assert(text.subrange(305int, (305 + copy_line.len() + 2) as int) =~= seq!['\n'] + copy_line + seq!['\n']);
    assert(has_line(text, copy_line));
    let words = seq!["./target/debug/temp"@];
    reveal_with_fuel(quoted_words, 2);
    reveal_with_fuel(joined_with_spaces, 2);
    assert(joined_with_spaces(words) =~= "./target/debug/temp"@);
    let cmd_line = "CMD ["@ + quoted_words(words) + "]"@;
    assert(text.subrange(380int, (380 + cmd_line.len() + 2) as int) =~= seq!['\n'] + cmd_line + seq!['\n']);
    assert(has_line(text, cmd_line));
}

proof fn lemma_go_dockerfile_parts()
    ensures
        dockerfile_parts(CodeLanguage::Go),
{
    reveal_strlit("\nFROM golang:1.24\n\nARG DEPENDENCIES\n\n\nUSER 1000:1000\nRUN mkdir -p /tmp/home\nWORKDIR /app\n\n\nRUN go mod init temp\nRUN if [ -n \"$DEPENDENCIES\" ]; then go get $DEPENDENCIES; fi\n\nCOPY main.go .\n\nCMD [\"go\", \"run\", \"main.go\"]\n");
    reveal_strlit("golang:1.24");
    reveal_strlit("main.go");
    reveal_strlit("go run main.go");
    reveal_strlit("FROM ");
    reveal_strlit("ARG DEPENDENCIES");
    reveal_strlit("USER 1000:1000");
    reveal_strlit("COPY ");
    reveal_strlit(" ");
    reveal_strlit("CMD [");
    reveal_strlit("]");
    reveal_strlit(", \"");
    reveal_strlit("go");
    reveal_strlit("run");
    reveal_strlit("main.go");
    reveal_strlit(".");
    let text = dockerfile_text(CodeLanguage::Go);
    let from_line = "FROM "@ + "golang:1.24"@;
    assert(text.subrange(0int, (0 + from_line.len() + 2) as int) =~= seq!['\n'] + from_line + seq!['\n']);
    assert(text.subrange(18int, (18 + "ARG DEPENDENCIES"@.len() + 2) as int) =~= seq!['\n'] + "ARG DEPENDENCIES"@ + seq!['\n']);
    assert(text.subrange(37int, (37 + "USER 1000:1000"@.len() + 2) as int) =~= seq!['\n'] + "USER 1000:1000"@ + seq!['\n']);
    let flags: Seq<char> = Seq::empty();
    let copy_line = "COPY "@ + flags + "main.go"@ + " "@ + "."@;
    assert(text.subrange(173int, (173 + copy_line.len() + 2) as int) =~= seq!['\n'] + copy_line + seq!['\n']);
    assert(has_line(text, copy_line));
    let words = seq!["go"@, "run"@, "main.go"@];
    reveal_with_fuel(quoted_words, 4);
    reveal_with_fuel(joined_with_spaces, 4);
    assert(joined_with_spaces(words) =~= "go run main.go"@);
    let cmd_line = "CMD ["@ + quoted_words(words) + "]"@;
    assert(text.subrange(189int, (189 + cmd_line.len() + 2) as int) =~= seq!['\n'] + cmd_line + seq!['\n']);
    assert(has_line(text, cmd_line));
}

proof fn lemma_bash_dockerfile_parts()
    ensures
        dockerfile_parts(CodeLanguage::Bash),
{
    reveal_strlit("\nFROM bash:5.3\n\nARG DEPENDENCIES\n\n\nUSER 1000:1000\nRUN mkdir -p /tmp/home\nWORKDIR /app\n\n\nRUN if [ -n \"$DEPENDENCIES\" ]; then apk add --no-cache $DEPENDENCIES; fi\n\nCOPY script.sh .\n\nCMD [\"bash\", \"script.sh\"]\n");
    reveal_strlit("bash:5.3");
    reveal_strlit("script.sh");
    reveal_strlit("bash script.sh");
    reveal_strlit("FROM ");
    reveal_strlit("ARG DEPENDENCIES");
    reveal_strlit("USER 1000:1000");
    reveal_strlit("COPY ");
    reveal_strlit(" ");
    reveal_strlit("CMD [");
    reveal_strlit("]");
    reveal_strlit(", \"");
    reveal_strlit("bash");
    reveal_strlit("script.sh");
    reveal_strlit(".");
    let text = dockerfile_text(CodeLanguage::Bash);
    let from_line = "FROM "@ + "bash:5.3"@;
    assert(text.subrange(0int, (0 + from_line.len() + 2) as int) =~= seq!['\n'] + from_line + seq!['\n']);
    assert(text.subrange(15int, (15 + "ARG DEPENDENCIES"@.len() + 2) as int) =~= seq!['\n'] + "ARG DEPENDENCIES"@ + seq!['\n']);
    assert(text.subrange(34int, (34 + "USER 1000:1000"@.len() + 2) as int) =~= seq!['\n'] + "USER 1000:1000"@ + seq!['\n']);
    let flags: Seq<char> = Seq::empty();
    let copy_line = "COPY "@ + flags + "script.sh"@ + " "@ + "."@;
    assert(text.subrange(161int, (161 + copy_line.len() + 2) as int) =~= seq!['\n'] + copy_line + seq!['\n']);
    assert(has_line(text, copy_line));
    let words = seq!["bash"@, "script.sh"@];
    reveal_with_fuel(quoted_words, 3);
    reveal_with_fuel(joined_with_spaces, 3);
    assert(joined_with_spaces(words) =~= "bash script.sh"@);
    let cmd_line = "CMD ["@ + quoted_words(words) + "]"@;
    assert(text.subrange(179int, (179 + cmd_line.len() + 2) as int) =~= seq!['\n'] + cmd_line + seq!['\n']);
    assert(has_line(text, cmd_line));
}

/// The Dockerfile of every language takes the dependencies as a build argument, runs as the
/// unprivileged user 1000, copies the code file that `get_dockerfile_info` names, and runs the
/// command that it gives (the words of the `CMD` array joined by spaces), from its base image.
pub proof fn law_dockerfile_parts(language: CodeLanguage)
    ensures
        dockerfile_parts(language),
{
    match language {
        CodeLanguage::JavaScript => lemma_js_dockerfile_parts(),
        CodeLanguage::TypeScript => lemma_ts_dockerfile_parts(),
        CodeLanguage::Python => lemma_python_dockerfile_parts(),
        CodeLanguage::Rust => lemma_rust_dockerfile_parts(),
        CodeLanguage::Go => lemma_go_dockerfile_parts(),
        CodeLanguage::Bash => lemma_bash_dockerfile_parts(),
    }
}

} // verus!
