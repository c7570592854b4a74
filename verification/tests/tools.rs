use rs_chat::ids::Uuid;
use rs_chat::json::{to_json_text, JsonValue};
use rs_chat::provider::LlmToolType;
use rs_chat::tools::code_executor::docker::{step_failure, RunStepKind, run_outcome, ContainerExit, DockerExecutor, DockerExecutorOptions};
use rs_chat::tools::code_executor::dockerfiles::{get_dockerfile, get_dockerfile_info};
use rs_chat::tools::code_executor::CodeExecutorToolConfig;
use rs_chat::tools::external_api::web_search::exa::{extract_text, ExaExtractExtras, ExaExtractResult, ExaSearchTool};
use rs_chat::tools::external_api::web_search::{
    default_count, default_max_characters, WebSearchConfig, WebSearchDynamicConfig, WebSearchProviderConfig,
    WebSearchRequest, WebSearchSchemas, WebSearchTool,
};
use rs_chat::tools::external_api::{
    ChatRsExternalApiTool, ChatRsExternalApiToolConfig, ExternalApiToolInput, ExternalApiToolInputConfig,
};
use rs_chat::tools::get_llm_tools_from_input;
use rs_chat::tools::system::code_runner::tinirun::{RunChunk, RunStep, TinirunExecutor, TinirunExecutorOptions};
use rs_chat::tools::system::code_runner::{default_memory_limit, default_timeout, CodeLanguage, CodeRunnerConfig};
use rs_chat::tools::system::files::{read_file_result, dir_path_example, file_path_example, file_created_message, filter_by_dir, Files, FilesConfig, FilesInput, FilesSchemas, StorageType};
use rs_chat::tools::system::system_info::SystemInfo;
use rs_chat::tools::system::{ChatRsSystemTool, ChatRsSystemToolConfig, SystemToolInput, SystemToolSchemas};
use rs_chat::tools::tool_core::{ToolError, ToolLog, ToolParameters, ToolResponseFormat};
use rs_chat::tools::web_search as old_web_search;
use rs_chat::tools::SendChatToolInput;

fn schemas() -> SystemToolSchemas {
    SystemToolSchemas {
        code_runner: "{\"cr\":1}".to_string(),
        system_info: "{\"si\":1}".to_string(),
        files: FilesSchemas { read_file: "{\"r\":1}".to_string(), list_files: "{\"l\":1}".to_string(), write_file: "{\"w\":1}".to_string() },
    }
}

fn web_schemas() -> WebSearchSchemas {
    WebSearchSchemas { search: "{\"q\":1}".to_string(), extract: "{\"u\":1}".to_string() }
}

fn saved_system_tools() -> Vec<ChatRsSystemTool> {
    let user = Uuid::from_u128(1);
    vec![
        ChatRsSystemTool { id: Uuid::from_u128(10), user_id: user, data: ChatRsSystemToolConfig::SystemInfo },
        ChatRsSystemTool {
            id: Uuid::from_u128(11),
            user_id: user,
            data: ChatRsSystemToolConfig::CodeRunner(CodeRunnerConfig { timeout_seconds: 30, memory_limit_mb: 512, cpu_limit: 0.5f32.to_bits() }),
        },
        ChatRsSystemTool { id: Uuid::from_u128(12), user_id: user, data: ChatRsSystemToolConfig::Files(FilesConfig { storage: StorageType::Local }) },
    ]
}

#[test]
fn defaults_and_examples() {
    assert_eq!(default_timeout(), 30);
    assert_eq!(default_memory_limit(), 512);
    assert_eq!(default_count(), 10);
    assert_eq!(default_max_characters(), 5000);
    assert_eq!(old_web_search::default_count(), 10);
    assert_eq!(dir_path_example(), "foo/dir");
    assert_eq!(file_path_example(), "foo/file.txt");
    assert_eq!(WebSearchProviderConfig::Exa.provider_str(), "exa");
}

#[test]
fn system_tools_for_input() {
    let input = SystemToolInput { code_runner: true, info: true, files: Some(FilesInput { read: true, write: false }) };
    let tools = input.get_llm_tools(&saved_system_tools(), &schemas()).unwrap();
    let names: Vec<&str> = tools.iter().map(|t| t.name.as_str()).collect();
    assert_eq!(names, vec!["code_runner", "system_datetime_now", "system_server_url", "read_file", "list_files"]);
    assert_eq!(tools[0].tool_id, Uuid::from_u128(11));
    assert_eq!(tools[0].input_schema, "{\"cr\":1}");
    assert_eq!(tools[1].tool_id, Uuid::from_u128(10));
    assert_eq!(tools[3].tool_id, Uuid::from_u128(12));
    assert!(tools.iter().all(|t| t.tool_type == LlmToolType::System));

    let missing = SystemToolInput { code_runner: true, info: false, files: None };
    let only_info = vec![saved_system_tools().remove(0)];
    assert!(matches!(missing.get_llm_tools(&only_info, &schemas()), Err(ToolError::ToolNotFound)));
    let none = SystemToolInput::default().get_llm_tools(&[], &schemas()).unwrap();
    assert!(none.is_empty());
}

#[test]
fn files_tool_permissions_and_helpers() {
    let config = FilesConfig { storage: StorageType::Local };
    let all = config.get_llm_tools(Uuid::from_u128(3), None, &schemas().files);
    assert_eq!(all.iter().map(|t| t.name.as_str()).collect::<Vec<_>>(), vec!["read_file", "list_files", "write_file"]);
    let write_only = config.get_llm_tools(Uuid::from_u128(3), Some(&FilesInput { read: false, write: true }), &schemas().files);
    assert_eq!(write_only.len(), 1);
    assert_eq!(write_only[0].description, "Write a file in the current chat session");

    let user = Uuid::from_u128(1);
    let session = Uuid::from_u128(2);
    let files = Files::new(&user, &session, None, &config);
    let s = schemas();
    assert_eq!(files.input_schema("write_file", &s.files).unwrap(), "{\"w\":1}");
    assert!(matches!(files.input_schema("delete_file", &s.files), Err(ToolError::ToolNotFound)));
    assert_eq!(files.storage().base_path, "/data/storage");
    let files = Files::new(&user, &session, Some("/srv/"), &config);
    assert_eq!(files.storage().base_path, "/srv/storage");

    let paths = vec!["foo/a.txt".to_string(), "bar/b.txt".to_string(), "foo/dir/c".to_string()];
    assert_eq!(filter_by_dir(paths.clone(), Some("foo/")), vec!["foo/a.txt".to_string(), "foo/dir/c".to_string()]);
    assert_eq!(filter_by_dir(paths.clone(), None), paths);
    assert_eq!(
        file_created_message("notes.txt", &Uuid::from_u128(0xab)),
        "File 'notes.txt' created with ID 00000000-0000-0000-0000-0000000000ab"
    );
}

#[test]
fn system_info_tool() {
    let info = SystemInfo::new("https://chat.example.com");
    let (url, format) = info.execute("system_server_url").unwrap();
    assert_eq!(url, "https://chat.example.com");
    assert_eq!(format, ToolResponseFormat::Text);
    let (now, _) = info.execute("system_datetime_now").unwrap();
    assert!(now.contains('T'));
    assert!(now.len() >= 25);
    assert!(now.ends_with("+00:00"));
    let b = now.as_bytes();
    assert_eq!((b[4], b[7], b[10], b[13], b[16]), (b'-', b'-', b'T', b':', b':'));
    assert!(matches!(info.execute("server_url"), Err(ToolError::ToolNotFound)));
    assert!(matches!(info.execute("system_other"), Err(ToolError::ToolNotFound)));
}

fn web_config() -> WebSearchConfig {
    WebSearchConfig { provider: WebSearchProviderConfig::Exa, count: 5, max_characters: 1000 }
}

#[test]
fn web_search_tools_and_plans() {
    let config = web_config();
    let tools = config.get_llm_tools(Uuid::from_u128(9), Some(&WebSearchDynamicConfig { search: false, extract: true }), &web_schemas());
    assert_eq!(tools.len(), 1);
    assert_eq!(tools[0].name, "exa_web_content");
    assert_eq!(tools[0].tool_type, LlmToolType::ExternalApi);
    let both = config.get_llm_tools(Uuid::from_u128(9), None, &web_schemas());
    assert_eq!(both[0].name, "exa_web_search");

    let tool = WebSearchTool::new(&config);
    assert_eq!(tool.provider.count, 5);
    let s = web_schemas();
    assert_eq!(tool.input_schema("exa_web_search", &s).unwrap(), "{\"q\":1}");
    assert!(matches!(tool.input_schema("exa", &s), Err(ToolError::ToolNotFound)));
    assert!(matches!(tool.input_schema("exa_web", &s), Err(ToolError::ToolNotFound)));

    let params: ToolParameters = vec![("query".to_string(), JsonValue::String("  rust verus \n".to_string()))];
    let secrets = vec!["key-1".to_string()];
    match tool.plan("exa_web_search", &params, &secrets).unwrap() {
        WebSearchRequest::Search { query, api_key } => {
            assert_eq!(query, "rust verus");
            assert_eq!(api_key, "key-1");
        }
        _ => panic!("search"),
    }
    let err = tool.plan("exa_web_search", &params, &[]).unwrap_err();
    assert_eq!(err.message(), "Invalid configuration: Missing API key");
    let err = tool.plan("exa_web_content", &params, &secrets).unwrap_err();
    assert_eq!(err.message(), "Formatting error: Missing 'url' parameter");
}

#[test]
fn exa_requests_and_extraction() {
    let exa = ExaSearchTool::new(3, 800);
    let req = exa.search_request("a \"b\"", "k").unwrap();
    assert_eq!(req.method, "POST");
    assert_eq!(req.url, "https://api.exa.ai/search");
    assert_eq!(
        req.body.as_deref(),
        Some("{\"contents\":{\"text\":{\"maxCharacters\":300}},\"numResults\":3,\"query\":\"a \\\"b\\\"\",\"type\":\"auto\"}")
    );
    assert_eq!(req.headers[1], ("X-Api-Key".to_string(), "k".to_string()));
    let req = exa.extract_request("https://x.test", "k").unwrap();
    assert_eq!(
        exa.extract_request("https://x.test", "k\r\n").unwrap_err().message(),
        "Formatting error: Invalid header value: k\r\n"
    );
    assert_eq!(
        req.body.as_deref(),
        Some("{\"extras\":{\"imageLinks\":0,\"links\":5},\"ids\":[\"https://x.test\"],\"text\":{\"maxCharacters\":800}}")
    );

    let results = vec![ExaExtractResult {
        title: "T".to_string(),
        url: "U".to_string(),
        text: "body".to_string(),
        extras: Some(ExaExtractExtras { links: Some(vec!["l1".to_string(), "l2".to_string()]) }),
    }];
    assert_eq!(extract_text(&results).unwrap(), "Title: T\nURL: U\n\nContent:\n\nbody\n\nLinks:\n- l1\n- l2\n");
    let err = extract_text(&vec![]).unwrap_err();
    assert_eq!(err.message(), "Tool execution error: No result found in Exa response");
}

#[test]
fn external_api_inputs() {
    let saved = vec![ChatRsExternalApiTool {
        id: Uuid::from_u128(21),
        user_id: Uuid::from_u128(1),
        data: ChatRsExternalApiToolConfig::WebSearch(web_config()),
    }];
    let input = ExternalApiToolInput {
        id: Uuid::from_u128(21),
        config: Some(ExternalApiToolInputConfig::WebSearch(WebSearchDynamicConfig { search: true, extract: false })),
    };
    let tools = input.into_llm_tools(&saved, &web_schemas()).unwrap();
    assert_eq!(tools.len(), 1);
    assert_eq!(tools[0].tool_id, Uuid::from_u128(21));
    let unknown = ExternalApiToolInput { id: Uuid::from_u128(99), config: None };
    assert!(matches!(unknown.into_llm_tools(&saved, &web_schemas()), Err(ToolError::ToolNotFound)));

    let chat = SendChatToolInput {
        system: Some(SystemToolInput { code_runner: false, info: true, files: None }),
        external_apis: Some(vec![input]),
    };
    let all = get_llm_tools_from_input(&chat, &saved_system_tools(), &saved, &schemas(), &web_schemas()).unwrap();
    assert_eq!(all.iter().map(|t| t.name.as_str()).collect::<Vec<_>>(), vec!["system_datetime_now", "system_server_url", "exa_web_search"]);
    let failing = SendChatToolInput { system: None, external_apis: Some(vec![unknown]) };
    assert!(get_llm_tools_from_input(&failing, &[], &saved, &schemas(), &web_schemas()).is_err());
}

#[test]
fn config_validation_through_json_schema() {
    let schema = "{\"type\":\"object\",\"properties\":{\"count\":{\"type\":\"integer\",\"minimum\":1,\"maximum\":10}}}";
    let config = ChatRsExternalApiToolConfig::WebSearch(web_config());
    assert!(config.validate(schema, "{\"count\":5}").is_ok());
    let err = config.validate(schema, "{\"count\":50}").unwrap_err();
    assert!(err.message().starts_with("Invalid configuration: "));
    let system = ChatRsSystemToolConfig::SystemInfo;
    assert!(system.validate(schema, "{\"count\":50}").is_ok());
}

#[test]
fn code_executor_config_limits() {
    let ok = CodeExecutorToolConfig { timeout_seconds: Some(59), memory_limit_mb: Some(1023), cpu_limit: Some(1.0f32.to_bits()) };
    assert!(ok.validate().is_ok());
    let t = CodeExecutorToolConfig { timeout_seconds: Some(60), memory_limit_mb: None, cpu_limit: None };
    assert_eq!(t.validate().unwrap_err().message(), "Invalid configuration: Timeout must be less than 60 seconds");
    let m = CodeExecutorToolConfig { timeout_seconds: None, memory_limit_mb: Some(1024), cpu_limit: None };
    assert_eq!(m.validate().unwrap_err().message(), "Invalid configuration: Memory limit must be less than 1024 MB");
    for bad in [0.0f32, -0.0, -1.0, 1.5, f32::INFINITY] {
        let c = CodeExecutorToolConfig { timeout_seconds: None, memory_limit_mb: None, cpu_limit: Some(bad.to_bits()) };
        assert_eq!(c.validate().unwrap_err().message(), "Invalid configuration: CPU limit must be between 0 and 1");
    }
    let nan = CodeExecutorToolConfig { timeout_seconds: None, memory_limit_mb: None, cpu_limit: Some(f32::NAN.to_bits()) };
    assert!(nan.validate().is_ok());
}

#[test]
fn dockerfiles() {
    let (image, file, cmd) = get_dockerfile_info(&CodeLanguage::Python);
    assert_eq!((image, file, cmd), ("python:3.13-slim", "main.py", "python main.py"));
    assert!(get_dockerfile(&CodeLanguage::Python).starts_with("\nFROM python:3.13-slim\n"));
    assert!(get_dockerfile(&CodeLanguage::Rust).contains("COPY --chown=1000:1000 main.rs src/"));
    assert_eq!(get_dockerfile_info(&CodeLanguage::Go).0, "golang:1.24");
}

#[test]
fn docker_executor_helpers() {
    let ex = DockerExecutor::new(CodeLanguage::Bash, DockerExecutorOptions::default());
    assert_eq!(ex.timeout_seconds, 30);
    assert_eq!(ex.memory_limit_mb, 512);
    assert_eq!(f32::from_bits(ex.cpu_limit), 0.5);
    assert!(!ex.network);
    assert!(ex.image_tag.starts_with("code-runner-"));
    assert_eq!(ex.image_tag.len(), "code-runner-".len() + 36);
    assert_eq!(ex.sanitize_package_name("numpy==1.2; rm -rf /"), "numpy==1.2rm-rf/");
    let deps = vec!["@types/node".to_string(), " ;; ".to_string(), "pandas>=1".to_string()];
    assert_eq!(ex.build_dependency_string(&deps), "@types/node pandas>=1");
    let deps = vec!["numpy==1.23.4".to_string(), "pandas>=1.0.0".to_string()];
    assert_eq!(ex.build_dependency_string(&deps), "numpy==1.23.4 pandas>=1.0.0");
    let deps = vec!["requests~=2.31,!=2.31.1".to_string(), "lodash@^4.17".to_string(), "a<2".to_string()];
    assert_eq!(ex.build_dependency_string(&deps), "requests~=2.31,!=2.31.1 lodash@^4.17 a<2");
    assert_eq!(ex.sanitize_package_name("x$(id)|y&z`w`*?"), "xidyzw");
    assert_eq!(ex.run_command("bash script.sh"), vec!["timeout", "35s", "sh", "-c", "bash script.sh"]);
    assert_eq!(ex.memory_bytes(), 512 * 1024 * 1024);
    let c = ex.container_settings("bash script.sh");
    assert_eq!(c.image, ex.image_tag);
    assert_eq!(c.cmd, vec!["timeout", "35s", "sh", "-c", "bash script.sh"]);
    assert_eq!(c.env, vec!["HOME=/tmp/home"]);
    assert!(c.network_disabled);
    assert!(c.readonly_rootfs);
    assert_eq!(c.tmpfs, vec![("/tmp".to_string(), "rw,noexec,nosuid,size=100m".to_string())]);
    assert_eq!(c.memory_bytes, 512 * 1024 * 1024);
    assert_eq!(c.pids_limit, 50);
    assert_eq!(c.ulimits, vec![("nproc".to_string(), 50, 50)]);
    assert_eq!(c.cap_drop, vec!["ALL"]);
    assert_eq!(c.security_opt, vec!["no-new-privileges"]);
    let mut opts = DockerExecutorOptions::default();
    opts.network = Some(true);
    assert!(!DockerExecutor::new(CodeLanguage::Bash, opts).container_settings("x").network_disabled);
    let ok = run_outcome(ContainerExit::Success, "hi", "").unwrap();
    assert_eq!(ok, "✅ Code executed successfully!\n\n**Output (stdout):**\n\nhi\n\n**Logs (stderr):**\n\n\n");
    let err = run_outcome(ContainerExit::ExitCode(2), "", "bad").unwrap_err();
    assert!(err.message().contains("❌ Code execution failed with exit status 2."));
}

#[test]
fn tinirun_markdown() {
    let ex = TinirunExecutor::new(CodeLanguage::Python, TinirunExecutorOptions { timeout_seconds: 10, memory_limit_mb: 1, cpu_limit: 0 });
    assert_eq!(ex.result_markdown("out", "", Some(0), false), "Output:\nout\n\n");
    assert_eq!(ex.result_markdown("", "err", Some(-3), false), "⚠️ Program exited with code -3\n\nStderr:\nerr\n");
    assert_eq!(ex.result_markdown("", "", None, true), "⚠️ Timed out after 10 seconds\n\n");
    assert!(matches!(ex.on_chunk(RunChunk::Stdout("x".into())), RunStep::Continue(ToolLog::Result(ref t)) if t == "x"));
    assert!(matches!(ex.on_chunk(RunChunk::Info("i".into())), RunStep::Continue(ToolLog::Log(_))));
    match ex.on_chunk(RunChunk::Error {
        text: "build failed".into(),
        build_failure: Some(("Build failed".into(), "E0425".into())),
    }) {
        RunStep::Finish(Some(ToolLog::Error(l)), Err(e)) => {
            assert_eq!(l, "build failed");
            assert_eq!(e.message(), "Tool execution error: Build failed\n## Build logs\nE0425");
        }
        other => panic!("unexpected step {:?}", other),
    }
    match ex.on_chunk(RunChunk::Result { stdout: "out".into(), stderr: String::new(), exit_code: Some(0), timeout: false }) {
        RunStep::Finish(None, Ok(md)) => assert_eq!(md, "Output:\nout\n\n"),
        other => panic!("unexpected step {:?}", other),
    }
}

#[test]
fn old_web_search_formatting_and_requests() {
    let config = old_web_search::WebSearchConfig {
        provider: old_web_search::WebSearchProviderConfig::Brave(old_web_search::brave::BraveConfig {
            api_key: "secret".to_string(),
            country: Some("us".to_string()),
            search_lang: None,
        }),
        count: 3,
    };
    let tool = old_web_search::WebSearchTool::new(&config);
    assert_eq!(tool.name, "Web Search (Brave)");
    let req = tool.provider.search_request("rust lang").unwrap();
    assert_eq!(req.url, "https://api.search.brave.com/res/v1/web/search?q=rust%20lang&count=3&text_decorations=false&country=us");
    assert_eq!(req.headers.len(), 3);

    let long = "é".repeat(200);
    let results = vec![
        old_web_search::WebSearchResult { title: "A".to_string(), url: "https://a".to_string(), description: "short".to_string() },
        old_web_search::WebSearchResult { title: "B".to_string(), url: "https://b".to_string(), description: String::new() },
        old_web_search::WebSearchResult { title: "C".to_string(), url: "https://c".to_string(), description: long },
    ];
    let text = tool.format_results(&results);
    let expected = format!(
        "Search Results from Brave (3)\n\n1. A\n   URL: https://a\n   short\n\n2. B\n   URL: https://b\n\n3. C\n   URL: https://c\n   {}...\n\n",
        "é".repeat(150)
    );
    assert_eq!(text, expected);
    assert_eq!(tool.format_results(&[]), "No search results found.");

    let params: ToolParameters = vec![("query".to_string(), JsonValue::String("   ".to_string()))];
    assert_eq!(tool.query(&params).unwrap_err().message(), "Formatting error: Query parameter cannot be empty");
    assert_eq!(tool.query(&vec![]).unwrap_err().message(), "Formatting error: Missing 'query' parameter");

    let google = old_web_search::google::GoogleCustomSearchConfig {
        api_key: "k".to_string(),
        country: None,
        search_lang: Some("lang_en".to_string()),
        cx: "cx1".to_string(),
    };
    let g = old_web_search::google::GoogleCustomSearchTool::new(&google, 20);
    let brave = old_web_search::brave::BraveConfig {
        api_key: "bad\nkey".to_string(),
        country: None,
        search_lang: None,
    };
    let b = old_web_search::brave::BraveSearchTool::new(&brave, 3);
    assert_eq!(b.search_request("q").unwrap_err().message(), "Formatting error: Invalid header value: bad\nkey");
    assert_eq!(g.search_request("q").url, "https://www.googleapis.com/customsearch/v1?key=k&cx=cx1&q=q&num=10&lr=lang_en");
}

#[test]
fn tool_logs_and_errors() {
    let log = ToolLog::Debug("x".to_string());
    assert_eq!(log.event_name(), "debug");
    assert_eq!(log.data(), "x");
    assert_eq!(ToolError::ToolNotFound.message(), "Tool not found");
    assert_eq!(ToolError::SerializationError("e".to_string()).message(), "Serialization error");
    assert_eq!(ToolResponseFormat::default(), ToolResponseFormat::Text);
}

#[test]
fn json_text_is_compact() {
    let v = JsonValue::Object(vec![
        ("a".to_string(), JsonValue::Array(vec![JsonValue::Null, JsonValue::Bool(false), JsonValue::Number("1.5".to_string())])),
        ("b\"".to_string(), JsonValue::String("x\ny".to_string())),
    ]);
    assert_eq!(to_json_text(&v), "{\"a\":[null,false,1.5],\"b\\\"\":\"x\\ny\"}");
}

#[test]
fn read_file_decodes_lossily() {
    let (t, f) = read_file_result("héllo".as_bytes());
    assert_eq!(t, "héllo");
    assert_eq!(f, ToolResponseFormat::Text);
    let (t, _) = read_file_result(&[b'a', 0xff, b'b']);
    assert_eq!(t, "a\u{FFFD}b");
}

#[test]
fn docker_step_failures() {
    assert_eq!(
        step_failure(RunStepKind::CreateContainer, "code-runner-1", "conflict").message(),
        "Tool execution error: Failed to create container 'code-runner-1': conflict"
    );
    assert_eq!(
        step_failure(RunStepKind::PullImage, "code-runner-1", "not found").message(),
        "Tool execution error: Error pulling image: not found"
    );
    assert_eq!(
        step_failure(RunStepKind::StartContainer, "c", "e").message(),
        "Tool execution error: Failed to start container 'c': e"
    );
}
