use pseudoide_core::invocation::Invocation;
use pseudoide_core::archive::{entry_step, finish_bundle, ArchiveEntry, EntryStep};
use pseudoide_core::llm::{
    chat_inference, chat_prompt, completion_from, download_model, download_server, generate_code,
    generation_prompt, parse_generation, read_completion, read_listing, select_download,
    Artifacts, ChatMessage, DownloadProgress, FetchStep, LLMState, ReleaseAsset, Reply,
    StartStep, MODEL_FILENAME, SERVER_FILENAME,
};

fn answered(status_ok: bool, status: &str, body: &str) -> Reply {
    Reply::Answered { status_ok, status: status.to_string(), body: body.to_string() }
}

fn described(doc: &str) -> Result<String, String> {
    Ok(doc.to_string())
}

fn words(call: &Invocation) -> Vec<(bool, String)> {
    let mut out = vec![(call.program.local, call.program.text.clone())];
    for a in call.args.iter() {
        out.push((a.local, a.text.clone()));
    }
    out
}

fn asset(name: Option<&str>, url: Option<&str>) -> ReleaseAsset {
    ReleaseAsset { name: name.map(|s| s.to_string()), url: url.map(|s| s.to_string()) }
}

const ALL: Artifacts = Artifacts { model: true, server: true, dependencies: true };

#[test]
fn present_model_is_never_fetched_again() {
    assert_eq!(download_model(false), FetchStep::Transfer);
    assert_eq!(download_model(true), FetchStep::AlreadyPresent);
    assert_eq!(download_model(true), FetchStep::AlreadyPresent);
}

#[test]
fn progress_counts_bytes_and_reports_with_a_total() {
    let mut p = DownloadProgress::new(Some(200));
    assert_eq!((p.downloaded, p.total), (0, 200));
    assert!(p.record(50));
    assert!(p.record(25));
    assert_eq!((p.downloaded, p.total), (75, 200));
    let mut q = DownloadProgress::new(None);
    assert!(!q.record(10));
    assert_eq!((q.downloaded, q.total), (10, 0));
}

#[test]
fn select_download_takes_the_first_suitable_asset() {
    let assets = vec![
        asset(Some("llama-b1-bin-macos-arm64.zip"), Some("u0")),
        asset(Some("llama-b1-bin-win-cpu-x64.tar.gz"), Some("u1")),
        asset(None, Some("u2")),
        asset(Some("llama-b1-bin-win-cpu-x64.zip"), Some("u3")),
        asset(Some("other-bin-win-cpu-x64.zip"), Some("u4")),
    ];
    assert_eq!(select_download(Ok(Some(assets))), Ok("u3".to_string()));
}

#[test]
fn select_download_errors() {
    assert_eq!(select_download(Ok(None)), Err("No assets found".to_string()));
    assert_eq!(select_download(Err("bad".to_string())), Err("bad".to_string()));
    assert_eq!(
        select_download(Ok(Some(vec![]))),
        Err("No suitable Windows binary found in latest release".to_string())
    );
    assert_eq!(
        select_download(Ok(Some(vec![asset(Some("x.zip"), Some("u"))]))),
        Err("No suitable Windows binary found in latest release".to_string())
    );
    assert_eq!(
        select_download(Ok(Some(vec![
            asset(Some("a-bin-win-cpu-x64.zip"), None),
            asset(Some("b-bin-win-cpu-x64.zip"), Some("u")),
        ]))),
        Err("No download URL".to_string())
    );
}

#[test]
fn download_server_reads_the_release_description() {
    let doc = r#"{"tag_name":"b1","assets":[
        {"name":"llama-b1-bin-ubuntu-x64.zip","browser_download_url":"https://x/ubuntu.zip"},
        {"name":"llama-b1-bin-win-cpu-x64.zip","browser_download_url":"https://x/win.zip"}]}"#;
    assert_eq!(download_server(described(doc)), Ok("https://x/win.zip".to_string()));
}

#[test]
fn download_server_errors() {
    assert_eq!(download_server(described(r#"{"message":"rate limited"}"#)), Err("No assets found".to_string()));
    assert_eq!(download_server(described(r#"{"assets":{}}"#)), Err("No assets found".to_string()));
    assert_eq!(
        download_server(described(r#"{"assets":[{"name":7},{"name":"readme.txt"}]}"#)),
        Err("No suitable Windows binary found in latest release".to_string())
    );
    assert_eq!(
        download_server(described(r#"{"assets":[{"name":"l-bin-win-cpu-x64.zip","browser_download_url":null}]}"#)),
        Err("No download URL".to_string())
    );
    match download_server(described("not json")) {
        Err(e) => {
            assert!(!e.is_empty());
            assert_ne!(e, "not json");
        }
        Ok(_) => panic!("accepted"),
    }
}

#[test]
fn read_listing_keeps_every_asset_in_order() {
    let doc = r#"{"assets":[{"name":"a.zip","browser_download_url":"u1"},{"name":3},{"browser_download_url":"u3"}]}"#;
    let got: Vec<(Option<String>, Option<String>)> = read_listing(doc)
        .expect("valid JSON")
        .expect("a list of assets")
        .into_iter()
        .map(|a| (a.name, a.url))
        .collect();
    assert_eq!(
        got,
        vec![
            (Some("a.zip".to_string()), Some("u1".to_string())),
            (None, None),
            (None, Some("u3".to_string())),
        ]
    );
    assert!(matches!(read_listing("[]"), Ok(None)));
    assert!(matches!(read_listing(r#"{"assets":[]}"#), Ok(Some(v)) if v.is_empty()));
    assert!(read_listing("{").is_err());
}

#[test]
fn download_server_reports_a_failed_fetch() {
    assert_eq!(
        download_server(Err("dns error".to_string())),
        Err("Failed to fetch release info: dns error".to_string())
    );
}

#[test]
fn entry_step_wants_the_exact_server_name() {
    let near = ArchiveEntry {
        name: "bin/my-llama-server.exe".to_string(),
        is_dir: false,
        base_name: Some("my-llama-server.exe".to_string()),
    };
    match entry_step(&near) {
        EntryStep::Extract { to, server } => {
            assert_eq!(to, "my-llama-server.exe");
            assert!(!server);
        }
        _ => panic!("not extracted"),
    }
    let short = ArchiveEntry {
        name: "server.exe".to_string(),
        is_dir: false,
        base_name: Some("server.exe".to_string()),
    };
    assert!(matches!(entry_step(&short), EntryStep::Extract { server: false, .. }));
}

#[test]
fn entry_step_flattens_and_marks_the_server() {
    let dir = ArchiveEntry { name: "build/bin/".to_string(), is_dir: true, base_name: Some("bin".to_string()) };
    assert!(matches!(entry_step(&dir), EntryStep::Skip));
    let server = ArchiveEntry {
        name: "build/bin/llama-server.exe".to_string(),
        is_dir: false,
        base_name: Some("llama-server.exe".to_string()),
    };
    match entry_step(&server) {
        EntryStep::Extract { to, server } => {
            assert_eq!(to, "llama-server.exe");
            assert!(server);
        }
        _ => panic!("not extracted"),
    }
    let dll = ArchiveEntry {
        name: "build/bin/llama.dll".to_string(),
        is_dir: false,
        base_name: Some("llama.dll".to_string()),
    };
    match entry_step(&dll) {
        EntryStep::Extract { to, server } => {
            assert_eq!(to, "llama.dll");
            assert!(!server);
        }
        _ => panic!("not extracted"),
    }
    let odd = ArchiveEntry { name: "..".to_string(), is_dir: false, base_name: None };
    match entry_step(&odd) {
        EntryStep::Fail(e) => assert_eq!(e, "Invalid file name"),
        _ => panic!("not refused"),
    }
}

#[test]
fn bundle_needs_the_server_executable() {
    assert_eq!(finish_bundle(true), Ok("Server downloaded and extracted".to_string()));
    assert_eq!(
        finish_bundle(false),
        Err("llama-server.exe not found in the downloaded zip".to_string())
    );
}

#[test]
fn load_model_names_each_missing_artifact() {
    let s: LLMState<u32> = LLMState::new();
    let e = |a: Artifacts| match s.load_model(a) {
        Err(e) => e,
        Ok(_) => panic!("accepted"),
    };
    assert_eq!(
        e(Artifacts { model: false, server: false, dependencies: false }),
        "Model not found. Please download it."
    );
    assert_eq!(
        e(Artifacts { model: true, server: false, dependencies: false }),
        "Server binary not found. Please download it."
    );
    assert_eq!(
        e(Artifacts { model: true, server: true, dependencies: false }),
        "Server dependencies (DLLs) not found. Please re-download."
    );
    assert_eq!(
        e(Artifacts { model: false, server: true, dependencies: true }),
        "Model not found. Please download it."
    );
}

#[test]
fn load_model_spawns_with_fixed_arguments() {
    let s: LLMState<u32> = LLMState::new();
    assert!(!s.is_running());
    match s.load_model(ALL) {
        Ok(StartStep::Spawn(call)) => assert_eq!(
            words(&call),
            vec![
                (true, SERVER_FILENAME.to_string()),
                (false, "-m".to_string()),
                (true, MODEL_FILENAME.to_string()),
                (false, "--port".to_string()),
                (false, "8080".to_string()),
                (false, "-c".to_string()),
                (false, "2048".to_string()),
            ]
        ),
        _ => panic!("no spawn"),
    }
    assert_eq!(SERVER_FILENAME, "llama-server.exe");
    assert_eq!(MODEL_FILENAME, "qwen2.5-coder-7b-instruct-q5_k_m.gguf");
}

#[test]
fn second_start_tracks_no_second_handle() {
    let mut s: LLMState<u32> = LLMState::new();
    assert!(matches!(s.load_model(ALL), Ok(StartStep::Spawn(_))));
    assert_eq!(s.track(11), None);
    assert!(s.is_running());
    match s.load_model(ALL) {
        Ok(StartStep::AlreadyRunning(status)) => assert_eq!(status, "Server already running"),
        _ => panic!("not a success without a launch"),
    }
    assert_eq!(s.track(12), Some(12));
    assert_eq!(s.server_process, Some(11));
}

#[test]
fn failed_spawn_tracks_nothing() {
    let mut s: LLMState<u32> = LLMState::new();
    assert_eq!(
        s.started(Err("No such file or directory (os error 2)".to_string())),
        Err("Failed to start server: No such file or directory (os error 2)".to_string())
    );
    assert!(!s.is_running());
    assert_eq!(s.server_process, None);
    assert_eq!(s.started(Ok(3)), Ok(None));
    assert_eq!(s.started(Err("busy".to_string())), Err("Failed to start server: busy".to_string()));
    assert_eq!(s.server_process, Some(3));
}

#[test]
fn started_takes_one_handle_only() {
    let mut s: LLMState<u32> = LLMState::new();
    assert_eq!(s.started(Ok(21)), Ok(None));
    assert_eq!(s.started(Ok(22)), Ok(Some(22)));
    assert_eq!(s.server_process, Some(21));
}

#[test]
fn shutdown_is_safe_without_a_server_and_clears_one() {
    let mut s: LLMState<u32> = LLMState::new();
    assert_eq!(s.shutdown(), None);
    assert!(!s.is_running());
    assert_eq!(s.track(5), None);
    assert_eq!(s.shutdown(), Some(5));
    assert!(!s.is_running());
    assert_eq!(s.shutdown(), None);
    assert!(matches!(s.load_model(ALL), Ok(StartStep::Spawn(_))));
}

#[test]
fn chat_prompt_renders_turns_in_order() {
    let history = vec![
        ChatMessage { role: "user".to_string(), content: "hi".to_string() },
        ChatMessage { role: "assistant".to_string(), content: "hello".to_string() },
    ];
    assert_eq!(
        chat_prompt(&history),
        "<|im_start|>system\nYou are an expert coding assistant for PseudoIDE. Help the user interactively. Be concise.\n<|im_end|>\n<|im_start|>user\nhi\n<|im_end|>\n<|im_start|>assistant\nhello\n<|im_end|>\n<|im_start|>assistant\n"
    );
    assert_eq!(
        chat_prompt(&vec![]),
        "<|im_start|>system\nYou are an expert coding assistant for PseudoIDE. Help the user interactively. Be concise.\n<|im_end|>\n<|im_start|>assistant\n"
    );
}

#[test]
fn generation_prompt_wraps_the_request() {
    assert_eq!(
        generation_prompt("print one"),
        "<|im_start|>system\nYou are an expert coding assistant. Your task is to transcribe the given pseudocode into valid, runnable code in the most appropriate language.\nAnalyze the syntax and style to infer the target language (e.g., Python, JavaScript, Rust).\nOutput result in the format:\n```language\ncode\n```\n<|im_end|>\n<|im_start|>user\nprint one\n<|im_end|>\n<|im_start|>assistant\n"
    );
}

fn parts(content: &str) -> (String, String) {
    let r = parse_generation(content);
    (r.language, r.code)
}

#[test]
fn fenced_python_block_is_parsed() {
    assert_eq!(parts("```python\nprint(1)\n```"), ("python".to_string(), "print(1)".to_string()));
}

#[test]
fn plain_text_is_code_in_language_text() {
    assert_eq!(parts("just some words"), ("text".to_string(), "just some words".to_string()));
    assert_eq!(parts(""), ("text".to_string(), "".to_string()));
}

#[test]
fn fenced_block_edge_cases() {
    assert_eq!(
        parts("Here:\n``` Rust \nfn main() {}\n\n```\nbye ```x```"),
        ("Rust".to_string(), "fn main() {}".to_string())
    );
    assert_eq!(parts("```\nls -l\n```"), ("text".to_string(), "ls -l".to_string()));
    assert_eq!(parts("``` echo hi ```"), ("echo hi".to_string(), "".to_string()));
    assert_eq!(parts("```print(1)```"), ("print(1)".to_string(), "".to_string()));
    assert_eq!(parts("```   ```"), ("text".to_string(), "".to_string()));
    assert_eq!(parts("```py\n```"), ("py".to_string(), "".to_string()));
    assert_eq!(parts("```python\nprint(1)"), ("text".to_string(), "```python\nprint(1)".to_string()));
    assert_eq!(parts("``````"), ("text".to_string(), "".to_string()));
    assert_eq!(parts("é```js\nlet é = 1;\n```"), ("js".to_string(), "let é = 1;".to_string()));
}

#[test]
fn read_completion_takes_the_content_member() {
    assert_eq!(read_completion(answered(true, "200 OK", r#"{"content":"hi there","stop":true}"#)), Ok("hi there".to_string()));
    assert_eq!(read_completion(answered(true, "200 OK", r#"{"stop":true}"#)), Ok("".to_string()));
    assert_eq!(read_completion(answered(true, "200 OK", r#"{"content":5}"#)), Ok("".to_string()));
    assert_eq!(chat_inference(answered(true, "200 OK", r#"{"content":"a\nb"}"#)), Ok("a\nb".to_string()));
}

#[test]
fn read_completion_errors() {
    assert_eq!(
        read_completion(answered(false, "500 Internal Server Error", r#"{"content":"x"}"#)),
        Err("Server error: 500 Internal Server Error".to_string())
    );
    match read_completion(answered(true, "200 OK", "{")) {
        Err(e) => {
            assert!(!e.is_empty());
            assert_ne!(e, "{");
        }
        Ok(_) => panic!("accepted"),
    }
}

#[test]
fn completion_from_maps_each_case() {
    assert_eq!(completion_from(Ok(Some("x".to_string()))), Ok("x".to_string()));
    assert_eq!(completion_from(Ok(None)), Ok("".to_string()));
    assert_eq!(completion_from(Err("e".to_string())), Err("e".to_string()));
}

#[test]
fn generate_code_parses_the_reply() {
    let body = r#"{"content":"```python\nprint(1)\n```"}"#;
    match generate_code(answered(true, "200 OK", body)) {
        Ok(r) => {
            assert_eq!(r.language, "python");
            assert_eq!(r.code, "print(1)");
        }
        Err(e) => panic!("failed: {}", e),
    }
    match generate_code(answered(true, "200 OK", r#"{"content":"no fences here"}"#)) {
        Ok(r) => {
            assert_eq!(r.language, "text");
            assert_eq!(r.code, "no fences here");
        }
        Err(e) => panic!("failed: {}", e),
    }
    match generate_code(answered(false, "404 Not Found", "")) {
        Err(e) => assert_eq!(e, "Server error: 404 Not Found"),
        Ok(_) => panic!("accepted"),
    }
}

#[test]
fn unreachable_server_is_an_error_with_its_cause() {
    assert_eq!(
        read_completion(Reply::Unreachable("connection refused".to_string())),
        Err("Failed to contact server: connection refused".to_string())
    );
    assert_eq!(
        chat_inference(Reply::Unreachable("timed out".to_string())),
        Err("Failed to contact server: timed out".to_string())
    );
    match generate_code(Reply::Unreachable("timed out".to_string())) {
        Err(e) => assert_eq!(e, "Failed to contact server: timed out"),
        Ok(_) => panic!("accepted"),
    }
    assert_eq!(
        read_completion(Reply::Unreadable("body cut short".to_string())),
        Err("body cut short".to_string())
    );
}

#[test]
fn one_line_block_is_a_language_without_code() {
    match generate_code(answered(true, "200 OK", r#"{"content":"```print(1)```"}"#)) {
        Ok(r) => {
            assert_eq!(r.language, "print(1)");
            assert_eq!(r.code, "");
        }
        Err(e) => panic!("failed: {}", e),
    }
}
