use ollama_cli::cli::model_summary;
use ollama_cli::api::{is_false, GenerateRequest, ProgressResponse};
use ollama_cli::benchmark::{benchmark_prompt, default_prompt, round_tokens, verdict_mark, Tally};
use ollama_cli::cli::{
    add_message, chat_input, conversation_start, reply_step, resolve_model, text_source, ChatInput,
    CliError, TextSource,
};
use ollama_cli::client::{error_message, line_action, refusal_message, stream_error_message, LineAction};
use ollama_cli::library::{
    library_models, library_url, select_library_models, truncate_description, LibraryEntry,
    LibraryError,
};
use ollama_cli::progress::{
    layer_done, progress_step, pull_display_status, pull_status, pull_status_mark, pull_summary,
    push_status, short_layer_id, LayerProgress, ProgressStep, PullStatus,
};

fn s(x: &str) -> Option<String> {
    Some(x.to_string())
}

#[test]
fn resolve_model_prefers_flag() {
    assert_eq!(resolve_model(&s("flag"), &s("pos")).unwrap(), "flag");
    assert_eq!(resolve_model(&None, &s("pos")).unwrap(), "pos");
    assert_eq!(resolve_model(&None, &None).unwrap_err(), CliError::ModelRequired);
    assert_eq!(CliError::ModelRequired.message(), "Model name is required");
    assert_eq!(CliError::PromptRequired.message(), "Prompt is required");
    assert_eq!(CliError::InputRequired.message(), "Input text is required");
    assert_eq!(
        CliError::MessageRequired.message(),
        "Message is required (use --interactive for chat mode, or provide a message)"
    );
}

#[test]
fn text_source_order() {
    assert!(matches!(text_source(&s("a"), &s("b"), &s("f")), TextSource::Text(t) if t == "a"));
    assert!(matches!(text_source(&None, &s("b"), &s("f")), TextSource::Text(t) if t == "b"));
    assert!(matches!(text_source(&None, &None, &s("f")), TextSource::File(p) if p == "f"));
    assert!(matches!(text_source(&None, &None, &None), TextSource::Missing));
}

#[test]
fn chat_input_meanings() {
    assert!(matches!(chat_input(""), ChatInput::End));
    assert!(matches!(chat_input("   \n"), ChatInput::Skip));
    assert!(matches!(chat_input("exit\n"), ChatInput::Quit));
    assert!(matches!(chat_input("  quit "), ChatInput::Quit));
    assert!(matches!(chat_input("bye\r\n"), ChatInput::Quit));
    assert!(matches!(chat_input("Exit\n"), ChatInput::Send(m) if m == "Exit"));
    assert!(matches!(chat_input("  hello there \n"), ChatInput::Send(m) if m == "hello there"));
}

#[test]
fn conversation_building() {
    let mut msgs = conversation_start(&s("be brief"));
    assert_eq!(msgs.len(), 1);
    assert_eq!(msgs[0].role, "system");
    assert_eq!(msgs[0].content, "be brief");
    add_message(&mut msgs, "user", "hi".to_string());
    add_message(&mut msgs, "assistant", "hello".to_string());
    assert_eq!(msgs.len(), 3);
    assert_eq!(msgs[2].role, "assistant");
    assert!(conversation_start(&None).is_empty());
}

#[test]
fn reply_steps() {
    let r = reply_step(&s("boom"), &s("text"), Some(true));
    assert_eq!(r.failure.as_deref(), Some("boom"));
    assert!(r.text.is_none());
    assert!(!r.finished);
    let r = reply_step(&None, &s("part"), None);
    assert_eq!(r.text.as_deref(), Some("part"));
    assert!(!r.finished);
    let r = reply_step(&None, &None, Some(true));
    assert!(r.finished);
    assert!(!reply_step(&None, &None, Some(false)).finished);
}

#[test]
fn request_error_messages() {
    assert_eq!(error_message(404, "404 Not Found", "raw", s("model missing")), "Not found: model missing");
    assert_eq!(error_message(400, "400 Bad Request", "raw body", None), "Bad request: raw body");
    assert_eq!(
        error_message(500, "500 Internal Server Error", "x", s("oops")),
        "HTTP 500 Internal Server Error: oops"
    );
    assert_eq!(stream_error_message("404 Not Found", "b", None), "HTTP 404 Not Found: b");
    assert_eq!(
        refusal_message("Failed to copy model", "404 Not Found", "{}"),
        "Failed to copy model (HTTP 404 Not Found): {}"
    );
}

#[test]
fn stream_lines() {
    assert_eq!(line_action(None), LineAction::End);
    assert_eq!(line_action(Some("   ")), LineAction::Skip);
    assert_eq!(line_action(Some("")), LineAction::Skip);
    assert_eq!(line_action(Some("{\"done\":true}")), LineAction::Parse);
}

#[test]
fn serde_helpers_and_requests() {
    assert!(is_false(&false));
    assert!(!is_false(&true));
    let r = GenerateRequest::unload("llama3".to_string());
    assert_eq!(r.model, "llama3");
    assert_eq!(r.prompt, "");
    assert!(!r.stream);
    assert_eq!(r.keep_alive, Some(0));
    let p = GenerateRequest::plain("m".to_string(), "why".to_string(), true);
    assert!(p.stream && p.keep_alive.is_none() && !p.raw);
}

fn progress(status: Option<&str>, digest: Option<&str>, total: Option<u64>, completed: Option<u64>, error: Option<&str>) -> ProgressResponse {
    ProgressResponse {
        status: status.map(String::from),
        digest: digest.map(String::from),
        total,
        completed,
        error: error.map(String::from),
    }
}

#[test]
fn short_layer_ids() {
    assert_eq!(
        short_layer_id("sha256:6a0746a1ec1aef3e7ec53868f220ff6e389f6f8ef87a01d77c96807de94ca2aa"),
        "6a0746a1"
    );
    assert_eq!(short_layer_id("sha256:abc"), "sha256:abc");
    assert_eq!(short_layer_id("0123456789abcdef"), "789abcde");
}

#[test]
fn progress_steps() {
    assert!(matches!(progress_step(&progress(Some("x"), Some("d"), Some(5), Some(1), Some("bad"))), ProgressStep::Failed(e) if e == "bad"));
    match progress_step(&progress(Some("pulling d"), Some("d"), Some(10), Some(10), None)) {
        ProgressStep::Layer(l) => {
            assert_eq!(l.digest, "d");
            assert_eq!(l.total, 10);
            assert!(layer_done(&l));
        }
        _ => panic!("expected a layer"),
    }
    assert!(matches!(progress_step(&progress(Some("verifying sha256 digest"), Some("d"), Some(0), Some(0), None)), ProgressStep::Status(s) if s == "verifying sha256 digest"));
    assert!(matches!(progress_step(&progress(None, None, None, None, None)), ProgressStep::Nothing));
    assert!(!layer_done(&LayerProgress { digest: "d".to_string(), total: 10, completed: 3 }));
}

#[test]
fn pull_statuses() {
    assert!(matches!(pull_status("pulling manifest"), PullStatus::Spinner(m) if m == "📋 Pulling manifest..."));
    assert!(matches!(pull_status("verifying sha256 digest"), PullStatus::Spinner(m) if m == "🔍 Verifying integrity..."));
    assert!(matches!(pull_status("writing manifest"), PullStatus::Spinner(m) if m == "📝 Writing manifest..."));
    assert!(matches!(pull_status("removing any unused layers"), PullStatus::Spinner(m) if m == "🧹 Cleaning up unused layers..."));
    assert!(matches!(pull_status("success"), PullStatus::Success));
    assert!(matches!(pull_status("pulling 6a0746a1ec1a"), PullStatus::Quiet));
    assert!(matches!(pull_status(""), PullStatus::Quiet));
    assert!(matches!(pull_status("resolving"), PullStatus::Spinner(m) if m == "📌 resolving"));
    assert_eq!(push_status("pushing manifest").as_deref(), Some("📋 Pushing manifest..."));
    assert_eq!(push_status("retrieving").as_deref(), Some("📌 retrieving"));
    assert_eq!(push_status(""), None);
    assert_eq!(pull_summary("llama3", true), "✅ Model llama3 is ready to use!");
    assert_eq!(
        pull_summary("llama3", false),
        "ℹ️  Model llama3 is available (may have been already downloaded)"
    );
}

#[test]
fn pull_window_texts() {
    assert_eq!(pull_display_status("pulling manifest"), "Pulling manifest...");
    assert_eq!(pull_display_status("success"), "Pull complete!");
    assert_eq!(pull_display_status("pulling 6a07"), "Downloading layers...");
    assert_eq!(pull_display_status("pullingx"), "pullingx");
    assert_eq!(pull_display_status("other"), "other");
    assert_eq!(pull_status_mark(false, false, 0), "⠋ ");
    assert_eq!(pull_status_mark(false, false, 13), "⠸ ");
    assert_eq!(pull_status_mark(true, true, 5), "✓ ");
    assert_eq!(pull_status_mark(true, false, 5), "✗ ");
}

#[test]
fn benchmark_bookkeeping() {
    let (p, custom) = benchmark_prompt(None);
    assert_eq!(p, default_prompt());
    assert!(!custom);
    let (p, custom) = benchmark_prompt(Some("hi"));
    assert_eq!(p, "hi");
    assert!(custom);
    assert!(!benchmark_prompt(Some(default_prompt())).1);
    assert_eq!(round_tokens(Some(10), Some(5)), Some(10));
    assert_eq!(round_tokens(Some(0), Some(5)), None);
    assert_eq!(round_tokens(Some(3), Some(0)), None);
    assert_eq!(round_tokens(None, Some(5)), None);
    let mut t = Tally::new();
    t.record(10);
    t.record(15);
    assert_eq!(t.successful_rounds, 2);
    assert_eq!(t.total_tokens, 25);
    assert_eq!(t.avg_tokens(), 12);
    assert_eq!(verdict_mark(3, 3), "✓");
    assert_eq!(verdict_mark(1, 3), "⚠");
    assert_eq!(verdict_mark(0, 3), "✗");
}

#[test]
fn library_urls() {
    assert_eq!(library_url("popular").unwrap(), "https://ollama.com/library");
    assert_eq!(library_url("newest").unwrap(), "https://ollama.com/library?sort=newest");
    assert_eq!(library_url("oldest").unwrap_err(), LibraryError::InvalidSort);
    assert_eq!(LibraryError::InvalidSort.message(), "Sort must be 'popular' or 'newest'");
}

fn entry(href: &str, desc: &str, sizes: &[&str]) -> LibraryEntry {
    LibraryEntry {
        href: href.to_string(),
        description: desc.to_string(),
        sizes: sizes.iter().map(|x| x.to_string()).collect(),
        capabilities: vec!["  tools ".to_string(), "   ".to_string()],
    }
}

#[test]
fn library_selection() {
    let entries = vec![
        entry("/library/llama3", "  Meta model  ", &[" 8b", "70b ", " "]),
        entry("/library/llama3", "dup", &[]),
        entry("/library/", "empty", &[]),
        entry("/library/a/b", "nested", &[]),
        entry("/library/Mistral", "mistral", &[]),
        entry("/library/qwen", "qwen", &[]),
    ];
    let all = select_library_models(&entries, None, 10);
    let names: Vec<&str> = all.iter().map(|m| m.name.as_str()).collect();
    assert_eq!(names, vec!["llama3", "Mistral", "qwen"]);
    assert_eq!(all[0].description, "Meta model");
    assert_eq!(all[0].sizes, vec!["8b".to_string(), "70b".to_string()]);
    assert_eq!(all[0].capabilities, vec!["tools".to_string()]);
    let limited = select_library_models(&entries, None, 2);
    assert_eq!(limited.len(), 2);
    let found = select_library_models(&entries, Some("MIS"), 10);
    assert_eq!(found.len(), 1);
    assert_eq!(found[0].name, "Mistral");
    assert!(select_library_models(&entries, Some("zzz"), 10).is_empty());
    assert!(select_library_models(&entries, None, 0).is_empty());
}

#[test]
fn library_page_parsing() {
    let html = r#"<html><body>
      <a href="/library/llama3.2"><p> Small models </p><span x-test-size>1b</span><span x-test-size>3b</span><span x-test-capability>tools</span></a>
      <a href="/library/gemma"><p>Google</p></a>
      <a href="/library/llama3.2">again</a>
      <a href="/blog/post">not a model</a>
    </body></html>"#;
    let models = library_models(html, None, 20);
    let names: Vec<&str> = models.iter().map(|m| m.name.as_str()).collect();
    assert_eq!(names, vec!["llama3.2", "gemma"]);
    assert_eq!(models[0].description, "Small models");
    assert_eq!(models[0].sizes, vec!["1b".to_string(), "3b".to_string()]);
    assert_eq!(models[0].capabilities, vec!["tools".to_string()]);
    let gem = library_models(html, Some("GEM"), 20);
    assert_eq!(gem.len(), 1);
}

#[test]
fn description_truncation() {
    let short = "A short description.";
    assert_eq!(truncate_description(short), short);
    let long = "x".repeat(71);
    let cut = truncate_description(&long);
    assert_eq!(cut, format!("{}...", "x".repeat(67)));
    let exactly = "y".repeat(70);
    assert_eq!(truncate_description(&exactly), exactly);
    let accented = format!("{}é{}", "a".repeat(65), "b".repeat(10));
    assert_eq!(truncate_description(&accented), format!("{}é...", "a".repeat(65)));
}

#[test]
fn show_summary_lines() {
    let lines = model_summary(&s("Llama 3"), &None, Some(8_030_261_248), Some(2), Some(15));
    assert_eq!(
        lines,
        vec![
            "Model: Llama 3".to_string(),
            "Parameters: 8.0B".to_string(),
            "Quantization Version: 2".to_string(),
            "File Type: 15".to_string(),
        ]
    );
    assert!(model_summary(&None, &None, None, None, None).is_empty());
    assert_eq!(model_summary(&None, &s("llama"), None, None, None), vec!["Architecture: llama".to_string()]);
}

#[test]
fn short_layer_ids_of_non_ascii_digests() {
    assert_eq!(short_layer_id("sha256:\u{e9}abcdefxyz"), "\u{e9}abcdef");
    assert_eq!(short_layer_id("\u{e9}\u{e9}\u{e9}"), "\u{e9}\u{e9}\u{e9}");
}
