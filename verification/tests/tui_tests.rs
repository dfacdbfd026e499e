use ollama_cli::tui::layout::{detail_area, popup_area, Area};
use ollama_cli::api::ShowDetails;
use ollama_cli::tui::display::detail_lines;
use ollama_cli::tui::display::{connection_label, picker_entry, status_model_label};
use ollama_cli::api::{ChatMessage, ChatResponse, ModelInfo, ProgressResponse};
use ollama_cli::config::Config;
use ollama_cli::tui::action::Action;
use ollama_cli::tui::app::{step_index, App, ChatFocus, ConfirmAction, Effect, Focus, SaveFollowUp, Section, TextInputAction};
use ollama_cli::tui::app_events::{chat_chunk_events, pull_chunk_events, record_layer};
use ollama_cli::tui::app::PullLayer;
use ollama_cli::tui::display::{
    active_profile_label, chat_scroll, model_row, profile_marker, sidebar_entry, toast_color,
    toast_icon, toast_kind, transcript, ToastKind,
};
use ollama_cli::tui::event::ApiEvent;
use ollama_cli::tui::keymap::{map_key_event, InputContext, KeyCode, KeyEvent, CONTROL};
use ollama_cli::tui::markdown::{to_lines, MdLine};
use ollama_cli::tui::theme::{theme, Color, Style, BOLD, DIM, ITALIC, UNDERLINED};

fn key(c: char) -> KeyEvent {
    KeyEvent { code: KeyCode::Char(c), modifiers: 0 }
}

fn code(k: KeyCode) -> KeyEvent {
    KeyEvent { code: k, modifiers: 0 }
}

fn texts(lines: &[MdLine]) -> Vec<String> {
    lines.iter().map(|l| l.spans.iter().map(|s| s.content.as_str()).collect::<String>()).collect()
}

fn new_app() -> App {
    App::new(Config::default(), "http://localhost:11434".to_string())
}

#[test]
fn ctrl_c_quits_everywhere() {
    let ctrl_c = KeyEvent { code: KeyCode::Char('c'), modifiers: CONTROL };
    for ctx in [
        InputContext::Global,
        InputContext::Sidebar,
        InputContext::ChatInput,
        InputContext::ChatMessages,
        InputContext::ModelsTable,
        InputContext::RunningTable,
        InputContext::ConfigTable,
    ] {
        assert_eq!(map_key_event(ctrl_c, &ctx), Action::Quit);
    }
}

#[test]
fn digits_jump_to_sections() {
    assert_eq!(map_key_event(key('1'), &InputContext::Global), Action::JumpToSection(Section::Chat));
    assert_eq!(map_key_event(key('6'), &InputContext::Sidebar), Action::JumpToSection(Section::Config));
    assert_eq!(map_key_event(key('q'), &InputContext::Global), Action::Quit);
    assert_eq!(map_key_event(key('?'), &InputContext::Global), Action::ToggleHelp);
    assert_eq!(map_key_event(code(KeyCode::Tab), &InputContext::Global), Action::FocusSidebar);
    assert_eq!(map_key_event(key('j'), &InputContext::Sidebar), Action::NavigateDown);
    assert_eq!(map_key_event(code(KeyCode::Up), &InputContext::Sidebar), Action::NavigateUp);
}

#[test]
fn sections_and_labels() {
    assert_eq!(Section::Chat.label(), "Chat");
    assert_eq!(Section::Benchmarks.label(), "Benchmarks");
    assert_eq!(Section::Config.index(), 5);
    for i in 0..6 {
        assert_eq!(Section::at(i).unwrap().index(), i);
    }
    assert_eq!(Section::at(6), None);
}

#[test]
fn cyclic_steps() {
    assert_eq!(step_index(Some(0), true, 6), 1);
    assert_eq!(step_index(Some(5), true, 6), 0);
    assert_eq!(step_index(Some(0), false, 6), 5);
    assert_eq!(step_index(None, true, 3), 1);
    for i in 0..6 {
        assert_eq!(step_index(Some(step_index(Some(i), true, 6)), false, 6), i);
    }
}

#[test]
fn new_app_starts_in_chat() {
    let app = new_app();
    assert_eq!(app.active_section, Section::Chat);
    assert_eq!(app.focus, Focus::MainPanel);
    assert_eq!(app.sidebar_selected, Some(0));
    assert!(!app.should_quit);
    assert!(app.chat.messages.is_empty());
}

#[test]
fn sidebar_navigation_wraps() {
    let mut app = new_app();
    let mut effects = Vec::new();
    app.focus = Focus::Sidebar;
    app.handle_key(key('j'), "", &mut effects);
    assert_eq!(app.sidebar_selected, Some(1));
    app.handle_key(key('k'), "", &mut effects);
    app.handle_key(key('k'), "", &mut effects);
    assert_eq!(app.sidebar_selected, Some(5));
    app.handle_key(code(KeyCode::Enter), "", &mut effects);
    assert_eq!(app.active_section, Section::Config);
    assert_eq!(app.focus, Focus::MainPanel);
}

#[test]
fn jumping_to_models_fetches_them() {
    let mut app = new_app();
    let mut effects = Vec::new();
    app.focus = Focus::Sidebar;
    let act = app.handle_key(key('2'), "", &mut effects);
    assert_eq!(act, Action::JumpToSection(Section::Models));
    assert_eq!(app.active_section, Section::Models);
    assert!(app.models.loading);
    assert!(matches!(effects.last(), Some(Effect::FetchModels)));
}

#[test]
fn quit_key_sets_quit() {
    let mut app = new_app();
    let mut effects = Vec::new();
    app.focus = Focus::Sidebar;
    app.handle_key(key('q'), "", &mut effects);
    assert!(app.should_quit);
}

#[test]
fn sending_without_model_is_refused() {
    let mut app = new_app();
    let mut effects = Vec::new();
    app.send_chat_message("hello", &mut effects);
    assert!(app.chat.messages.is_empty());
    assert_eq!(app.status_message.as_deref(), Some("No model selected. Press Alt+M to pick one."));
    assert!(effects.is_empty());
}

#[test]
fn send_then_streamed_reply() {
    let mut app = new_app();
    let mut effects = Vec::new();
    app.chat.current_model = Some("llama3".to_string());
    app.send_chat_message("  hi there ", &mut effects);
    assert_eq!(app.chat.messages.len(), 1);
    assert_eq!(app.chat.messages[0].role, "user");
    assert_eq!(app.chat.messages[0].content, "hi there");
    assert!(app.chat.is_streaming);
    assert!(matches!(effects[0], Effect::ClearChatInput));
    assert!(matches!(&effects[1], Effect::SendChat { model, messages } if model == "llama3" && messages.len() == 1));
    app.handle_api_event(ApiEvent::ChatToken("Hel".to_string()), &mut effects);
    app.handle_api_event(ApiEvent::ChatToken("lo".to_string()), &mut effects);
    assert_eq!(app.chat.streaming_buffer, "Hello");
    app.handle_api_event(
        ApiEvent::ChatDone { eval_count: Some(5), eval_duration: Some(10), total_duration: Some(20) },
        &mut effects,
    );
    assert!(!app.chat.is_streaming);
    assert_eq!(app.chat.messages.len(), 2);
    assert_eq!(app.chat.messages[1].role, "assistant");
    assert_eq!(app.chat.messages[1].content, "Hello");
    assert!(app.chat.streaming_buffer.is_empty());
    let stats = app.chat.last_stats.as_ref().unwrap();
    assert_eq!(stats.eval_count, 5);
}

#[test]
fn blank_message_is_not_sent() {
    let mut app = new_app();
    let mut effects = Vec::new();
    app.chat.current_model = Some("m".to_string());
    app.send_chat_message("   ", &mut effects);
    assert!(app.chat.messages.is_empty());
    assert!(effects.is_empty());
}

#[test]
fn chat_error_stops_streaming() {
    let mut app = new_app();
    let mut effects = Vec::new();
    app.chat.is_streaming = true;
    app.chat.streaming_buffer = "partial".to_string();
    app.handle_api_event(ApiEvent::ChatError("boom".to_string()), &mut effects);
    assert!(!app.chat.is_streaming);
    assert!(app.chat.streaming_buffer.is_empty());
    assert_eq!(app.status_message.as_deref(), Some("Chat error: boom"));
}

fn model(name: &str) -> ModelInfo {
    ModelInfo { name: name.to_string(), size: 2048, modified_at: String::new(), digest: None, details: None }
}

#[test]
fn models_loaded_selects_first() {
    let mut app = new_app();
    let mut effects = Vec::new();
    app.handle_api_event(ApiEvent::ModelsLoaded(vec![model("a"), model("b")]), &mut effects);
    assert_eq!(app.models.models.len(), 2);
    assert_eq!(app.models.selected, Some(0));
    assert!(!app.models.loading);
}

#[test]
fn pull_progress_keeps_one_layer_per_digest() {
    let mut layers: Vec<PullLayer> = Vec::new();
    record_layer(&mut layers, "sha256:a".to_string(), 10, 1);
    record_layer(&mut layers, "sha256:b".to_string(), 20, 2);
    record_layer(&mut layers, "sha256:a".to_string(), 10, 10);
    assert_eq!(layers.len(), 2);
    assert_eq!(layers[0].digest, "sha256:a");
    assert_eq!(layers[0].progress.completed, 10);
    assert_eq!(layers[1].progress.total, 20);
}

#[test]
fn chat_chunks_become_events() {
    let chunk = ChatResponse {
        message: Some(ChatMessage { role: "assistant".to_string(), content: "tok".to_string() }),
        done: Some(false),
        eval_count: None,
        eval_duration: None,
        total_duration: None,
        error: None,
    };
    let (events, stop) = chat_chunk_events(chunk);
    assert!(!stop);
    assert!(matches!(events.as_slice(), [ApiEvent::ChatToken(t)] if t == "tok"));
    let failed = ChatResponse {
        message: None,
        done: None,
        eval_count: None,
        eval_duration: None,
        total_duration: None,
        error: Some("bad".to_string()),
    };
    let (events, stop) = chat_chunk_events(failed);
    assert!(stop);
    assert!(matches!(events.as_slice(), [ApiEvent::ChatError(e)] if e == "bad"));
}

#[test]
fn pull_chunk_error_stops() {
    let chunk = ProgressResponse {
        status: None,
        digest: None,
        total: None,
        completed: None,
        error: Some("no such model".to_string()),
    };
    let (events, stop) = pull_chunk_events(chunk, "x");
    assert!(stop);
    assert!(matches!(events.as_slice(), [ApiEvent::PullError(e)] if e == "no such model"));
}

#[test]
fn theme_styles() {
    let t = theme();
    assert_eq!(t.border, Style::new().fg(Color::DarkGray));
    assert_eq!(t.title.fg, Some(Color::White));
    assert_eq!(t.title.add_modifier, BOLD);
    assert_eq!(t.system_label.add_modifier, DIM);
    assert_eq!(t.italic.add_modifier, ITALIC);
    assert_eq!(t.link.add_modifier, UNDERLINED);
    assert_eq!(t.status_bar.bg, Some(Color::DarkGray));
    assert_eq!(t.code_block_bg, Color::Rgb(30, 30, 30));
}

#[test]
fn markdown_paragraphs_and_headings() {
    let lines = to_lines("# Title\n\nSome *text* and **bold**.", 80);
    assert_eq!(texts(&lines), vec!["Title", "Some text and bold."]);
    let t = theme();
    assert_eq!(lines[0].spans[0].style, t.heading);
    assert_eq!(lines[1].spans[1].style.add_modifier, ITALIC);
    assert_eq!(lines[1].spans[3].style.add_modifier, BOLD);
}

#[test]
fn markdown_lists() {
    let lines = to_lines("- one\n- two\n\n3. three\n4. four", 80);
    assert_eq!(texts(&lines), vec!["- one", "- two", "3. three", "4. four"]);
    let nested = to_lines("- a\n  - b", 80);
    assert_eq!(texts(&nested), vec!["- a", "  - b"]);
}

#[test]
fn markdown_code_blocks_and_rules() {
    let lines = to_lines("```rust\nfn main() {}\nlet x = 1;\n```\n\n---\n\nend", 80);
    assert_eq!(
        texts(&lines),
        vec!["[rust]", "fn main() {}", "let x = 1;", &"\u{2500}".repeat(40), "end"]
    );
    assert_eq!(lines[1].spans[0].style.bg, Some(Color::Rgb(30, 30, 30)));
    let inline = to_lines("use `cargo`", 80);
    assert_eq!(lines.len(), 5);
    assert_eq!(inline[0].spans[1].content, "cargo");
    assert_eq!(inline[0].spans[1].style, theme().code_inline);
}

#[test]
fn markdown_never_ends_blank() {
    for text in ["", "para\n\n", "# h\n\n- x\n", "> quote\n\nmore"] {
        let lines = to_lines(text, 80);
        if let Some(last) = lines.last() {
            let blank = last.spans.is_empty() || (last.spans.len() == 1 && last.spans[0].content.is_empty());
            assert!(!blank, "{:?}", text);
        }
    }
    assert!(to_lines("", 80).is_empty());
}

#[test]
fn transcript_of_a_conversation() {
    let mut app = new_app();
    app.chat.messages.push(ChatMessage { role: "system".to_string(), content: "rules".to_string() });
    app.chat.messages.push(ChatMessage { role: "user".to_string(), content: "line1\nline2".to_string() });
    app.chat.messages.push(ChatMessage { role: "assistant".to_string(), content: "**hi**".to_string() });
    app.chat.messages.push(ChatMessage { role: "tool".to_string(), content: "ignored".to_string() });
    let lines = transcript(&app.chat, 0);
    assert_eq!(
        texts(&lines),
        vec!["System:", "  rules", "", "You:", "  line1", "  line2", "", "Assistant:", "  hi", ""]
    );
}

#[test]
fn transcript_while_streaming() {
    let mut app = new_app();
    app.chat.is_streaming = true;
    assert_eq!(texts(&transcript(&app.chat, 2)), vec!["Assistant:", "  Thinking..", ""]);
    app.chat.streaming_buffer = "Hel".to_string();
    assert_eq!(texts(&transcript(&app.chat, 1)), vec!["Assistant:", "  Hel\u{2588}", ""]);
    assert_eq!(texts(&transcript(&app.chat, 3)), vec!["Assistant:", "  Hel", ""]);
}

#[test]
fn empty_transcript_hints() {
    let mut app = new_app();
    assert_eq!(
        texts(&transcript(&app.chat, 0)),
        vec![
            "",
            "  Start a conversation by typing a message below.",
            "  Press Ctrl+M to select a model first."
        ]
    );
    app.chat.current_model = Some("m".to_string());
    assert_eq!(texts(&transcript(&app.chat, 0)).len(), 2);
    app.chat.chat_focus = ChatFocus::Input;
}

#[test]
fn scroll_positions() {
    assert_eq!(chat_scroll(100, 20, true, 0), 80);
    assert_eq!(chat_scroll(10, 20, true, 0), 0);
    assert_eq!(chat_scroll(100, 20, false, 5), 5);
    assert_eq!(chat_scroll(100, 20, false, 500), 80);
    assert_eq!(chat_scroll(65536 + 30, 20, true, 0), 10);
}

#[test]
fn toasts() {
    assert_eq!(toast_kind("Connection FAILED"), ToastKind::Failure);
    assert_eq!(toast_kind("Failed to save config: error"), ToastKind::Failure);
    assert_eq!(toast_kind("Switched to 'prod'"), ToastKind::Success);
    assert_eq!(toast_kind("OK: reachable"), ToastKind::Success);
    assert_eq!(toast_kind("Deleting x..."), ToastKind::Info);
    assert_eq!(toast_kind("error but OK"), ToastKind::Failure);
    assert_eq!(toast_color(ToastKind::Failure), Color::Red);
    assert_eq!(toast_icon(ToastKind::Success).0, "✓ ");
    assert_eq!(toast_icon(ToastKind::Info).1, Style::new().fg(Color::Yellow));
}

#[test]
fn panel_texts() {
    let (label, style) = sidebar_entry(Section::Models, Section::Models);
    assert_eq!(label, "> 2 Models");
    assert_eq!(style, theme().sidebar_selected);
    assert_eq!(sidebar_entry(Section::Chat, Section::Models).0, "  1 Chat");
    let row = model_row(&model("llama3"));
    assert_eq!(row, vec!["llama3", "2KB", "", "", ""]);
    assert_eq!(active_profile_label(&None), "(default)");
    assert_eq!(active_profile_label(&Some("prod".to_string())), "prod");
    assert_eq!(profile_marker("prod", &Some("prod".to_string())), (true, "* ".to_string()));
    assert_eq!(profile_marker("dev", &Some("prod".to_string())), (false, "  ".to_string()));
}

#[test]
fn detail_window_lines() {
    let d = ShowDetails {
        modelfile: None,
        parameters: Some("stop a\nstop b".to_string()),
        template: None,
        model_info: Some("{\n  \"k\": 1\n}".to_string()),
    };
    assert_eq!(
        texts(&detail_lines(&d)),
        vec![
            "Parameters",
            "  stop a",
            "  stop b",
            "",
            "Model Info",
            "  {",
            "    \"k\": 1",
            "  }",
            "",
            "j/k=Scroll  Ctrl+D/U=Page  Esc=Close"
        ]
    );
}

#[test]
fn picker_and_status_texts() {
    assert_eq!(picker_entry("llama3", &Some("llama3".to_string())).0, "* llama3");
    assert_eq!(picker_entry("qwen", &Some("llama3".to_string())), ("  qwen".to_string(), Style::new()));
    assert_eq!(connection_label(true).0, " Connected ");
    assert_eq!(connection_label(false).0, " Disconnected ");
    assert_eq!(status_model_label(Section::Chat, &Some("m".to_string())), " Model: m ");
    assert_eq!(status_model_label(Section::Chat, &None), " No model ");
    assert_eq!(status_model_label(Section::Models, &Some("m".to_string())), "");
}

#[test]
fn help_and_quit_keys() {
    assert_eq!(map_key_event(key('?'), &InputContext::ModelsTable), Action::ToggleHelp);
    assert_eq!(map_key_event(key('?'), &InputContext::ChatMessages), Action::ToggleHelp);
    assert_eq!(
        map_key_event(KeyEvent { code: KeyCode::Char('?'), modifiers: CONTROL }, &InputContext::ChatInput),
        Action::ToggleHelp
    );
    assert_eq!(map_key_event(key('q'), &InputContext::ConfigTable), Action::Quit);
    assert_eq!(map_key_event(key('q'), &InputContext::RunningTable), Action::Quit);
}

#[test]
fn help_toggles_back() {
    let mut app = new_app();
    let mut effects = Vec::new();
    app.focus = Focus::Sidebar;
    app.handle_key(key('?'), "", &mut effects);
    assert!(app.show_help);
    app.handle_key(key('?'), "", &mut effects);
    assert!(!app.show_help);
    assert_eq!(app.focus, Focus::Sidebar);
    assert!(effects.is_empty());
}

#[test]
fn popup_geometry() {
    let screen = Area { x: 0, y: 0, width: 100, height: 40 };
    assert_eq!(popup_area(screen, 60, 8), Area { x: 20, y: 16, width: 60, height: 8 });
    let small = Area { x: 2, y: 1, width: 30, height: 10 };
    assert_eq!(popup_area(small, 60, 8), Area { x: 4, y: 3, width: 26, height: 6 });
    let tiny = Area { x: 0, y: 0, width: 3, height: 2 };
    assert_eq!(popup_area(tiny, 10, 10), Area { x: 1, y: 1, width: 0, height: 0 });
    assert_eq!(detail_area(screen), Area { x: 10, y: 4, width: 80, height: 32 });
}

fn type_text(app: &mut App, text: &str, effects: &mut Vec<Effect>) {
    for c in text.chars() {
        app.handle_key(key(c), "", effects);
    }
}

#[test]
fn adding_a_profile_from_the_config_panel() {
    let mut app = new_app();
    let mut effects = Vec::new();
    app.focus = Focus::Sidebar;
    app.handle_key(key('6'), "", &mut effects);
    assert_eq!(app.active_section, Section::Config);
    app.handle_key(key('a'), "", &mut effects);
    assert!(matches!(app.text_input.as_ref().map(|t| &t.on_submit), Some(TextInputAction::ConfigAddName)));
    type_text(&mut app, "prod", &mut effects);
    app.handle_key(code(KeyCode::Enter), "", &mut effects);
    match app.text_input.as_ref().map(|t| &t.on_submit) {
        Some(TextInputAction::ConfigAddUrl(name)) => assert_eq!(name, "prod"),
        _ => panic!("expected the URL prompt"),
    }
    assert_eq!(app.text_input.as_ref().unwrap().prompt, "URL for profile 'prod':");
    type_text(&mut app, "https://prod.example", &mut effects);
    app.handle_key(code(KeyCode::Enter), "", &mut effects);
    assert!(app.text_input.is_none());
    assert_eq!(app.config.urls.get("prod").map(|s| s.as_str()), Some("https://prod.example"));
    assert_eq!(app.config.active_profile.as_deref(), Some("prod"));
    let then = match effects.pop() {
        Some(Effect::SaveConfig { then }) => then,
        _ => panic!("expected a save"),
    };
    assert!(matches!(&then, SaveFollowUp::ProfileAdded { name } if name == "prod"));
    let mut more = Vec::new();
    app.after_config_save(then, Ok(()), &mut more);
    assert_eq!(app.status_message.as_deref(), Some("Added profile 'prod'"));
    assert_eq!(app.config_state.profiles.len(), 1);
}

#[test]
fn adding_a_profile_with_a_bad_url_is_refused() {
    let mut app = new_app();
    let mut effects = Vec::new();
    app.active_section = Section::Config;
    app.handle_key(key('a'), "", &mut effects);
    type_text(&mut app, "x", &mut effects);
    app.handle_key(code(KeyCode::Enter), "", &mut effects);
    type_text(&mut app, "ftp://x", &mut effects);
    app.handle_key(code(KeyCode::Enter), "", &mut effects);
    assert!(app.config.urls.is_empty());
    assert_eq!(app.status_message.as_deref(), Some("URL must start with http:// or https://"));
    assert!(effects.is_empty());
}

#[test]
fn deleting_a_model_asks_first() {
    let mut app = new_app();
    let mut effects = Vec::new();
    app.handle_api_event(ApiEvent::ModelsLoaded(vec![model("a"), model("b")]), &mut effects);
    app.active_section = Section::Models;
    app.handle_key(key('j'), "", &mut effects);
    assert_eq!(app.models.selected, Some(1));
    app.handle_key(key('d'), "", &mut effects);
    let confirm = app.confirm.as_ref().expect("a confirmation");
    assert!(matches!(&confirm.on_confirm, ConfirmAction::DeleteModel(n) if n == "b"));
    assert_eq!(confirm.message, "Delete model 'b'? This cannot be undone. (y/n)");
    app.handle_key(key('n'), "", &mut effects);
    assert!(app.confirm.is_none());
    assert!(effects.is_empty());
    app.handle_key(key('d'), "", &mut effects);
    app.handle_key(key('y'), "", &mut effects);
    assert!(matches!(effects.last(), Some(Effect::DeleteModel { name }) if name == "b"));
    assert_eq!(app.status_message.as_deref(), Some("Deleting b..."));
}

#[test]
fn pulling_a_model_shows_progress() {
    let mut app = new_app();
    let mut effects = Vec::new();
    app.active_section = Section::Models;
    app.handle_key(key('p'), "", &mut effects);
    type_text(&mut app, "llama3", &mut effects);
    app.handle_key(code(KeyCode::Enter), "", &mut effects);
    assert!(matches!(effects.last(), Some(Effect::PullModel { name }) if name == "llama3"));
    let pull = app.pull.as_ref().expect("a pull window");
    assert_eq!(pull.model_name, "llama3");
    assert!(!pull.is_complete);
    app.handle_api_event(
        ApiEvent::PullProgress { status: "pulling abc".to_string(), digest: Some("sha256:abc".to_string()), total: Some(10), completed: Some(4) },
        &mut effects,
    );
    app.handle_api_event(
        ApiEvent::PullProgress { status: "pulling abc".to_string(), digest: Some("sha256:abc".to_string()), total: Some(10), completed: Some(10) },
        &mut effects,
    );
    app.handle_api_event(
        ApiEvent::PullProgress { status: "success".to_string(), digest: None, total: None, completed: None },
        &mut effects,
    );
    app.handle_api_event(ApiEvent::PullComplete("llama3".to_string()), &mut effects);
    let pull = app.pull.as_ref().expect("a pull window");
    assert!(pull.is_complete);
    assert_eq!(pull.layers.len(), 1);
    assert_eq!(pull.layers[0].progress.completed, 10);
    app.handle_key(code(KeyCode::Esc), "", &mut effects);
    assert!(app.pull.is_none());
}

#[test]
fn esc_in_chat_input_focuses_sidebar() {
    assert_eq!(map_key_event(code(KeyCode::Esc), &InputContext::ChatInput), Action::FocusSidebar);
    assert_eq!(map_key_event(code(KeyCode::Tab), &InputContext::ChatInput), Action::FocusSidebar);
    assert_eq!(map_key_event(code(KeyCode::Esc), &InputContext::ChatMessages), Action::FocusSidebar);
}

#[test]
fn short_model_lists_are_within_limits() {
    assert!(ApiEvent::ModelsLoaded(Vec::new()).within_limits());
    assert!(ApiEvent::RunningModelsLoaded(Vec::new()).within_limits());
    assert!(ApiEvent::ConnectionStatus(true).within_limits());
}

#[test]
fn new_app_starts_empty() {
    let app = new_app();
    assert_eq!(app.chat.scroll_offset, 0);
    assert!(app.chat.streaming_buffer.is_empty());
    assert!(app.chat.last_stats.is_none());
    assert!(!app.models.loading);
    assert!(!app.running.loading);
    assert!(app.models.selected.is_none());
    assert!(app.running.selected.is_none());
    assert!(app.config_state.selected.is_none());
    assert!(app.model_picker.filter.is_empty());
    assert!(app.model_picker.filtered_models.is_empty());
    assert!(app.model_picker.selected.is_none());
    assert_eq!(app.status_serial, 0);
}
