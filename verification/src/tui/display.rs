//! What the panels of the terminal interface show, as styled lines and
//! texts; drawing them is left to the front end.

use vstd::prelude::*;
use crate::api::{ChatMessage, ModelInfo, RunningModel, ShowDetails};
use crate::cli::messages_view;
use crate::config::opt_view;
use crate::numfmt::{bytes_to_human, human_size};
use crate::text::{concat2, contains, contains_seq, lines, lines_of, str_eq};
use crate::tui::app::{ChatState, Section, section_label};
use crate::tui::markdown::{MdLine, StyledSpan, lines_view, markdown_events, render, spans_view, to_lines};
use crate::tui::theme::{BOLD, Color, Style, default_theme, fg_style, plain_style, theme, with_modifier};

verus! {

pub type SpanV = (Seq<char>, Style);

pub type LineV = Seq<SpanV>;

/// The lines of a text, each indented by two spaces, in one style.
pub open spec fn indented_text(ls: Seq<Seq<char>>, style: Style) -> Seq<LineV> {
    ls.map_values(|l: Seq<char>| seq![("  "@ + l, style)])
}

/// Rendered lines, each indented by a plain two-space span.
pub open spec fn indented_lines(ls: Seq<LineV>) -> Seq<LineV> {
    ls.map_values(|l: LineV| seq![("  "@, plain_style())] + l)
}

/// The lines of one message of the conversation: a label by role, the
/// content (rendered as Markdown for the assistant), and an empty line.
/// Messages of another role are not shown.
pub open spec fn message_lines(role: Seq<char>, content: Seq<char>) -> Seq<LineV> {
    let t = default_theme();
    if role == "user"@ {
        seq![seq![("You:"@, t.user_label)]] + indented_text(lines_of(content), plain_style()) + seq![
            seq![],
        ]
    } else if role == "assistant"@ {
        seq![seq![("Assistant:"@, t.assistant_label)]] + indented_lines(
            render(markdown_events(content)),
        ) + seq![seq![]]
    } else if role == "system"@ {
        seq![seq![("System:"@, t.system_label)]] + indented_text(lines_of(content), t.system_label)
            + seq![seq![]]
    } else {
        seq![]
    }
}

pub open spec fn conversation_lines(msgs: Seq<(Seq<char>, Seq<char>)>) -> Seq<LineV>
    decreases msgs.len(),
{
    if msgs.len() == 0 {
        seq![]
    } else {
        conversation_lines(msgs.drop_last()) + message_lines(msgs.last().0, msgs.last().1)
    }
}

/// The "thinking" indicator, with a number of dots that follows the tick count.
pub open spec fn thinking(tick: u64) -> Seq<char> {
    if tick % 4 == 0 {
        "  Thinking"@
    } else if tick % 4 == 1 {
        "  Thinking."@
    } else if tick % 4 == 2 {
        "  Thinking.."@
    } else {
        "  Thinking..."@
    }
}

/// `ls` with a block cursor at the end of its last line.
pub open spec fn with_cursor(ls: Seq<LineV>) -> Seq<LineV> {
    ls.update(ls.len() - 1, ls.last().push(("\u{2588}"@, fg_style(Color::Cyan))))
}

/// The lines of a reply being received: the text so far, with a cursor
/// that blinks with the tick count, or a thinking indicator before any text.
pub open spec fn streaming_lines(
    prev: Seq<LineV>,
    streaming: bool,
    buffer: Seq<char>,
    tick: u64,
) -> Seq<LineV> {
    let t = default_theme();
    if streaming && buffer.len() > 0 {
        let body = prev + seq![seq![("Assistant:"@, t.assistant_label)]] + indented_lines(
            render(markdown_events(buffer)),
        );
        (if tick % 4 < 2 {
            with_cursor(body)
        } else {
            body
        }) + seq![seq![]]
    } else if streaming {
        prev + seq![seq![("Assistant:"@, t.assistant_label)], seq![(thinking(tick), t.muted)], seq![]]
    } else {
        prev
    }
}

/// What the conversation panel shows.
pub open spec fn transcript_lines(
    msgs: Seq<(Seq<char>, Seq<char>)>,
    streaming: bool,
    buffer: Seq<char>,
    tick: u64,
    has_model: bool,
) -> Seq<LineV> {
    let t = default_theme();
    let ls = streaming_lines(conversation_lines(msgs), streaming, buffer, tick);
    if ls.len() > 0 {
        ls
    } else if has_model {
        seq![seq![], seq![("  Start a conversation by typing a message below."@, t.muted)]]
    } else {
        seq![
            seq![],
            seq![("  Start a conversation by typing a message below."@, t.muted)],
            seq![("  Press Ctrl+M to select a model first."@, t.muted)],
        ]
    }
}

fn span_line(text: String, style: Style) -> (l: MdLine)
    ensures
        l.view() == seq![(text@, style)],
{
    let mut spans: Vec<StyledSpan> = Vec::new();
    spans.push(StyledSpan { content: text, style });
    let l = MdLine { spans };
    assert(l.view() =~= seq![(text@, style)]);
    l
}

fn empty_line() -> (l: MdLine)
    ensures
        l.view() == Seq::<SpanV>::empty(),
{
    let l = MdLine { spans: Vec::new() };
    assert(l.view() =~= Seq::<SpanV>::empty());
    l
}

fn push_line(out: &mut Vec<MdLine>, l: MdLine)
    ensures
        lines_view(final(out)@) == lines_view(old(out)@).push(l.view()),
{
    let ghost before = lines_view(out@);
    out.push(l);
    assert(lines_view(out@) =~= before.push(l.view()));
}

fn push_text_lines(out: &mut Vec<MdLine>, content: &str, style: Style)
    ensures
        lines_view(final(out)@) == lines_view(old(out)@) + indented_text(lines_of(content@), style),
{
    let ls = lines(content);
    let ghost lv = ls@.map_values(|l: String| l@);
    let ghost start = lines_view(out@);
    let mut i: usize = 0;
    while i < ls.len()
        invariant
            i <= ls@.len(),
            lv == ls@.map_values(|l: String| l@),
            lv == lines_of(content@),
            lines_view(out@) == start + indented_text(lv.take(i as int), style),
        decreases ls@.len() - i,
    {
        let text = concat2("  ", ls[i].as_str());
        push_line(out, span_line(text, style));
        assert(indented_text(lv.take(i + 1), style) =~= indented_text(lv.take(i as int), style).push(
            seq![("  "@ + ls@[i as int]@, style)],
        ));
        i += 1;
    }
    assert(lv.take(ls@.len() as int) =~= lv);
}

fn push_markdown_lines(out: &mut Vec<MdLine>, content: &str)
    ensures
        lines_view(final(out)@) == lines_view(old(out)@) + indented_lines(
            render(markdown_events(content@)),
        ),
{
    let mut md = to_lines(content, 0);
    let ghost mv = lines_view(md@);
    let ghost start = lines_view(out@);
    let mut i: usize = 0;
    let n = md.len();
    while i < n
        invariant
            n == md@.len(),
            i <= n,
            mv == lines_view(md@),
            mv == render(markdown_events(content@)),
            lines_view(out@) == start + indented_lines(mv.take(i as int)),
        decreases n - i,
    {
        let mut spans: Vec<StyledSpan> = Vec::new();
        spans.push(StyledSpan { content: "  ".to_string(), style: Style::new() });
        let mut k: usize = 0;
        while k < md[i].spans.len()
            invariant
                n == md@.len(),
                i < n,
                k <= md@[i as int].spans@.len(),
                spans_view(spans@) == seq![("  "@, plain_style())] + spans_view(
                    md@[i as int].spans@,
                ).take(k as int),
            decreases md@[i as int].spans@.len() - k,
        {
            let ghost before = spans_view(spans@);
            let sp = &md[i].spans[k];
            spans.push(StyledSpan { content: sp.content.clone(), style: sp.style });
            assert(spans_view(spans@) =~= before.push(md@[i as int].spans@[k as int].view()));
            assert(spans_view(md@[i as int].spans@).take(k + 1) =~= spans_view(
                md@[i as int].spans@,
            ).take(k as int).push(md@[i as int].spans@[k as int].view()));
            k += 1;
        }
        assert(spans_view(md@[i as int].spans@).take(k as int) =~= spans_view(
            md@[i as int].spans@,
        ));
        let line = MdLine { spans };
        assert(line.view() == seq![("  "@, plain_style())] + mv[i as int]);
        push_line(out, line);
        assert(indented_lines(mv.take(i + 1)) =~= indented_lines(mv.take(i as int)).push(
            line.view(),
        ));
        i += 1;
    }
    assert(mv.take(n as int) =~= mv);
}

fn push_message_lines(out: &mut Vec<MdLine>, m: &ChatMessage)
    ensures
        lines_view(final(out)@) == lines_view(old(out)@) + message_lines(m.role@, m.content@),
{
    let t = theme();
    let ghost start = lines_view(out@);
    proof {
        reveal_strlit("user");
        reveal_strlit("assistant");
        reveal_strlit("system");
        assert("user"@.len() == 4 && "assistant"@.len() == 9 && "system"@.len() == 6);
    }
    if str_eq(m.role.as_str(), "user") {
        push_line(out, span_line("You:".to_string(), t.user_label));
        push_text_lines(out, m.content.as_str(), Style::new());
        push_line(out, empty_line());
        assert(lines_view(out@) =~= start + message_lines(m.role@, m.content@));
    } else if str_eq(m.role.as_str(), "assistant") {
        push_line(out, span_line("Assistant:".to_string(), t.assistant_label));
        push_markdown_lines(out, m.content.as_str());
        push_line(out, empty_line());
        assert(lines_view(out@) =~= start + message_lines(m.role@, m.content@));
    } else if str_eq(m.role.as_str(), "system") {
        push_line(out, span_line("System:".to_string(), t.system_label));
        push_text_lines(out, m.content.as_str(), t.system_label);
        push_line(out, empty_line());
        assert(lines_view(out@) =~= start + message_lines(m.role@, m.content@));
    } else {
        assert(lines_view(out@) =~= start + message_lines(m.role@, m.content@));
    }
}

fn thinking_text(tick: u64) -> (s: String)
    ensures
        s@ == thinking(tick),
{
    let k = tick % 4;
    if k == 0 {
        "  Thinking".to_string()
    } else if k == 1 {
        "  Thinking.".to_string()
    } else if k == 2 {
        "  Thinking..".to_string()
    } else {
        "  Thinking...".to_string()
    }
}

/// The lines of the conversation panel.
pub fn transcript(chat: &ChatState, tick: u64) -> (out: Vec<MdLine>)
    ensures
        lines_view(out@) == transcript_lines(
            messages_view(chat.messages@),
            chat.is_streaming,
            chat.streaming_buffer@,
            tick,
            chat.current_model is Some,
        ),
{
    let t = theme();
    let mut out: Vec<MdLine> = Vec::new();
    let ghost mv = messages_view(chat.messages@);
    let mut i: usize = 0;
    while i < chat.messages.len()
        invariant
            i <= chat.messages@.len(),
            mv == messages_view(chat.messages@),
            lines_view(out@) == conversation_lines(mv.take(i as int)),
        decreases chat.messages@.len() - i,
    {
        proof {
            assert(mv.take(i + 1).drop_last() =~= mv.take(i as int));
        }
        push_message_lines(&mut out, &chat.messages[i]);
        i += 1;
    }
    assert(mv.take(chat.messages@.len() as int) =~= mv);
    let ghost prev = lines_view(out@);
    if chat.is_streaming && !chat.streaming_buffer.as_str().is_empty() {
        push_line(&mut out, span_line("Assistant:".to_string(), t.assistant_label));
        push_markdown_lines(&mut out, chat.streaming_buffer.as_str());
        if tick % 4 < 2 {
            assert(lines_view(out@).len() == out@.len());
            let last = out.len() - 1;
            let ghost before = lines_view(out@);
            let mut line = out.remove(last);
            let ghost lv = line.view();
            line.spans.push(StyledSpan { content: "\u{2588}".to_string(), style: Style::new().fg(Color::Cyan) });
            assert(line.view() =~= lv.push(("\u{2588}"@, fg_style(Color::Cyan))));
            push_line(&mut out, line);
            assert(lines_view(out@) =~= with_cursor(before));
        }
        push_line(&mut out, empty_line());
    } else if chat.is_streaming {
        push_line(&mut out, span_line("Assistant:".to_string(), t.assistant_label));
        push_line(&mut out, span_line(thinking_text(tick), t.muted));
        push_line(&mut out, empty_line());
    }
    assert(lines_view(out@) =~= streaming_lines(prev, chat.is_streaming, chat.streaming_buffer@, tick));
    if out.len() == 0 {
        push_line(&mut out, empty_line());
        push_line(
            &mut out,
            span_line("  Start a conversation by typing a message below.".to_string(), t.muted),
        );
        if chat.current_model.is_none() {
            push_line(&mut out, span_line("  Press Ctrl+M to select a model first.".to_string(), t.muted));
        }
    }
    out
}

/// How far the conversation panel is scrolled: to the bottom when it
/// follows the conversation, else the chosen offset, never past the
/// bottom. Line counts are taken modulo 2^16, as the panel's 16-bit
/// arithmetic does.
pub open spec fn scroll_position(total: usize, visible: u16, follow: bool, offset: usize) -> u16 {
    let lines = (total % 0x10000) as u16;
    let bottom = if lines > visible {
        (lines - visible) as u16
    } else {
        0u16
    };
    if follow {
        bottom
    } else {
        let o = (offset % 0x10000) as u16;
        if o < bottom {
            o
        } else {
            bottom
        }
    }
}

pub fn chat_scroll(total: usize, visible: u16, follow: bool, offset: usize) -> (s: u16)
    ensures
        s == scroll_position(total, visible, follow, offset),
{
    let lines = (total % 0x10000) as u16;
    let bottom = lines.saturating_sub(visible);
    if follow {
        bottom
    } else {
        let o = (offset % 0x10000) as u16;
        if o < bottom {
            o
        } else {
            bottom
        }
    }
}

/// The kind of a notice, which sets its colour and mark.
#[derive(Debug, Clone, Copy, PartialEq, Eq, Structural)]
pub enum ToastKind {
    Failure,
    Success,
    Info,
}

pub open spec fn toast_kind_of(msg: Seq<char>) -> ToastKind {
    if contains_seq(msg, "FAILED"@) || contains_seq(msg, "error"@) || contains_seq(msg, "Error"@) {
        ToastKind::Failure
    } else if contains_seq(msg, "OK"@) || contains_seq(msg, "success"@) || contains_seq(
        msg,
        "Switched"@,
    ) {
        ToastKind::Success
    } else {
        ToastKind::Info
    }
}

/// The kind of the notice `msg`: a failure where it speaks of one, a
/// success where it says so, else plain information.
pub fn toast_kind(msg: &str) -> (k: ToastKind)
    ensures
        k == toast_kind_of(msg@),
{
    if contains(msg, "FAILED") || contains(msg, "error") || contains(msg, "Error") {
        ToastKind::Failure
    } else if contains(msg, "OK") || contains(msg, "success") || contains(msg, "Switched") {
        ToastKind::Success
    } else {
        ToastKind::Info
    }
}

/// The colour of a notice of kind `k`.
pub fn toast_color(k: ToastKind) -> (c: Color)
    ensures
        c == match k {
            ToastKind::Failure => Color::Red,
            ToastKind::Success => Color::Green,
            ToastKind::Info => Color::Yellow,
        },
{
    match k {
        ToastKind::Failure => Color::Red,
        ToastKind::Success => Color::Green,
        ToastKind::Info => Color::Yellow,
    }
}

/// The mark of a notice of kind `k`, with its style.
pub fn toast_icon(k: ToastKind) -> (r: (String, Style))
    ensures
        (r.0@, r.1) == match k {
            ToastKind::Failure => ("✗ "@, with_modifier(fg_style(Color::Red), BOLD)),
            ToastKind::Success => ("✓ "@, with_modifier(fg_style(Color::Green), BOLD)),
            ToastKind::Info => ("● "@, fg_style(Color::Yellow)),
        },
{
    match k {
        ToastKind::Failure => ("✗ ".to_string(), Style::new().fg(Color::Red).add_modifier(BOLD)),
        ToastKind::Success => ("✓ ".to_string(), Style::new().fg(Color::Green).add_modifier(BOLD)),
        ToastKind::Info => ("● ".to_string(), Style::new().fg(Color::Yellow)),
    }
}

/// The sidebar entry of the section at position `idx` (from 0).
pub open spec fn sidebar_label(idx: nat, label: Seq<char>, active: bool) -> Seq<char> {
    (if active {
        "> "@
    } else {
        "  "@
    }) + crate::text::decimal(idx + 1) + " "@ + label
}

pub fn sidebar_entry(section: Section, active: Section) -> (r: (String, Style))
    ensures
        r.0@ == sidebar_label(
            crate::tui::app::section_index(section) as nat,
            section_label(section),
            section == active,
        ),
        r.1 == if section == active {
            default_theme().sidebar_selected
        } else {
            default_theme().sidebar_unselected
        },
{
    let t = theme();
    let is_active = section == active;
    let mut s = if is_active {
        "> ".to_string()
    } else {
        "  ".to_string()
    };
    crate::text::push_decimal(&mut s, (section.index() + 1) as u64);
    let s2 = crate::text::concat3(s.as_str(), " ", section.label());
    (
        s2,
        if is_active {
            t.sidebar_selected
        } else {
            t.sidebar_unselected
        },
    )
}

/// The cells of a row of the installed-models table: name, size, family,
/// parameter size and quantization (empty where unknown).
pub fn model_row(m: &ModelInfo) -> (r: Vec<String>)
    ensures
        r@.len() == 5,
        r@[0]@ == m.name@,
        r@[1]@ == human_size(m.size as nat),
        r@[2]@ == match m.details {
            Some(d) => match d.family {
                Some(f) => f@,
                None => Seq::<char>::empty(),
            },
            None => Seq::<char>::empty(),
        },
        r@[3]@ == match m.details {
            Some(d) => match d.parameter_size {
                Some(f) => f@,
                None => Seq::<char>::empty(),
            },
            None => Seq::<char>::empty(),
        },
        r@[4]@ == match m.details {
            Some(d) => match d.quantization_level {
                Some(f) => f@,
                None => Seq::<char>::empty(),
            },
            None => Seq::<char>::empty(),
        },
{
    let mut r: Vec<String> = Vec::new();
    r.push(m.name.clone());
    r.push(bytes_to_human(m.size));
    match &m.details {
        Some(d) => {
            r.push(opt_or_empty(&d.family));
            r.push(opt_or_empty(&d.parameter_size));
            r.push(opt_or_empty(&d.quantization_level));
        },
        None => {
            r.push(String::new());
            r.push(String::new());
            r.push(String::new());
        },
    }
    r
}

fn opt_or_empty(o: &Option<String>) -> (s: String)
    ensures
        s@ == match *o {
            Some(v) => v@,
            None => Seq::<char>::empty(),
        },
{
    match o {
        Some(v) => v.clone(),
        None => String::new(),
    }
}

/// The cells of a row of the loaded-models table: name, size and expiry
/// (empty where unknown).
pub fn running_row(m: &RunningModel) -> (r: Vec<String>)
    ensures
        r@.len() == 3,
        r@[0]@ == m.name@,
        r@[1]@ == human_size(m.size as nat),
        r@[2]@ == match m.expires_at {
            Some(v) => v@,
            None => Seq::<char>::empty(),
        },
{
    let mut r: Vec<String> = Vec::new();
    r.push(m.name.clone());
    r.push(bytes_to_human(m.size));
    r.push(opt_or_empty(&m.expires_at));
    r
}

/// The name of the active profile as the configuration panel shows it.
pub fn active_profile_label(active: &Option<String>) -> (s: String)
    ensures
        s@ == match opt_view(*active) {
            Some(a) => a,
            None => "(default)"@,
        },
{
    match active {
        Some(a) => a.clone(),
        None => "(default)".to_string(),
    }
}

/// Whether the profile `name` is the active one, and the marker shown before it.
pub fn profile_marker(name: &str, active: &Option<String>) -> (r: (bool, String))
    ensures
        r.0 == (opt_view(*active) == Some(name@)),
        r.1@ == if r.0 {
            "* "@
        } else {
            "  "@
        },
{
    let is_active = match active {
        Some(a) => str_eq(a.as_str(), name),
        None => false,
    };
    (
        is_active,
        if is_active {
            "* ".to_string()
        } else {
            "  ".to_string()
        },
    )
}

/// A titled section of the model details: the title, the text indented,
/// and an empty line; nothing where the text is absent.
pub open spec fn detail_section(title: Seq<char>, text: Option<Seq<char>>) -> Seq<LineV> {
    match text {
        Some(x) => seq![seq![(title, default_theme().heading)]] + indented_text(
            lines_of(x),
            plain_style(),
        ) + seq![seq![]],
        None => seq![],
    }
}

/// What the model details window shows.
pub open spec fn detail_lines_of(
    parameters: Option<Seq<char>>,
    template: Option<Seq<char>>,
    model_info: Option<Seq<char>>,
    modelfile: Option<Seq<char>>,
) -> Seq<LineV> {
    detail_section("Parameters"@, parameters) + detail_section("Template"@, template)
        + detail_section("Model Info"@, model_info) + detail_section("Modelfile"@, modelfile)
        + seq![seq![("j/k=Scroll  Ctrl+D/U=Page  Esc=Close"@, default_theme().muted)]]
}

fn push_detail_section(out: &mut Vec<MdLine>, title: &str, text: &Option<String>)
    ensures
        lines_view(final(out)@) == lines_view(old(out)@) + detail_section(title@, opt_view(*text)),
{
    let ghost start = lines_view(out@);
    if let Some(x) = text {
        push_line(out, span_line(title.to_string(), theme().heading));
        push_text_lines(out, x.as_str(), Style::new());
        push_line(out, empty_line());
    }
    assert(lines_view(out@) =~= start + detail_section(title@, opt_view(*text)));
}

/// The lines of the model details window.
pub fn detail_lines(d: &ShowDetails) -> (out: Vec<MdLine>)
    ensures
        lines_view(out@) == detail_lines_of(
            opt_view(d.parameters),
            opt_view(d.template),
            opt_view(d.model_info),
            opt_view(d.modelfile),
        ),
{
    let mut out: Vec<MdLine> = Vec::new();
    assert(lines_view(out@) =~= Seq::<LineV>::empty());
    push_detail_section(&mut out, "Parameters", &d.parameters);
    push_detail_section(&mut out, "Template", &d.template);
    push_detail_section(&mut out, "Model Info", &d.model_info);
    push_detail_section(&mut out, "Modelfile", &d.modelfile);
    push_line(&mut out, span_line("j/k=Scroll  Ctrl+D/U=Page  Esc=Close".to_string(), theme().muted));
    assert(lines_view(out@) =~= detail_lines_of(
        opt_view(d.parameters),
        opt_view(d.template),
        opt_view(d.model_info),
        opt_view(d.modelfile),
    ));
    out
}

/// An entry of the model picker: the current model is marked and highlighted.
pub fn picker_entry(name: &str, current: &Option<String>) -> (r: (String, Style))
    ensures
        opt_view(*current) == Some(name@) ==> r.0@ == "* "@ + name@ && r.1 == with_modifier(
            fg_style(Color::Green),
            BOLD,
        ),
        opt_view(*current) != Some(name@) ==> r.0@ == "  "@ + name@ && r.1 == plain_style(),
{
    let is_current = match current {
        Some(c) => str_eq(c.as_str(), name),
        None => false,
    };
    if is_current {
        (concat2("* ", name), Style::new().fg(Color::Green).add_modifier(BOLD))
    } else {
        (concat2("  ", name), Style::new())
    }
}

/// The connection indicator of the status bar.
pub fn connection_label(connected: bool) -> (r: (String, Style))
    ensures
        connected ==> r.0@ == " Connected "@ && r.1 == default_theme().status_connected,
        !connected ==> r.0@ == " Disconnected "@ && r.1 == default_theme().status_disconnected,
{
    let t = theme();
    if connected {
        (" Connected ".to_string(), t.status_connected)
    } else {
        (" Disconnected ".to_string(), t.status_disconnected)
    }
}

/// The model part of the status bar: shown in the chat section only.
pub fn status_model_label(section: Section, model: &Option<String>) -> (s: String)
    ensures
        section != Section::Chat ==> s@ == Seq::<char>::empty(),
        section == Section::Chat ==> s@ == match opt_view(*model) {
            Some(m) => " Model: "@ + m + " "@,
            None => " No model "@,
        },
{
    if section != Section::Chat {
        String::new()
    } else {
        match model {
            Some(m) => crate::text::concat3(" Model: ", m.as_str(), " "),
            None => " No model ".to_string(),
        }
    }
}

} // verus!
