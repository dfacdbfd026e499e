//! Rendering of chat replies written in Markdown into styled lines.
//!
//! The Markdown parser (pulldown-cmark) turns the text into a stream of
//! events; `render_events` folds that stream into lines of styled spans.

use vstd::prelude::*;
use crate::text::{chars_of, decimal, lines, lines_of, push_char, push_chars, push_decimal};
use crate::tui::theme::{Color, Style, Theme, default_theme, fg_style, plain_style, theme, with_bg, with_fg, with_modifier};
use pulldown_cmark::{CodeBlockKind, Event, Parser, Tag, TagEnd};

verus! {

#[verifier::external_type_specification]
#[verifier::external_body]
pub struct ExMarkdownEvent<'a>(pulldown_cmark::Event<'a>);

#[verifier::external_type_specification]
#[verifier::external_body]
pub struct ExMarkdownTagEnd(pulldown_cmark::TagEnd);

/// The kind of a Markdown element that the renderer tells apart.
pub enum MdTag {
    Paragraph,
    /// A heading, with its level (1 to 6).
    Heading(u8),
    BlockQuote,
    /// A code block, with the language named after its opening fence
    /// (empty where there is none).
    CodeBlock(String),
    /// A list, with the number of its first item where it is ordered.
    List(Option<u64>),
    Item,
    Emphasis,
    Strong,
    Link,
    Other,
}

/// One event of the Markdown stream.
pub enum MdEvent {
    Start(MdTag),
    End(MdTag),
    Text(String),
    Code(String),
    SoftBreak,
    HardBreak,
    Rule,
    Other,
}

pub enum MdTagView {
    Paragraph,
    Heading(u8),
    BlockQuote,
    CodeBlock(Seq<char>),
    List(Option<u64>),
    Item,
    Emphasis,
    Strong,
    Link,
    Other,
}

pub enum MdEventView {
    Start(MdTagView),
    End(MdTagView),
    Text(Seq<char>),
    Code(Seq<char>),
    SoftBreak,
    HardBreak,
    Rule,
    Other,
}

impl MdTag {
    pub open spec fn view(&self) -> MdTagView {
        match self {
            MdTag::Paragraph => MdTagView::Paragraph,
            MdTag::Heading(l) => MdTagView::Heading(*l),
            MdTag::BlockQuote => MdTagView::BlockQuote,
            MdTag::CodeBlock(lang) => MdTagView::CodeBlock(lang@),
            MdTag::List(first) => MdTagView::List(*first),
            MdTag::Item => MdTagView::Item,
            MdTag::Emphasis => MdTagView::Emphasis,
            MdTag::Strong => MdTagView::Strong,
            MdTag::Link => MdTagView::Link,
            MdTag::Other => MdTagView::Other,
        }
    }
}

impl MdEvent {
    pub open spec fn view(&self) -> MdEventView {
        match self {
            MdEvent::Start(t) => MdEventView::Start(t.view()),
            MdEvent::End(t) => MdEventView::End(t.view()),
            MdEvent::Text(s) => MdEventView::Text(s@),
            MdEvent::Code(s) => MdEventView::Code(s@),
            MdEvent::SoftBreak => MdEventView::SoftBreak,
            MdEvent::HardBreak => MdEventView::HardBreak,
            MdEvent::Rule => MdEventView::Rule,
            MdEvent::Other => MdEventView::Other,
        }
    }
}

/// The events that pulldown-cmark's parser (default options) yields for
/// `text`, each reduced to what the renderer reads: the kind of element that
/// starts or ends (with a heading's level, the first number of an ordered
/// list, the language after a code fence), text, inline code, soft and hard
/// breaks, rules, and `Other` for anything else.
pub uninterp spec fn markdown_events(text: Seq<char>) -> Seq<MdEventView>;

pub open spec fn events_view(events: Seq<MdEvent>) -> Seq<MdEventView> {
    events.map_values(|e: MdEvent| e.view())
}

/// Parses `text` with pulldown-cmark's `Parser::new` (default options) and
/// converts each event it yields, in order. The contract only names the
/// result: the parse itself is the outside crate's.
#[verifier::external_body]
fn parse_markdown(text: &str) -> (events: Vec<MdEvent>)
    ensures
        events_view(events@) == markdown_events(text@),
{
    let mut events = Vec::new();
    for event in Parser::new(text) {
        events.push(md_event(event));
    }
    events
}

/// Converts one pulldown-cmark event: a part of `parse_markdown`'s body.
#[verifier::external_body]
fn md_event(event: Event<'_>) -> MdEvent {
    match event {
        Event::Start(Tag::List(first)) => MdEvent::Start(MdTag::List(first)),
        Event::Start(Tag::CodeBlock(CodeBlockKind::Fenced(lang))) => {
            MdEvent::Start(MdTag::CodeBlock(lang.to_string()))
        },
        Event::Start(tag) => MdEvent::Start(md_tag(tag.to_end())),
        Event::End(end) => MdEvent::End(md_tag(end)),
        Event::Text(text) => MdEvent::Text(text.to_string()),
        Event::Code(code) => MdEvent::Code(code.to_string()),
        Event::SoftBreak => MdEvent::SoftBreak,
        Event::HardBreak => MdEvent::HardBreak,
        Event::Rule => MdEvent::Rule,
        _ => MdEvent::Other,
    }
}

/// Converts one pulldown-cmark element kind: a part of `parse_markdown`'s body.
#[verifier::external_body]
fn md_tag(end: TagEnd) -> MdTag {
    match end {
        TagEnd::Paragraph => MdTag::Paragraph,
        TagEnd::Heading(level) => MdTag::Heading(level as u8),
        TagEnd::BlockQuote(_) => MdTag::BlockQuote,
        TagEnd::CodeBlock => MdTag::CodeBlock(String::new()),
        TagEnd::List(_) => MdTag::List(None),
        TagEnd::Item => MdTag::Item,
        TagEnd::Emphasis => MdTag::Emphasis,
        TagEnd::Strong => MdTag::Strong,
        TagEnd::Link => MdTag::Link,
        _ => MdTag::Other,
    }
}

/// A run of text in one style.
pub struct StyledSpan {
    pub content: String,
    pub style: Style,
}

impl StyledSpan {
    pub open spec fn view(&self) -> (Seq<char>, Style) {
        (self.content@, self.style)
    }
}

/// One rendered line.
pub struct MdLine {
    pub spans: Vec<StyledSpan>,
}

pub open spec fn spans_view(spans: Seq<StyledSpan>) -> Seq<(Seq<char>, Style)> {
    spans.map_values(|s: StyledSpan| s.view())
}

impl MdLine {
    pub open spec fn view(&self) -> Seq<(Seq<char>, Style)> {
        spans_view(self.spans@)
    }
}

pub open spec fn lines_view(lines: Seq<MdLine>) -> Seq<Seq<(Seq<char>, Style)>> {
    lines.map_values(|l: MdLine| l.view())
}

/// What the renderer holds between two events.
pub struct RenderState {
    /// The finished lines.
    pub lines: Seq<Seq<(Seq<char>, Style)>>,
    /// The spans of the line being built.
    pub spans: Seq<(Seq<char>, Style)>,
    /// The styles of the open elements; the last one applies.
    pub styles: Seq<Style>,
    pub in_code: bool,
    /// How many lists are open.
    pub depth: nat,
    /// The number of the next item of the innermost ordered list.
    pub ordered: Option<u64>,
}

pub open spec fn initial_state() -> RenderState {
    RenderState {
        lines: seq![],
        spans: seq![],
        styles: seq![plain_style()],
        in_code: false,
        depth: 0,
        ordered: None,
    }
}

/// The line being built ends, unless it has no span.
pub open spec fn flushed(st: RenderState) -> RenderState {
    RenderState {
        lines: if st.spans.len() == 0 {
            st.lines
        } else {
            st.lines.push(st.spans)
        },
        spans: seq![],
        ..st
    }
}

pub open spec fn with_span(st: RenderState, content: Seq<char>, style: Style) -> RenderState {
    RenderState { spans: st.spans.push((content, style)), ..st }
}

pub open spec fn with_line(st: RenderState, line: Seq<(Seq<char>, Style)>) -> RenderState {
    RenderState { lines: st.lines.push(line), ..st }
}

/// The style in force: that of the innermost open element.
pub open spec fn top_style(styles: Seq<Style>) -> Style {
    if styles.len() == 0 {
        plain_style()
    } else {
        styles.last()
    }
}

pub open spec fn pushed_style(st: RenderState, s: Style) -> RenderState {
    RenderState { styles: st.styles.push(s), ..st }
}

pub open spec fn popped_style(st: RenderState) -> RenderState {
    RenderState {
        styles: if st.styles.len() == 0 {
            st.styles
        } else {
            st.styles.drop_last()
        },
        ..st
    }
}

/// `overlay`'s colours and switched-on modifiers laid over `base`.
pub open spec fn merged(base: Style, overlay: Style) -> Style {
    let a = match overlay.fg {
        Some(c) => with_fg(base, c),
        None => base,
    };
    let b = match overlay.bg {
        Some(c) => with_bg(a, c),
        None => a,
    };
    with_modifier(b, overlay.add_modifier)
}

/// Two spaces per level.
pub open spec fn indent(n: nat) -> Seq<char>
    decreases n,
{
    if n == 0 {
        seq![]
    } else {
        indent((n - 1) as nat) + seq![' ', ' ']
    }
}

/// The bullet of a list item at list depth `depth`, and the number of the next item.
pub open spec fn bullet(depth: nat, ordered: Option<u64>) -> (Seq<char>, Option<u64>) {
    let pad = indent(if depth > 0 {
        (depth - 1) as nat
    } else {
        0
    });
    match ordered {
        Some(i) => (
            pad + decimal(i as nat) + seq!['.', ' '],
            Some(
                if i < u64::MAX {
                    (i + 1) as u64
                } else {
                    0
                },
            ),
        ),
        None => (pad + seq!['-', ' '], None),
    }
}

/// The label shown above a code block.
pub open spec fn lang_label(lang: Seq<char>) -> Seq<char> {
    seq!['['] + lang + seq![']']
}

/// A horizontal rule: forty box-drawing strokes.
pub open spec fn rule_text() -> Seq<char> {
    Seq::new(40, |i: int| '\u{2500}')
}

pub open spec fn code_style() -> Style {
    with_bg(fg_style(Color::White), default_theme().code_block_bg)
}

/// The lines of a text inside a code block: each on a line of its own, the
/// first one continuing the line being built.
pub open spec fn code_text(st: RenderState, parts: Seq<Seq<char>>) -> RenderState
    decreases parts.len(),
{
    if parts.len() == 0 {
        st
    } else {
        let prev = code_text(st, parts.drop_last());
        let base = if parts.len() > 1 {
            flushed(prev)
        } else {
            prev
        };
        with_span(base, parts.last(), code_style())
    }
}

pub open spec fn start_step(st: RenderState, tag: MdTagView) -> RenderState {
    let t = default_theme();
    match tag {
        MdTagView::Heading(level) => pushed_style(
            flushed(st),
            if level == 1 {
                t.heading
            } else {
                t.heading2
            },
        ),
        MdTagView::Strong => pushed_style(st, merged(top_style(st.styles), t.bold)),
        MdTagView::Emphasis => pushed_style(st, merged(top_style(st.styles), t.italic)),
        MdTagView::Link => pushed_style(st, t.link),
        MdTagView::BlockQuote => pushed_style(flushed(st), t.blockquote),
        MdTagView::List(first) => RenderState {
            depth: st.depth + 1,
            ordered: first,
            ..flushed(st)
        },
        MdTagView::Item => {
            let f = flushed(st);
            let (text, next) = bullet(f.depth, f.ordered);
            RenderState { ordered: next, ..with_span(f, text, t.list_bullet) }
        },
        MdTagView::CodeBlock(lang) => {
            let f = RenderState { in_code: true, ..flushed(st) };
            if lang.len() > 0 {
                with_line(f, seq![(lang_label(lang), fg_style(Color::DarkGray))])
            } else {
                f
            }
        },
        _ => st,
    }
}

pub open spec fn end_step(st: RenderState, tag: MdTagView) -> RenderState {
    match tag {
        MdTagView::Heading(_) => flushed(popped_style(st)),
        MdTagView::Strong => popped_style(st),
        MdTagView::Emphasis => popped_style(st),
        MdTagView::Link => popped_style(st),
        MdTagView::BlockQuote => flushed(popped_style(st)),
        MdTagView::List(_) => flushed(
            RenderState {
                depth: if st.depth > 0 {
                    (st.depth - 1) as nat
                } else {
                    0
                },
                ordered: None,
                ..st
            },
        ),
        MdTagView::Item => flushed(st),
        MdTagView::CodeBlock(_) => RenderState { in_code: false, ..flushed(st) },
        MdTagView::Paragraph => with_line(flushed(st), seq![]),
        _ => st,
    }
}

/// What one event does to the renderer.
pub open spec fn step(st: RenderState, ev: MdEventView) -> RenderState {
    match ev {
        MdEventView::Start(tag) => start_step(st, tag),
        MdEventView::End(tag) => end_step(st, tag),
        MdEventView::Code(c) => with_span(st, c, default_theme().code_inline),
        MdEventView::Text(x) => if st.in_code {
            code_text(st, lines_of(x))
        } else {
            with_span(st, x, top_style(st.styles))
        },
        MdEventView::SoftBreak => with_span(st, seq![' '], plain_style()),
        MdEventView::HardBreak => flushed(st),
        MdEventView::Rule => with_line(
            flushed(st),
            seq![(rule_text(), fg_style(Color::DarkGray))],
        ),
        MdEventView::Other => st,
    }
}

/// The renderer after the events `evs`, in order.
pub open spec fn run(evs: Seq<MdEventView>) -> RenderState
    decreases evs.len(),
{
    if evs.len() == 0 {
        initial_state()
    } else {
        step(run(evs.drop_last()), evs.last())
    }
}

/// A line with nothing visible on it.
pub open spec fn blank(l: Seq<(Seq<char>, Style)>) -> bool {
    l.len() == 0 || (l.len() == 1 && l[0].0.len() == 0)
}

/// `ls` without its trailing blank lines.
pub open spec fn trim_blank(ls: Seq<Seq<(Seq<char>, Style)>>) -> Seq<Seq<(Seq<char>, Style)>>
    decreases ls.len(),
{
    if ls.len() > 0 && blank(ls.last()) {
        trim_blank(ls.drop_last())
    } else {
        ls
    }
}

/// The lines rendered from the events `evs`.
pub open spec fn render(evs: Seq<MdEventView>) -> Seq<Seq<(Seq<char>, Style)>> {
    trim_blank(flushed(run(evs)).lines)
}

proof fn lemma_trim_blank(ls: Seq<Seq<(Seq<char>, Style)>>)
    ensures
        trim_blank(ls).len() > 0 ==> !blank(trim_blank(ls).last()),
        trim_blank(ls).len() <= ls.len(),
        trim_blank(ls) == ls.subrange(0, trim_blank(ls).len() as int),
    decreases ls.len(),
{
    if ls.len() > 0 && blank(ls.last()) {
        lemma_trim_blank(ls.drop_last());
        assert(ls.drop_last().subrange(0, trim_blank(ls).len() as int) =~= ls.subrange(
            0,
            trim_blank(ls).len() as int,
        ));
    } else {
        assert(ls.subrange(0, ls.len() as int) =~= ls);
    }
}

/// Rendered Markdown never ends with a blank line, and its lines are the
/// renderer's lines up to the last one with something visible.
pub proof fn law_no_trailing_blank(evs: Seq<MdEventView>)
    ensures
        render(evs).len() > 0 ==> !blank(render(evs).last()),
        render(evs) == flushed(run(evs)).lines.subrange(0, render(evs).len() as int),
{
    lemma_trim_blank(flushed(run(evs)).lines);
}

/// The text of a line: its spans' contents, one after another.
pub open spec fn line_text(l: Seq<(Seq<char>, Style)>) -> Seq<char>
    decreases l.len(),
{
    if l.len() == 0 {
        seq![]
    } else {
        line_text(l.drop_last()) + l.last().0
    }
}

/// A soft line break inside a paragraph separates the words around it by
/// one unstyled space: the line being built gains exactly a space, and
/// nothing else changes.
pub proof fn law_soft_break_is_a_space(st: RenderState)
    ensures
        line_text(step(st, MdEventView::SoftBreak).spans) == line_text(st.spans) + seq![' '],
        step(st, MdEventView::SoftBreak).spans.len() == st.spans.len() + 1,
        step(st, MdEventView::SoftBreak).spans.last() == (seq![' '], plain_style()),
        step(st, MdEventView::SoftBreak).lines == st.lines,
        step(st, MdEventView::SoftBreak).styles == st.styles,
        step(st, MdEventView::SoftBreak).in_code == st.in_code,
{
    let after = step(st, MdEventView::SoftBreak);
    assert(after.spans.drop_last() =~= st.spans);
}

/// A paragraph of two words written on two lines renders as one line that
/// reads "first second": the words, with one space between them.
pub proof fn law_paragraph_joins_lines(first: Seq<char>, second: Seq<char>)
    ensures
        render(
            seq![
                MdEventView::Start(MdTagView::Paragraph),
                MdEventView::Text(first),
                MdEventView::SoftBreak,
                MdEventView::Text(second),
                MdEventView::End(MdTagView::Paragraph),
            ],
        ) == seq![seq![(first, plain_style()), (seq![' '], plain_style()), (second, plain_style())]],
        line_text(seq![(first, plain_style()), (seq![' '], plain_style()), (second, plain_style())])
            == first + seq![' '] + second,
{
    let evs = seq![
        MdEventView::Start(MdTagView::Paragraph),
        MdEventView::Text(first),
        MdEventView::SoftBreak,
        MdEventView::Text(second),
        MdEventView::End(MdTagView::Paragraph),
    ];
    let e0 = evs.take(0);
    let e1 = evs.take(1);
    let e2 = evs.take(2);
    let e3 = evs.take(3);
    let e4 = evs.take(4);
    assert(e1.drop_last() =~= e0);
    assert(e2.drop_last() =~= e1);
    assert(e3.drop_last() =~= e2);
    assert(e4.drop_last() =~= e3);
    assert(evs.drop_last() =~= e4);
    assert(e0.len() == 0);
    let s0 = run(e0);
    assert(s0 == initial_state());
    let s1 = run(e1);
    assert(s1 == step(s0, MdEventView::Start(MdTagView::Paragraph)));
    assert(s1 == s0);
    let s2 = run(e2);
    assert(s2 == step(s1, MdEventView::Text(first)));
    assert(top_style(s1.styles) == plain_style());
    let s3 = run(e3);
    assert(s3 == step(s2, MdEventView::SoftBreak));
    let s4 = run(e4);
    assert(s4 == step(s3, MdEventView::Text(second)));
    let line = seq![(first, plain_style()), (seq![' '], plain_style()), (second, plain_style())];
    assert(s4.spans =~= line);
    let s5 = run(evs);
    assert(s5 == step(s4, MdEventView::End(MdTagView::Paragraph)));
    assert(s5.spans.len() == 0);
    assert(s5.lines =~= seq![line, seq![]]);
    assert(flushed(s5).lines == s5.lines);
    let ls = seq![line, seq![]];
    assert(ls.drop_last() =~= seq![line]);
    assert(blank(ls.last()));
    assert(!blank(seq![line].last()));
    assert(trim_blank(seq![line]) == seq![line]);
    assert(render(evs) == seq![line]);
    let l1 = line.drop_last().drop_last();
    let l2 = line.drop_last();
    assert(l1.drop_last() =~= seq![]);
    assert(line_text(l1.drop_last()) == Seq::<char>::empty());
    assert(line_text(l1) =~= first);
    assert(l2.drop_last() =~= l1);
    assert(line_text(l2) =~= first + seq![' ']);
    assert(line.drop_last() =~= l2);
}

struct RenderBuf {
    lines: Vec<MdLine>,
    spans: Vec<StyledSpan>,
    styles: Vec<Style>,
    in_code: bool,
    depth: usize,
    ordered: Option<u64>,
}

impl RenderBuf {
    closed spec fn view(&self) -> RenderState {
        RenderState {
            lines: lines_view(self.lines@),
            spans: spans_view(self.spans@),
            styles: self.styles@,
            in_code: self.in_code,
            depth: self.depth as nat,
            ordered: self.ordered,
        }
    }

    fn flush(&mut self)
        ensures
            final(self).view() == flushed(old(self).view()),
    {
        if self.spans.len() > 0 {
            let ghost before = lines_view(self.lines@);
            let mut taken: Vec<StyledSpan> = Vec::new();
            std::mem::swap(&mut taken, &mut self.spans);
            let line = MdLine { spans: taken };
            self.lines.push(line);
            assert(lines_view(self.lines@) =~= before.push(line.view()));
            assert(spans_view(self.spans@) =~= Seq::<(Seq<char>, Style)>::empty());
        } else {
            assert(spans_view(self.spans@) =~= Seq::<(Seq<char>, Style)>::empty());
        }
    }

    fn push_span(&mut self, content: String, style: Style)
        ensures
            final(self).view() == with_span(old(self).view(), content@, style),
    {
        let ghost before = spans_view(self.spans@);
        let span = StyledSpan { content, style };
        self.spans.push(span);
        assert(spans_view(self.spans@) =~= before.push(span.view()));
    }

    fn push_line(&mut self, line: MdLine)
        ensures
            final(self).view() == with_line(old(self).view(), line.view()),
    {
        let ghost before = lines_view(self.lines@);
        self.lines.push(line);
        assert(lines_view(self.lines@) =~= before.push(line.view()));
    }

    fn top_style(&self) -> (s: Style)
        ensures
            s == top_style(self.view().styles),
    {
        if self.styles.len() == 0 {
            Style::new()
        } else {
            self.styles[self.styles.len() - 1]
        }
    }

    fn push_style(&mut self, s: Style)
        ensures
            final(self).view() == pushed_style(old(self).view(), s),
    {
        self.styles.push(s);
    }

    fn pop_style(&mut self)
        ensures
            final(self).view() == popped_style(old(self).view()),
    {
        self.styles.pop();
    }

    fn start(&mut self, tag: &MdTag, t: &Theme)
        requires
            *t == default_theme(),
            old(self).depth < usize::MAX,
        ensures
            final(self).view() == start_step(old(self).view(), tag.view()),
            final(self).depth <= old(self).depth + 1,
    {
        match tag {
            MdTag::Heading(level) => {
                self.flush();
                self.push_style(
                    if *level == 1 {
                        t.heading
                    } else {
                        t.heading2
                    },
                );
            },
            MdTag::Strong => {
                let s = merge_style(self.top_style(), t.bold);
                self.push_style(s);
            },
            MdTag::Emphasis => {
                let s = merge_style(self.top_style(), t.italic);
                self.push_style(s);
            },
            MdTag::Link => {
                self.push_style(t.link);
            },
            MdTag::BlockQuote => {
                self.flush();
                self.push_style(t.blockquote);
            },
            MdTag::List(first) => {
                self.flush();
                self.depth = self.depth + 1;
                self.ordered = *first;
            },
            MdTag::Item => {
                self.flush();
                let (text, next) = bullet_text(self.depth, self.ordered);
                self.push_span(text, t.list_bullet);
                self.ordered = next;
            },
            MdTag::CodeBlock(lang) => {
                self.flush();
                self.in_code = true;
                if !lang.as_str().is_empty() {
                    let mut label = String::new();
                    push_char(&mut label, '[');
                    let lang_chars = chars_of(lang.as_str());
                    push_chars(&mut label, lang_chars.as_slice());
                    push_char(&mut label, ']');
                    assert(label@ == lang_label(lang@));
                    let mut spans: Vec<StyledSpan> = Vec::new();
                    spans.push(StyledSpan { content: label, style: Style::new().fg(Color::DarkGray) });
                    let line = MdLine { spans };
                    assert(line.view() =~= seq![(lang_label(lang@), fg_style(Color::DarkGray))]);
                    self.push_line(line);
                }
            },
            _ => {},
        }
    }

    fn end(&mut self, tag: &MdTag)
        ensures
            final(self).view() == end_step(old(self).view(), tag.view()),
            final(self).depth <= old(self).depth,
    {
        match tag {
            MdTag::Heading(_) => {
                self.pop_style();
                self.flush();
            },
            MdTag::Strong => {
                self.pop_style();
            },
            MdTag::Emphasis => {
                self.pop_style();
            },
            MdTag::Link => {
                self.pop_style();
            },
            MdTag::BlockQuote => {
                self.pop_style();
                self.flush();
            },
            MdTag::List(_) => {
                self.depth = self.depth.saturating_sub(1);
                self.ordered = None;
                self.flush();
            },
            MdTag::Item => {
                self.flush();
            },
            MdTag::CodeBlock(_) => {
                self.flush();
                self.in_code = false;
            },
            MdTag::Paragraph => {
                self.flush();
                let empty = MdLine { spans: Vec::new() };
                assert(empty.view() =~= seq![]);
                self.push_line(empty);
            },
            _ => {},
        }
    }

    fn code_lines(&mut self, text: &String, style: Style)
        requires
            style == code_style(),
        ensures
            final(self).view() == code_text(old(self).view(), lines_of(text@)),
            final(self).depth == old(self).depth,
    {
        let parts = lines(text.as_str());
        let ghost pv = parts@.map_values(|l: String| l@);
        let mut i: usize = 0;
        while i < parts.len()
            invariant
                i <= parts@.len(),
                pv == parts@.map_values(|l: String| l@),
                pv == lines_of(text@),
                style == code_style(),
                self.view() == code_text(old(self).view(), pv.take(i as int)),
                self.depth == old(self).depth,
            decreases parts@.len() - i,
        {
            proof {
                assert(pv.take(i + 1).drop_last() =~= pv.take(i as int));
                assert(pv.take(i + 1).last() == parts@[i as int]@);
            }
            if i > 0 {
                self.flush();
            }
            self.push_span(parts[i].clone(), style);
            i += 1;
        }
        assert(pv.take(parts@.len() as int) =~= pv);
    }

    fn apply(&mut self, ev: &MdEvent, t: &Theme)
        requires
            *t == default_theme(),
            old(self).depth < usize::MAX,
        ensures
            final(self).view() == step(old(self).view(), ev.view()),
            final(self).depth <= old(self).depth + 1,
    {
        match ev {
            MdEvent::Start(tag) => {
                self.start(tag, t);
            },
            MdEvent::End(tag) => {
                self.end(tag);
            },
            MdEvent::Code(c) => self.push_span(c.clone(), t.code_inline),
            MdEvent::Text(x) => {
                if self.in_code {
                    let style = Style::new().fg(Color::White).bg(t.code_block_bg);
                    self.code_lines(x, style);
                } else {
                    let s = self.top_style();
                    self.push_span(x.clone(), s);
                }
            },
            MdEvent::SoftBreak => {
                let mut space = String::new();
                push_char(&mut space, ' ');
                self.push_span(space, Style::new());
            },
            MdEvent::HardBreak => self.flush(),
            MdEvent::Rule => {
                self.flush();
                let mut stroke = String::new();
                let mut k: usize = 0;
                while k < 40
                    invariant
                        k <= 40,
                        stroke@ == Seq::new(k as nat, |i: int| '\u{2500}'),
                    decreases 40 - k,
                {
                    push_char(&mut stroke, '\u{2500}');
                    k += 1;
                    assert(stroke@ =~= Seq::new(k as nat, |i: int| '\u{2500}'));
                }
                let mut spans: Vec<StyledSpan> = Vec::new();
                spans.push(StyledSpan { content: stroke, style: Style::new().fg(Color::DarkGray) });
                let line = MdLine { spans };
                assert(line.view() =~= seq![(rule_text(), fg_style(Color::DarkGray))]);
                self.push_line(line);
            },
            MdEvent::Other => {},
        }
    }
}

/// `overlay`'s colours and switched-on modifiers laid over `base`.
pub fn merge_style(base: Style, overlay: Style) -> (s: Style)
    ensures
        s == merged(base, overlay),
{
    let mut result = base;
    if let Some(fg) = overlay.fg {
        result = result.fg(fg);
    }
    if let Some(bg) = overlay.bg {
        result = result.bg(bg);
    }
    result.add_modifier(overlay.add_modifier)
}

/// The bullet of a list item, and the number of the next item.
fn bullet_text(depth: usize, ordered: Option<u64>) -> (r: (String, Option<u64>))
    ensures
        (r.0@, r.1) == bullet(depth as nat, ordered),
{
    let mut s = String::new();
    let n: usize = if depth > 0 {
        depth - 1
    } else {
        0
    };
    let mut k: usize = 0;
    while k < n
        invariant
            k <= n,
            s@ == indent(k as nat),
        decreases n - k,
    {
        push_char(&mut s, ' ');
        push_char(&mut s, ' ');
        k += 1;
    }
    match ordered {
        Some(i) => {
            push_decimal(&mut s, i);
            push_char(&mut s, '.');
            push_char(&mut s, ' ');
            (s, Some(i.wrapping_add(1)))
        },
        None => {
            push_char(&mut s, '-');
            push_char(&mut s, ' ');
            (s, None)
        },
    }
}

/// Renders the events `events` into lines.
pub fn render_events(events: &Vec<MdEvent>) -> (out: Vec<MdLine>)
    ensures
        lines_view(out@) == render(events_view(events@)),
{
    let t = theme();
    let mut styles: Vec<Style> = Vec::new();
    styles.push(Style::new());
    let mut buf = RenderBuf {
        lines: Vec::new(),
        spans: Vec::new(),
        styles,
        in_code: false,
        depth: 0,
        ordered: None,
    };
    let ghost evs = events_view(events@);
    assert(buf.view().lines =~= seq![]);
    assert(buf.view().spans =~= seq![]);
    assert(buf.view() == initial_state());
    let mut i: usize = 0;
    while i < events.len()
        invariant
            i <= events@.len(),
            evs == events_view(events@),
            t == default_theme(),
            buf.view() == run(evs.take(i as int)),
            buf.depth <= i,
        decreases events@.len() - i,
    {
        proof {
            assert(evs.take(i + 1).drop_last() =~= evs.take(i as int));
            assert(evs.take(i + 1).last() == events@[i as int].view());
        }
        buf.apply(&events[i], &t);
        i += 1;
    }
    assert(evs.take(events@.len() as int) =~= evs);
    buf.flush();
    let mut out = buf.lines;
    while out.len() > 0 && line_is_blank(&out[out.len() - 1])
        invariant
            trim_blank(lines_view(out@)) == render(evs),
        decreases out@.len(),
    {
        let ghost before = lines_view(out@);
        out.pop();
        assert(lines_view(out@) =~= before.drop_last());
    }
    out
}

fn line_is_blank(l: &MdLine) -> (r: bool)
    ensures
        r == blank(l.view()),
{
    l.spans.len() == 0 || (l.spans.len() == 1 && l.spans[0].content.as_str().is_empty())
}

/// The styled lines of the Markdown text `text`.
pub fn to_lines(text: &str, _width: u16) -> (out: Vec<MdLine>)
    ensures
        lines_view(out@) == render(markdown_events(text@)),
{
    let events = parse_markdown(text);
    render_events(&events)
}

} // verus!
