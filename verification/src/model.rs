//! The renderer as a state machine over character sequences.
use crate::event::{Event, Tag};
use crate::line::{at_line_start, split_lines, with_fresh_line};
use crate::paint::{engine_fed, engine_for, engine_spans, lemma_engine_fed_in_runs, painted};
use syntect::easy::HighlightLines;
use syntect::highlighting::ThemeSet;
use syntect::parsing::SyntaxSet;
use vstd::prelude::*;

verus! {

/// The output written so far, whether text is inside a code block, and
/// the highlighter in the state that the code lines so far have left it
/// in (`None` where there is none).
pub struct RenderState<'a> {
    pub buf: Seq<char>,
    pub in_code: bool,
    pub engine: Option<HighlightLines<'a>>,
}

/// The state in which a render starts on the buffer `buf` with the
/// highlighter `engine`.
pub open spec fn initial(buf: Seq<char>, engine: Option<HighlightLines<'_>>) -> RenderState<'_> {
    RenderState { buf, in_code: false, engine }
}

/// The buffer after the start of `tag`.
pub open spec fn opened(buf: Seq<char>, tag: Tag) -> Seq<char> {
    match tag {
        Tag::Paragraph => with_fresh_line(buf),
        Tag::Rule => with_fresh_line(buf).push('\n'),
        Tag::CodeBlock(_) => with_fresh_line(buf),
        Tag::Code => buf.push('`'),
        Tag::List(_) => with_fresh_line(buf),
        Tag::Item => with_fresh_line(buf) + seq![' ', '*', ' '],
        Tag::Link(dest, _) => buf + dest@,
        _ => buf,
    }
}

/// The end tags that the renderer acts on. Each of them leaves code mode.
pub open spec fn closes(tag: Tag) -> bool {
    match tag {
        Tag::Paragraph => true,
        Tag::Rule => true,
        Tag::BlockQuote => true,
        Tag::CodeBlock(_) => true,
        Tag::Code => true,
        Tag::List(_) => true,
        Tag::Item => true,
        _ => false,
    }
}

/// The buffer after the end of `tag`.
pub open spec fn closed(buf: Seq<char>, tag: Tag) -> Seq<char> {
    match tag {
        Tag::Paragraph => buf + seq!['\n', '\n'],
        Tag::BlockQuote => buf.push('\n'),
        Tag::CodeBlock(_) => buf.push('\n'),
        Tag::Code => buf.push('`'),
        Tag::List(_) => buf.push('\n'),
        Tag::Item => buf.push('\n'),
        _ => buf,
    }
}

/// Whether text is inside a code block after `event`, given whether it
/// was before.
pub open spec fn mode_after(in_code: bool, event: Event) -> bool {
    match event {
        Event::Start(tag) => in_code || tag is CodeBlock,
        Event::End(tag) => in_code && !closes(tag),
        _ => in_code,
    }
}

/// The lines that `event` hands to the highlighting engine, in order:
/// those of its content where it has some and text is inside a code
/// block, none otherwise.
pub open spec fn requested_lines(in_code: bool, event: Event) -> Seq<Seq<char>> {
    match event.content() {
        Some(text) if in_code => split_lines(text),
        _ => Seq::empty(),
    }
}

/// The buffer after the code lines `lines`: each line is handed to the
/// engine on its own, in the state that the lines before it have left,
/// written as `painted` states for what the engine gives, and followed
/// by a fresh line.
pub open spec fn code_written(
    buf: Seq<char>,
    engine: Option<HighlightLines<'_>>,
    lines: Seq<Seq<char>>,
    set: SyntaxSet,
) -> Seq<char>
    decreases lines.len(),
{
    if lines.len() == 0 {
        buf
    } else {
        with_fresh_line(
            code_written(buf, engine, lines.drop_last(), set) + painted(
                lines.last(),
                engine_spans(engine_fed(engine, lines.drop_last(), set), lines.last(), set),
            ),
        )
    }
}

/// The state after `event`, with the grammars of `set`.
pub open spec fn step(s: RenderState<'_>, event: Event, set: SyntaxSet) -> RenderState<'_> {
    let in_code = mode_after(s.in_code, event);
    let lines = requested_lines(s.in_code, event);
    let engine = engine_fed(s.engine, lines, set);
    match event {
        Event::Start(tag) => RenderState { buf: opened(s.buf, tag), in_code, engine },
        Event::End(tag) => RenderState { buf: closed(s.buf, tag), in_code, engine },
        Event::Text(t) | Event::Html(t) | Event::InlineHtml(t) => if s.in_code {
            RenderState { buf: code_written(s.buf, s.engine, lines, set), in_code, engine }
        } else {
            RenderState { buf: s.buf + t@, in_code, engine }
        },
        Event::SoftBreak => RenderState { buf: s.buf.push('\n'), in_code, engine },
        Event::HardBreak => RenderState { buf: s.buf.push('\n'), in_code, engine },
        _ => s,
    }
}

/// Whether text is inside a code block after `events`.
pub open spec fn mode_after_all(in_code: bool, events: Seq<Event>) -> bool
    decreases events.len(),
{
    if events.len() == 0 {
        in_code
    } else {
        mode_after(mode_after_all(in_code, events.drop_last()), events.last())
    }
}

/// The lines that `events` hand to the highlighting engine, in order.
pub open spec fn lines_handed(in_code: bool, events: Seq<Event>) -> Seq<Seq<char>>
    decreases events.len(),
{
    if events.len() == 0 {
        Seq::empty()
    } else {
        lines_handed(in_code, events.drop_last()) + requested_lines(
            mode_after_all(in_code, events.drop_last()),
            events.last(),
        )
    }
}

/// The state after `events`, with the grammars of `set`.
pub open spec fn run_state(
    s: RenderState<'_>,
    events: Seq<Event>,
    set: SyntaxSet,
) -> RenderState<'_>
    decreases events.len(),
{
    if events.len() == 0 {
        s
    } else {
        step(run_state(s, events.drop_last(), set), events.last(), set)
    }
}

/// What a render of `events` leaves in the buffer, with the grammars
/// `set` and the themes `themes`: the highlighter is the one for the Rust
/// grammar and the theme `base16-ocean.dark`, where the sets have both.
pub open spec fn rendered(
    buf: Seq<char>,
    in_code: bool,
    events: Seq<Event>,
    set: SyntaxSet,
    themes: ThemeSet,
) -> Seq<char> {
    run_state(
        RenderState { buf, in_code, engine: engine_for(set, themes, "rs"@, "base16-ocean.dark"@) },
        events,
        set,
    ).buf
}

/// An event that decides the mode: the start of a code block enters code
/// mode, an end tag that the renderer acts on leaves it.
pub open spec fn sets_mode(event: Event) -> bool {
    match event {
        Event::Start(tag) => tag is CodeBlock,
        Event::End(tag) => closes(tag),
        _ => false,
    }
}

/// The mode does not depend on the highlighting engine: it is a function
/// of the events alone.
pub proof fn lemma_mode_follows_events(s: RenderState<'_>, events: Seq<Event>, set: SyntaxSet)
    ensures
        run_state(s, events, set).in_code == mode_after_all(s.in_code, events),
    decreases events.len(),
{
    if events.len() > 0 {
        lemma_mode_follows_events(s, events.drop_last(), set);
    }
}

/// Over a whole run one highlighter takes the code lines, one at a time
/// and in the order of the source: it ends in the state that the lines of
/// the code texts, event after event, leave it in. No other event reaches
/// it.
pub proof fn lemma_engine_takes_lines_in_order(
    s: RenderState<'_>,
    events: Seq<Event>,
    set: SyntaxSet,
)
    ensures
        run_state(s, events, set).engine == engine_fed(
            s.engine,
            lines_handed(s.in_code, events),
            set,
        ),
    decreases events.len(),
{
    if events.len() > 0 {
        let front = events.drop_last();
        lemma_engine_takes_lines_in_order(s, front, set);
        lemma_mode_follows_events(s, front, set);
        lemma_engine_fed_in_runs(
            s.engine,
            lines_handed(s.in_code, front),
            requested_lines(mode_after_all(s.in_code, front), events.last()),
            set,
        );
    }
}

/// Where none of `events` decides the mode, it stays as it was.
pub proof fn lemma_mode_kept(in_code: bool, events: Seq<Event>)
    requires
        forall|j: int| 0 <= j < events.len() ==> !sets_mode(#[trigger] events[j]),
    ensures
        mode_after_all(in_code, events) == in_code,
    decreases events.len(),
{
    if events.len() > 0 {
        let front = events.drop_last();
        assert forall|j: int| 0 <= j < front.len() implies !sets_mode(#[trigger] front[j]) by {
            assert(front[j] == events[j]);
        }
        lemma_mode_kept(in_code, front);
    }
}

/// The mode is decided by the last event that decides it, whatever came
/// before: text is inside a code block exactly when that event is the
/// start of a code block.
pub proof fn lemma_mode_by_last_boundary(in_code: bool, events: Seq<Event>, i: int)
    requires
        0 <= i < events.len(),
        sets_mode(events[i]),
        forall|j: int| i < j < events.len() ==> !sets_mode(#[trigger] events[j]),
    ensures
        mode_after_all(in_code, events) == (events[i] is Start),
    decreases events.len(),
{
    let front = events.drop_last();
    if i == events.len() - 1 {
    } else {
        assert forall|j: int| i < j < front.len() implies !sets_mode(#[trigger] front[j]) by {
            assert(front[j] == events[j]);
        }
        assert(front[i] == events[i]);
        lemma_mode_by_last_boundary(in_code, front, i);
        assert(!sets_mode(events[events.len() - 1]));
    }
}

/// Literal content takes exactly one of two paths, chosen by the mode
/// alone. On the plain path it is appended unchanged and the engine is
/// left as it was; on the code path the engine is handed each of its
/// lines, one at a time and in order, never the chunk as a whole, and
/// each is written on a line of its own.
pub proof fn lemma_content_takes_one_path(s: RenderState<'_>, event: Event, set: SyntaxSet)
    requires
        event.content() is Some,
    ensures
        !s.in_code ==> step(s, event, set).buf == s.buf + event.content()->0 && step(
            s,
            event,
            set,
        ).engine == s.engine,
        s.in_code ==> step(s, event, set).buf == code_written(
            s.buf,
            s.engine,
            split_lines(event.content()->0),
            set,
        ) && step(s, event, set).engine == engine_fed(
            s.engine,
            split_lines(event.content()->0),
            set,
        ),
        step(s, event, set).in_code == s.in_code,
{
}

/// An event without content leaves the engine as it was.
pub proof fn lemma_engine_kept(s: RenderState<'_>, event: Event, set: SyntaxSet)
    requires
        event.content() is None,
    ensures
        step(s, event, set).engine == s.engine,
{
}

/// Code lines are only appended, and the buffer ends at a line start
/// after each of them.
pub proof fn lemma_code_written_extends(
    buf: Seq<char>,
    engine: Option<HighlightLines<'_>>,
    lines: Seq<Seq<char>>,
    set: SyntaxSet,
)
    ensures
        buf.is_prefix_of(code_written(buf, engine, lines, set)),
        lines.len() > 0 ==> at_line_start(code_written(buf, engine, lines, set)),
    decreases lines.len(),
{
    if lines.len() > 0 {
        lemma_code_written_extends(buf, engine, lines.drop_last(), set);
    }
}

/// No event takes anything back: the buffer before an event is a prefix
/// of the buffer after it.
pub proof fn lemma_step_extends(s: RenderState<'_>, event: Event, set: SyntaxSet)
    ensures
        s.buf.is_prefix_of(step(s, event, set).buf),
{
    match event {
        Event::Text(t) | Event::Html(t) | Event::InlineHtml(t) => {
            lemma_code_written_extends(s.buf, s.engine, split_lines(t@), set);
        },
        _ => {},
    }
}

/// The buffer is append-only over a whole run: what it held at the start
/// is a prefix of what it holds at the end.
pub proof fn lemma_run_extends(s: RenderState<'_>, events: Seq<Event>, set: SyntaxSet)
    ensures
        s.buf.is_prefix_of(run_state(s, events, set).buf),
    decreases events.len(),
{
    if events.len() > 0 {
        lemma_run_extends(s, events.drop_last(), set);
        lemma_step_extends(run_state(s, events.drop_last(), set), events.last(), set);
    }
}

} // verus!
