//! The renderer: one pass over the events, one buffer, one mode flag.
use crate::event::{Event, Tag};
use crate::line::{
    at_line_start, ends_with_char, line_views, split_lines, text_lines, with_fresh_line,
};
use crate::model::{
    closed, code_written, mode_after, mode_after_all, opened, rendered, run_state, step,
    lemma_mode_follows_events, RenderState,
};
use crate::paint::{
    all_loadable, engine_after, engine_fed, engine_for, engine_spans, fits, painted, theme_named,
};
use syntect::easy::HighlightLines;
use syntect::highlighting::ThemeSet;
use syntect::parsing::SyntaxSet;
use syntect::util::as_24_bit_terminal_escaped;
use vstd::prelude::*;
use vstd::std_specs::iter::IteratorSpec;
use vstd::string::StringExecFns;

verus! {

/// The renderer's state: the events still to come, the output buffer and
/// the mode flag.
///
/// `buf` borrows the caller's buffer. Each method says, in its last
/// clause, that the context still points at that same buffer afterwards,
/// so that what it wrote is what the caller finds there.
pub struct Ctx<'b, I> {
    pub iter: I,
    pub buf: &'b mut String,
    pub is_code: bool,
}

/// Hands `line` to the highlighter, once and as it is, and returns what
/// is written for it: the spans that the highlighter gives, escaped with
/// their background colours, or the line itself where there is no
/// highlighter or it fails.
pub fn paint_line(
    highlighter: &mut Option<HighlightLines<'_>>,
    syntaxes: &SyntaxSet,
    line: &str,
) -> (out: String)
    requires
        fits(*old(highlighter), *syntaxes),
    ensures
        out@ == painted(line@, engine_spans(*old(highlighter), line@, *syntaxes)),
        *final(highlighter) == engine_after(*old(highlighter), line@, *syntaxes),
        fits(*final(highlighter), *syntaxes),
{
    match highlighter {
        Some(lines) => match lines.highlight_line(line, syntaxes) {
            Ok(spans) => as_24_bit_terminal_escaped(spans.as_slice(), true),
            Err(_) => line.to_owned(),
        },
        None => line.to_owned(),
    }
}

impl<'b, I: Iterator<Item = Event>> Ctx<'b, I> {
    /// The buffer and the mode flag, with the highlighter `engine`, as a
    /// state of the model. The events still to come are no part of it.
    pub open spec fn state(&self, engine: Option<HighlightLines<'_>>) -> RenderState<'_> {
        RenderState { buf: self.buf@, in_code: self.is_code, engine }
    }

    /// Makes sure that what is written next starts a line: appends one
    /// line feed unless the buffer is empty or ends with one.
    pub fn fresh_line(&mut self)
        ensures
            final(self).buf@ == with_fresh_line(old(self).buf@),
            at_line_start(final(self).buf@),
            final(self).is_code == old(self).is_code,
            final(self).iter == old(self).iter,
            *final(final(self).buf) == *final(old(self).buf),
    {
        if !(self.buf.as_str().is_empty() || ends_with_char(self.buf.as_str(), '\n')) {
            proof {
                reveal_strlit("\n");
            }
            self.buf.append("\n");
            assert(self.buf@ =~= old(self).buf@.push('\n'));
        }
    }

    /// Writes what the start of `tag` asks for, and enters code mode at
    /// the start of a code block.
    pub fn start_tag(&mut self, tag: Tag)
        ensures
            final(self).buf@ == opened(old(self).buf@, tag),
            final(self).is_code == (old(self).is_code || tag is CodeBlock),
            final(self).iter == old(self).iter,
            *final(final(self).buf) == *final(old(self).buf),
    {
        proof {
            reveal_strlit("\n");
            reveal_strlit("`");
            reveal_strlit(" * ");
        }
        match tag {
            Tag::Paragraph => {
                self.fresh_line();
            },
            Tag::Rule => {
                self.fresh_line();
                self.buf.append("\n");
                assert(self.buf@ =~= with_fresh_line(old(self).buf@).push('\n'));
            },
            Tag::CodeBlock(_) => {
                self.is_code = true;
                self.fresh_line();
            },
            Tag::Code => {
                self.buf.append("`");
                assert(self.buf@ =~= old(self).buf@.push('`'));
            },
            Tag::List(_) => {
                self.fresh_line();
            },
            Tag::Item => {
                self.fresh_line();
                self.buf.append(" * ");
                assert(" * "@ =~= seq![' ', '*', ' ']);
            },
            Tag::Link(dest, _) => {
                self.buf.append(dest.as_str());
            },
            _ => {},
        }
    }

    /// Writes what the end of `tag` asks for. Every end tag that writes
    /// something, and the end of a rule, leaves code mode.
    pub fn end_tag(&mut self, tag: Tag)
        ensures
            final(self).buf@ == closed(old(self).buf@, tag),
            final(self).is_code == mode_after(old(self).is_code, Event::End(tag)),
            final(self).iter == old(self).iter,
            *final(final(self).buf) == *final(old(self).buf),
    {
        proof {
            reveal_strlit("\n");
            reveal_strlit("`");
            reveal_strlit("\n\n");
        }
        match tag {
            Tag::Paragraph => {
                self.buf.append("\n\n");
                assert("\n\n"@ =~= seq!['\n', '\n']);
                self.is_code = false;
            },
            Tag::Rule => {
                self.is_code = false;
            },
            Tag::BlockQuote => {
                self.buf.append("\n");
                assert(self.buf@ =~= old(self).buf@.push('\n'));
                self.is_code = false;
            },
            Tag::CodeBlock(_) => {
                self.buf.append("\n");
                assert(self.buf@ =~= old(self).buf@.push('\n'));
                self.is_code = false;
            },
            Tag::Code => {
                self.buf.append("`");
                assert(self.buf@ =~= old(self).buf@.push('`'));
                self.is_code = false;
            },
            Tag::List(_) => {
                self.buf.append("\n");
                assert(self.buf@ =~= old(self).buf@.push('\n'));
                self.is_code = false;
            },
            Tag::Item => {
                self.buf.append("\n");
                assert(self.buf@ =~= old(self).buf@.push('\n'));
                self.is_code = false;
            },
            _ => {},
        }
    }

    /// Writes one code line as the highlighting engine returned it, and
    /// ends the line.
    pub fn push_painted(&mut self, painted: &str)
        ensures
            final(self).buf@ == with_fresh_line(old(self).buf@ + painted@),
            final(self).is_code == old(self).is_code,
            final(self).iter == old(self).iter,
            *final(final(self).buf) == *final(old(self).buf),
    {
        self.buf.append(painted);
        self.fresh_line();
    }

    /// Writes the text of a code block line by line: each line is handed
    /// to the highlighter on its own and in order, never the text as a
    /// whole, and ends with a fresh line.
    pub fn code_text(
        &mut self,
        text: &str,
        highlighter: &mut Option<HighlightLines<'_>>,
        syntaxes: &SyntaxSet,
    )
        requires
            fits(*old(highlighter), *syntaxes),
        ensures
            final(self).buf@ == code_written(
                old(self).buf@,
                *old(highlighter),
                split_lines(text@),
                *syntaxes,
            ),
            *final(highlighter) == engine_fed(*old(highlighter), split_lines(text@), *syntaxes),
            fits(*final(highlighter), *syntaxes),
            final(self).is_code == old(self).is_code,
            final(self).iter == old(self).iter,
            *final(final(self).buf) == *final(old(self).buf),
    {
        let lines = text_lines(text);
        let mut i: usize = 0;
        assert(line_views(lines@).take(0) =~= Seq::<Seq<char>>::empty());
        while i < lines.len()
            invariant
                i <= lines.len(),
                fits(*highlighter, *syntaxes),
                line_views(lines@) == split_lines(text@),
                *highlighter == engine_fed(
                    *old(highlighter),
                    line_views(lines@).take(i as int),
                    *syntaxes,
                ),
                self.buf@ == code_written(
                    old(self).buf@,
                    *old(highlighter),
                    line_views(lines@).take(i as int),
                    *syntaxes,
                ),
                self.is_code == old(self).is_code,
                self.iter == old(self).iter,
                *final(self.buf) == *final(old(self).buf),
            decreases lines.len() - i,
        {
            let line = lines[i];
            let out = paint_line(highlighter, syntaxes, line);
            self.push_painted(out.as_str());
            proof {
                let before = line_views(lines@).take(i as int);
                let now = line_views(lines@).take(i + 1);
                assert(now.drop_last() =~= before);
                assert(now.last() == line@);
            }
            i += 1;
        }
        assert(line_views(lines@).take(lines.len() as int) =~= line_views(lines@));
    }

    /// Handles one event: a tag, literal content on the plain or on the
    /// code path, or a line break. Any other event changes nothing.
    pub fn event(
        &mut self,
        event: Event,
        highlighter: &mut Option<HighlightLines<'_>>,
        syntaxes: &SyntaxSet,
    )
        requires
            fits(*old(highlighter), *syntaxes),
        ensures
            final(self).state(*final(highlighter)) == step(
                old(self).state(*old(highlighter)),
                event,
                *syntaxes,
            ),
            fits(*final(highlighter), *syntaxes),
            final(self).iter == old(self).iter,
            *final(final(self).buf) == *final(old(self).buf),
    {
        proof {
            reveal_strlit("\n");
        }
        match event {
            Event::Start(tag) => {
                self.start_tag(tag);
            },
            Event::End(tag) => {
                self.end_tag(tag);
            },
            Event::Text(text) | Event::Html(text) | Event::InlineHtml(text) => {
                if !self.is_code {
                    self.buf.append(text.as_str());
                } else {
                    self.code_text(text.as_str(), highlighter, syntaxes);
                }
            },
            Event::SoftBreak => {
                self.buf.append("\n");
                assert(self.buf@ =~= old(self).buf@.push('\n'));
            },
            Event::HardBreak => {
                self.buf.append("\n");
                assert(self.buf@ =~= old(self).buf@.push('\n'));
            },
            _ => {},
        }
    }

    /// Renders every event still to come, in order, into the buffer,
    /// with the highlighter that it is handed: the code lines go through
    /// that one highlighter, in the order of the source.
    pub fn run_with(
        &mut self,
        highlighter: &mut Option<HighlightLines<'_>>,
        syntaxes: &SyntaxSet,
    )
        requires
            old(self).iter.obeys_prophetic_iter_laws(),
            old(self).iter.decrease() is Some,
            fits(*old(highlighter), *syntaxes),
        ensures
            final(self).iter.remaining().len() == 0,
            final(self).state(*final(highlighter)) == run_state(
                old(self).state(*old(highlighter)),
                old(self).iter.remaining(),
                *syntaxes,
            ),
            fits(*final(highlighter), *syntaxes),
            *final(final(self).buf) == *final(old(self).buf),
    {
        let ghost all = self.iter.remaining();
        let ghost mut seen: Seq<Event> = Seq::empty();
        assert(seen + self.iter.remaining() =~= all);
        loop
            invariant
                fits(*highlighter, *syntaxes),
                self.iter.obeys_prophetic_iter_laws(),
                self.iter.decrease() is Some,
                all == old(self).iter.remaining(),
                seen + self.iter.remaining() == all,
                self.state(*highlighter) == run_state(
                    old(self).state(*old(highlighter)),
                    seen,
                    *syntaxes,
                ),
                *final(self.buf) == *final(old(self).buf),
            ensures
                self.iter.remaining().len() == 0,
                seen == all,
                fits(*highlighter, *syntaxes),
                self.state(*highlighter) == run_state(
                    old(self).state(*old(highlighter)),
                    seen,
                    *syntaxes,
                ),
                *final(self.buf) == *final(old(self).buf),
            decreases self.iter.decrease()->0,
        {
            match self.iter.next() {
                Some(event) => {
                    self.event(event, highlighter, syntaxes);
                    proof {
                        let grown = seen.push(event);
                        assert(grown.drop_last() =~= seen);
                        assert(grown + self.iter.remaining() =~= all);
                        seen = grown;
                    }
                },
                None => {
                    assert(seen =~= all);
                    break ;
                },
            }
        }
    }

    /// Renders every event still to come, in order, into the buffer.
    ///
    /// The highlighting engine is set up once, with the grammars and
    /// themes that it ships: the highlighter is the one for the Rust
    /// grammar and the theme `base16-ocean.dark`, and where the engine has
    /// not both, code lines are written as they are. The buffer ends as
    /// the model states for the events, the grammars and the themes.
    pub fn run(&mut self)
        requires
            old(self).iter.obeys_prophetic_iter_laws(),
            old(self).iter.decrease() is Some,
        ensures
            final(self).iter.remaining().len() == 0,
            final(self).is_code == mode_after_all(old(self).is_code, old(self).iter.remaining()),
            exists|set: SyntaxSet, themes: ThemeSet|
                all_loadable(set) && final(self).buf@ == #[trigger] rendered(
                    old(self).buf@,
                    old(self).is_code,
                    old(self).iter.remaining(),
                    set,
                    themes,
                ),
            *final(final(self).buf) == *final(old(self).buf),
    {
        let syntaxes = SyntaxSet::load_defaults_nonewlines();
        let themes = ThemeSet::load_defaults();
        let mut highlighter = match (
            syntaxes.find_syntax_by_extension("rs"),
            theme_named(&themes, "base16-ocean.dark"),
        ) {
            (Some(syntax), Some(theme)) => Some(HighlightLines::new(syntax, theme)),
            _ => None,
        };
        let ghost engine = highlighter;
        assert(engine == engine_for(syntaxes, themes, "rs"@, "base16-ocean.dark"@));
        proof {
            lemma_mode_follows_events(
                old(self).state(engine),
                old(self).iter.remaining(),
                syntaxes,
            );
        }
        self.run_with(&mut highlighter, &syntaxes);
        assert(self.buf@ == rendered(
            old(self).buf@,
            old(self).is_code,
            old(self).iter.remaining(),
            syntaxes,
            themes,
        ));
    }
}

/// Renders the events of `iter` into `buf`, after what `buf` holds.
///
/// Text starts on the plain path. The buffer ends as the model states for
/// the events and for the grammars and themes that the highlighting
/// engine ships.
pub fn render<I: Iterator<Item = Event>>(buf: &mut String, iter: I)
    requires
        iter.obeys_prophetic_iter_laws(),
        iter.decrease() is Some,
    ensures
        exists|set: SyntaxSet, themes: ThemeSet|
            all_loadable(set) && final(buf)@ == #[trigger] rendered(
                old(buf)@,
                false,
                iter.remaining(),
                set,
                themes,
            ),
{
    let mut ctx = Ctx { iter: iter, buf: buf, is_code: false };
    ctx.run();
}

} // verus!
