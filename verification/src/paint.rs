//! The syntax-highlighting engine, as far as the renderer uses it.
use syntect::easy::HighlightLines;
use syntect::highlighting::{Style, Theme, ThemeSet};
use syntect::parsing::{SyntaxReference, SyntaxSet};
use syntect::util::as_24_bit_terminal_escaped;
use vstd::prelude::*;

verus! {

/// `syntect::parsing::SyntaxSet`: a set of language grammars.
#[verifier::external_type_specification]
#[verifier::external_body]
pub struct ExSyntaxSet(SyntaxSet);

/// `syntect::parsing::SyntaxReference`: one grammar of a set.
#[verifier::external_type_specification]
#[verifier::external_body]
pub struct ExSyntaxReference(SyntaxReference);

/// `syntect::highlighting::ThemeSet`: colour themes by name.
#[verifier::external_type_specification]
#[verifier::external_body]
pub struct ExThemeSet(ThemeSet);

/// `syntect::highlighting::Theme`: one colour theme.
#[verifier::external_type_specification]
#[verifier::external_body]
pub struct ExTheme(Theme);

/// `syntect::highlighting::Style`: the colours and font style of a span.
#[verifier::external_type_specification]
#[verifier::external_body]
pub struct ExStyle(Style);

/// `syntect::easy::HighlightLines`: a highlighter that is fed one line
/// after the other and keeps the lexer state between them.
#[verifier::external_type_specification]
#[verifier::external_body]
pub struct ExHighlightLines<'a>(HighlightLines<'a>);

/// `syntect::Error`: why a line could not be highlighted.
#[verifier::external_type_specification]
#[verifier::external_body]
pub struct ExSyntectError(syntect::Error);

/// What `syntect::util::as_24_bit_terminal_escaped` makes of styled spans:
/// the text with ANSI 24-bit colour escapes, the background colour of
/// each span included when `bg` is set.
pub uninterp spec fn terminal_escaped(spans: Seq<(Style, Seq<char>)>, bg: bool) -> Seq<char>;

/// The grammars that a `SyntaxSet` holds.
pub uninterp spec fn grammars(set: SyntaxSet) -> Set<SyntaxReference>;

/// A grammar that a highlighter can be made for and run on without a
/// panic: it has the start context that `ParseState::new` looks up, its
/// stored contexts decode, and each of its patterns compiles under the
/// regex engine that the crate was built with.
pub uninterp spec fn loadable(syntax: SyntaxReference) -> bool;

/// What `SyntaxSet::find_syntax_by_extension` finds in `set` for
/// `extension`.
pub uninterp spec fn syntax_for(set: SyntaxSet, extension: Seq<char>) -> Option<SyntaxReference>;

/// What the map `themes` of a `ThemeSet` holds under `name`.
pub uninterp spec fn theme_for(themes: ThemeSet, name: Seq<char>) -> Option<Theme>;

/// The highlighter that `HighlightLines::new` makes for a grammar and a
/// theme: no line has gone through it yet.
pub uninterp spec fn highlighter_for(
    syntax: SyntaxReference,
    theme: Theme,
) -> HighlightLines<'static>;

/// The grammar that a `HighlightLines` was made for.
pub uninterp spec fn grammar_of(lines: HighlightLines<'_>) -> SyntaxReference;

/// What `HighlightLines::highlight_line` returns for `line`, in the state
/// `lines` and with the grammars of `set`: the styled spans, or `None`
/// where it fails.
pub uninterp spec fn spans_of(
    lines: HighlightLines<'_>,
    line: Seq<char>,
    set: SyntaxSet,
) -> Option<Seq<(Style, Seq<char>)>>;

/// The state in which `HighlightLines::highlight_line` leaves `lines`
/// when it is handed `line` with the grammars of `set`.
pub uninterp spec fn state_after(
    lines: HighlightLines<'_>,
    line: Seq<char>,
    set: SyntaxSet,
) -> HighlightLines<'_>;

/// Styled spans with each slice taken by its view.
pub open spec fn span_views(spans: Seq<(Style, &str)>) -> Seq<(Style, Seq<char>)> {
    spans.map_values(|span: (Style, &str)| (span.0, span.1@))
}

/// Every grammar of `set` is loadable.
pub open spec fn all_loadable(set: SyntaxSet) -> bool {
    forall|g: SyntaxReference| #[trigger] grammars(set).contains(g) ==> loadable(g)
}

/// `SyntaxSet::load_defaults_nonewlines` unpacks the grammars that the
/// engine ships, for lines without their terminator. The shipped dump is
/// the work of the engine's own loader, which gives every grammar its
/// start context and refuses a pattern that does not compile; the
/// engine's documentation holds its pure-Rust regex engine to be as
/// correct as the other on these grammars. On that ground every grammar
/// of the set counts as loadable. Nothing else is claimed of the set.
pub assume_specification[ SyntaxSet::load_defaults_nonewlines ]() -> (set: SyntaxSet)
    ensures
        forall|g: SyntaxReference| #[trigger] grammars(set).contains(g) ==> loadable(g),
;

/// `ThemeSet::load_defaults` unpacks the themes that the engine ships.
/// Nothing is claimed of the set.
pub assume_specification[ ThemeSet::load_defaults ]() -> ThemeSet
;

/// `SyntaxSet::find_syntax_by_extension` looks a grammar up by a file
/// extension. What it finds is one of the grammars of the set and a
/// function of the set and the extension alone; nothing is claimed of
/// whether it finds one.
pub assume_specification<'a>[ SyntaxSet::find_syntax_by_extension ](
    set: &'a SyntaxSet,
    extension: &str,
) -> (found: Option<&'a SyntaxReference>)
    ensures
        found matches Some(syntax) ==> grammars(*set).contains(*syntax) && syntax_for(
            *set,
            extension@,
        ) == Some(*syntax),
        found is None ==> syntax_for(*set, extension@) is None,
;

/// `HighlightLines::new` binds a highlighter to a grammar and a theme.
/// It looks up the grammar's start context and panics where there is
/// none, so the grammar must be loadable. The result is a function of
/// the grammar and the theme alone.
pub assume_specification<'a>[ HighlightLines::<'a>::new ](
    syntax: &SyntaxReference,
    theme: &'a Theme,
) -> (lines: HighlightLines<'a>)
    requires
        loadable(*syntax),
    ensures
        lines == highlighter_for(*syntax, *theme),
        grammar_of(lines) == *syntax,
;

/// `HighlightLines::highlight_line` cuts one line into styled spans and
/// advances the lexer state. The set must hold the highlighter's grammar
/// (with another it may panic) and its grammars must be loadable (a
/// pattern that does not compile panics at its first use). The spans and
/// the state after are functions of the state before, the line and the
/// set alone. Nothing is claimed of what the spans are, nor of when it
/// fails.
pub assume_specification<'a, 'b>[ HighlightLines::<'a>::highlight_line ](
    lines: &mut HighlightLines<'a>,
    line: &'b str,
    syntax_set: &SyntaxSet,
) -> (spans: Result<Vec<(Style, &'b str)>, syntect::Error>)
    requires
        all_loadable(*syntax_set),
        grammars(*syntax_set).contains(grammar_of(*old(lines))),
    ensures
        *final(lines) == state_after(*old(lines), line@, *syntax_set),
        grammar_of(*final(lines)) == grammar_of(*old(lines)),
        spans matches Ok(v) ==> spans_of(*old(lines), line@, *syntax_set) == Some(span_views(v@)),
        spans is Err ==> spans_of(*old(lines), line@, *syntax_set) is None,
;

/// `as_24_bit_terminal_escaped` is a function of the spans and of `bg`
/// alone: its result has the name `terminal_escaped`.
pub assume_specification[ as_24_bit_terminal_escaped ](v: &[(Style, &str)], bg: bool) -> (out:
    String)
    ensures
        out@ == terminal_escaped(span_views(v@), bg),
;

/// Looks `name` up in the public map `themes` of a `ThemeSet`, with
/// `BTreeMap::get`: the result is what the map holds under `name`.
#[verifier::external_body]
pub(crate) fn theme_named<'a>(themes: &'a ThemeSet, name: &str) -> (found: Option<&'a Theme>)
    ensures
        found matches Some(theme) ==> theme_for(*themes, name@) == Some(*theme),
        found is None ==> theme_for(*themes, name@) is None,
{
    themes.themes.get(name)
}

/// The highlighter that a render works with: the one for the grammar of
/// `extension` and the theme `theme`, or none where the sets lack
/// either.
pub open spec fn engine_for(
    set: SyntaxSet,
    themes: ThemeSet,
    extension: Seq<char>,
    theme: Seq<char>,
) -> Option<HighlightLines<'static>> {
    match (syntax_for(set, extension), theme_for(themes, theme)) {
        (Some(s), Some(t)) => Some(highlighter_for(s, t)),
        _ => None,
    }
}

/// Whether `engine` can be run with `set`: every grammar of the set is
/// loadable, and the highlighter, where there is one, was made for one
/// of them.
pub open spec fn fits(engine: Option<HighlightLines<'_>>, set: SyntaxSet) -> bool {
    &&& all_loadable(set)
    &&& engine matches Some(lines) ==> grammars(set).contains(grammar_of(lines))
}

/// The spans that `engine` gives for `line`: none where there is no
/// highlighter or it fails.
pub open spec fn engine_spans(
    engine: Option<HighlightLines<'_>>,
    line: Seq<char>,
    set: SyntaxSet,
) -> Option<Seq<(Style, Seq<char>)>> {
    match engine {
        Some(lines) => spans_of(lines, line, set),
        None => None,
    }
}

/// `engine` after it was handed `line`.
pub open spec fn engine_after(
    engine: Option<HighlightLines<'_>>,
    line: Seq<char>,
    set: SyntaxSet,
) -> Option<HighlightLines<'_>> {
    match engine {
        Some(lines) => Some(state_after(lines, line, set)),
        None => None,
    }
}

/// `engine` after it was handed each of `lines`, one at a time and in
/// order.
pub open spec fn engine_fed(
    engine: Option<HighlightLines<'_>>,
    lines: Seq<Seq<char>>,
    set: SyntaxSet,
) -> Option<HighlightLines<'_>>
    decreases lines.len(),
{
    if lines.len() == 0 {
        engine
    } else {
        engine_after(engine_fed(engine, lines.drop_last(), set), lines.last(), set)
    }
}

/// What is written for a code line: the escaped spans, background
/// included, where the engine gave some; the line itself where it gave
/// none.
pub open spec fn painted(line: Seq<char>, spans: Option<Seq<(Style, Seq<char>)>>) -> Seq<char> {
    match spans {
        Some(s) => terminal_escaped(s, true),
        None => line,
    }
}

/// Handing lines to the engine in two runs is handing it all of them in
/// one: the state runs through the lines in order.
pub proof fn lemma_engine_fed_in_runs(
    engine: Option<HighlightLines<'_>>,
    first: Seq<Seq<char>>,
    second: Seq<Seq<char>>,
    set: SyntaxSet,
)
    ensures
        engine_fed(engine_fed(engine, first, set), second, set) == engine_fed(
            engine,
            first + second,
            set,
        ),
    decreases second.len(),
{
    if second.len() == 0 {
        assert(first + second =~= first);
    } else {
        lemma_engine_fed_in_runs(engine, first, second.drop_last(), set);
        assert((first + second).drop_last() =~= first + second.drop_last());
        assert((first + second).last() == second.last());
    }
}

} // verus!
