use mdterm::event::{Event, Tag};
use mdterm::renderer::{paint_line, render, Ctx};
use syntect::easy::HighlightLines;
use syntect::highlighting::ThemeSet;
use syntect::parsing::SyntaxSet;
use syntect::util::as_24_bit_terminal_escaped;

fn rendered(events: Vec<Event>) -> String {
    let mut buf = String::new();
    render(&mut buf, events.into_iter());
    buf
}

fn text(s: &str) -> Event {
    Event::Text(s.to_string())
}

fn block() -> Tag {
    Tag::CodeBlock(String::new())
}

/// The lines as one highlighter for Rust paints them, in order.
fn painted(lines: &[&str]) -> Vec<String> {
    let syntaxes = SyntaxSet::load_defaults_nonewlines();
    let themes = ThemeSet::load_defaults();
    let syntax = syntaxes.find_syntax_by_extension("rs").unwrap();
    let mut highlighter = HighlightLines::new(syntax, &themes.themes["base16-ocean.dark"]);
    let mut out = Vec::new();
    for line in lines {
        let spans = highlighter.highlight_line(line, &syntaxes).unwrap();
        out.push(as_24_bit_terminal_escaped(&spans[..], true));
    }
    out
}

#[test]
fn code_block_line_splitting() {
    let out = rendered(vec![
        Event::Start(block()),
        text("line1\nline2\n"),
        Event::End(block()),
    ]);
    let lines = painted(&["line1", "line2"]);
    assert_eq!(out, format!("{}\n{}\n\n", lines[0], lines[1]));
    let blob = painted(&["line1\nline2\n"]);
    assert_ne!(out, format!("{}\n\n", blob[0]));
    assert_eq!(out.matches('\n').count(), 3);
}

#[test]
fn code_lines_carry_colour_escapes_with_background() {
    let out = rendered(vec![Event::Start(block()), text("let x = 1;"), Event::End(block())]);
    assert_ne!(out, "let x = 1;\n\n");
    assert!(out.contains("\x1b[38;2;"));
    assert!(out.contains("\x1b[48;2;"));
    assert!(out.starts_with("\x1b[48;2;"));
    let lines = painted(&["let x = 1;"]);
    assert_eq!(out, format!("{}\n\n", lines[0]));
}

#[test]
fn last_partial_code_line_gets_its_line_feed() {
    let out = rendered(vec![Event::Start(block()), text("a\nb"), Event::End(block())]);
    let lines = painted(&["a", "b"]);
    assert_eq!(out, format!("{}\n{}\n\n", lines[0], lines[1]));
}

#[test]
fn carriage_return_before_a_line_feed_ends_the_line() {
    let out = rendered(vec![Event::Start(block()), text("a\r\nb\r\n"), Event::End(block())]);
    let lines = painted(&["a", "b"]);
    assert_eq!(out, format!("{}\n{}\n\n", lines[0], lines[1]));
}

#[test]
fn empty_code_line_leaves_no_blank_line() {
    let out = rendered(vec![Event::Start(block()), text("a\n\nb\n"), Event::End(block())]);
    let lines = painted(&["a", "", "b"]);
    assert_eq!(lines[1], "");
    assert_eq!(out, format!("{}\n{}\n\n", lines[0], lines[2]));
}

#[test]
fn empty_code_text_writes_nothing() {
    let out = rendered(vec![Event::Start(block()), text(""), Event::End(block())]);
    assert_eq!(out, "\n");
}

#[test]
fn lexer_state_runs_through_the_chunks_of_a_block() {
    let out = rendered(vec![
        Event::Start(block()),
        text("/* open\n"),
        text("still a comment */ let x = 1;\n"),
        Event::End(block()),
    ]);
    let lines = painted(&["/* open", "still a comment */ let x = 1;"]);
    assert_eq!(out, format!("{}\n{}\n\n", lines[0], lines[1]));
    let apart = painted(&["still a comment */ let x = 1;"]);
    assert_ne!(lines[1], apart[0]);
}

#[test]
fn code_block_starts_on_a_fresh_line() {
    let out = rendered(vec![text("intro"), Event::Start(block()), text("x"), Event::End(block())]);
    let lines = painted(&["x"]);
    assert_eq!(out, format!("intro\n{}\n\n", lines[0]));
}

#[test]
fn raw_markup_in_a_code_block_takes_the_code_path() {
    let out = rendered(vec![
        Event::Start(block()),
        Event::Html("fn f() {}".to_string()),
        Event::InlineHtml("fn g() {}".to_string()),
        Event::End(block()),
    ]);
    let lines = painted(&["fn f() {}", "fn g() {}"]);
    assert_eq!(out, format!("{}\n{}\n\n", lines[0], lines[1]));
}

#[test]
fn any_handled_end_tag_leaves_code_mode() {
    let ends = vec![
        Tag::Paragraph,
        Tag::Rule,
        Tag::BlockQuote,
        Tag::Code,
        Tag::List(None),
        Tag::Item,
        block(),
    ];
    for end in ends {
        let mut buf = String::new();
        render(&mut buf, vec![Event::Start(block()), Event::End(end), text("fn")].into_iter());
        assert!(buf.ends_with("fn"));
        assert!(!buf.contains('\x1b'));
    }
}

#[test]
fn other_end_tags_keep_code_mode() {
    let out = rendered(vec![
        Event::Start(block()),
        Event::End(Tag::Emphasis),
        Event::End(Tag::Link("d".to_string(), "t".to_string())),
        Event::Start(Tag::Paragraph),
        Event::SoftBreak,
        text("fn"),
    ]);
    let lines = painted(&["fn"]);
    assert_eq!(out, format!("\n{}\n", lines[0]));
}

#[test]
fn text_before_and_after_a_code_block_is_plain() {
    let out = rendered(vec![
        text("fn a"),
        Event::Start(block()),
        text("fn b"),
        Event::End(block()),
        text("fn c"),
    ]);
    let lines = painted(&["fn b"]);
    assert_eq!(out, format!("fn a\n{}\n\nfn c", lines[0]));
}

#[test]
fn each_render_starts_its_own_highlighter() {
    let first = rendered(vec![Event::Start(block()), text("/* open\n"), Event::End(block())]);
    let second = rendered(vec![Event::Start(block()), text("let x = 1;\n"), Event::End(block())]);
    assert_eq!(first, format!("{}\n\n", painted(&["/* open"])[0]));
    assert_eq!(second, format!("{}\n\n", painted(&["let x = 1;"])[0]));
}

#[test]
fn run_in_code_mode_paints_from_the_first_event() {
    let mut buf = String::from("x");
    {
        let mut ctx = Ctx { iter: vec![text("fn")].into_iter(), buf: &mut buf, is_code: true };
        ctx.run();
        assert!(ctx.is_code);
    }
    assert_eq!(buf, format!("x{}\n", painted(&["fn"])[0]));
}

#[test]
fn lone_carriage_return_at_the_end_stays_in_the_line() {
    let out = rendered(vec![Event::Start(block()), text("a\nb\r"), Event::End(block())]);
    let lines = painted(&["a", "b\r"]);
    assert_eq!(out, format!("{}\n{}\n\n", lines[0], lines[1]));
    assert!(out.contains('\r'));
}

#[test]
fn carriage_return_inside_a_line_stays() {
    let out = rendered(vec![Event::Start(block()), text("a\rb\n"), Event::End(block())]);
    let lines = painted(&["a\rb"]);
    assert_eq!(out, format!("{}\n\n", lines[0]));
}

#[test]
fn paint_line_hands_the_line_to_the_highlighter() {
    let syntaxes = SyntaxSet::load_defaults_nonewlines();
    let themes = ThemeSet::load_defaults();
    let syntax = syntaxes.find_syntax_by_extension("rs").unwrap();
    let mut highlighter = Some(HighlightLines::new(syntax, &themes.themes["base16-ocean.dark"]));
    let out = paint_line(&mut highlighter, &syntaxes, "let x = 1;");
    assert_eq!(out, painted(&["let x = 1;"])[0]);
    assert_ne!(out, painted(&[""])[0]);
    assert_ne!(out, "let x = 1;");
}

#[test]
fn paint_line_advances_the_highlighter() {
    let syntaxes = SyntaxSet::load_defaults_nonewlines();
    let themes = ThemeSet::load_defaults();
    let syntax = syntaxes.find_syntax_by_extension("rs").unwrap();
    let mut highlighter = Some(HighlightLines::new(syntax, &themes.themes["base16-ocean.dark"]));
    let lines = painted(&["/* open", "closed */ let x = 1;"]);
    assert_eq!(paint_line(&mut highlighter, &syntaxes, "/* open"), lines[0]);
    assert_eq!(paint_line(&mut highlighter, &syntaxes, "closed */ let x = 1;"), lines[1]);
    assert_ne!(lines[1], painted(&["closed */ let x = 1;"])[0]);
}

#[test]
fn paint_line_without_a_highlighter_returns_the_line() {
    let syntaxes = SyntaxSet::load_defaults_nonewlines();
    let mut highlighter: Option<HighlightLines> = None;
    assert_eq!(paint_line(&mut highlighter, &syntaxes, "let x = 1;"), "let x = 1;");
    assert!(highlighter.is_none());
}

#[test]
fn code_text_asks_the_highlighter_once_for_each_line() {
    let syntaxes = SyntaxSet::load_defaults_nonewlines();
    let themes = ThemeSet::load_defaults();
    let syntax = syntaxes.find_syntax_by_extension("rs").unwrap();
    let mut highlighter = Some(HighlightLines::new(syntax, &themes.themes["base16-ocean.dark"]));
    let lines = painted(&["line1", "/* line2", "line3 */ let x = 1;"]);
    let mut buf = String::new();
    {
        let mut ctx = Ctx { iter: Vec::<Event>::new().into_iter(), buf: &mut buf, is_code: true };
        ctx.code_text("line1\n/* line2\n", &mut highlighter, &syntaxes);
        assert!(ctx.is_code);
    }
    assert_eq!(buf, format!("{}\n{}\n", lines[0], lines[1]));
    // The highlighter has taken exactly these two lines, in this order.
    assert_eq!(paint_line(&mut highlighter, &syntaxes, "line3 */ let x = 1;"), lines[2]);
}

#[test]
fn code_text_without_a_highlighter_writes_the_lines() {
    let syntaxes = SyntaxSet::load_defaults_nonewlines();
    let mut highlighter: Option<HighlightLines> = None;
    let mut buf = String::from("x");
    {
        let mut ctx = Ctx { iter: Vec::<Event>::new().into_iter(), buf: &mut buf, is_code: true };
        ctx.code_text("a\r\nb", &mut highlighter, &syntaxes);
    }
    assert_eq!(buf, "xa\nb\n");
}

#[test]
fn event_takes_the_path_that_the_mode_names() {
    let syntaxes = SyntaxSet::load_defaults_nonewlines();
    let themes = ThemeSet::load_defaults();
    let syntax = syntaxes.find_syntax_by_extension("rs").unwrap();
    let mut highlighter = Some(HighlightLines::new(syntax, &themes.themes["base16-ocean.dark"]));
    let lines = painted(&["/* open", "closed */ fn"]);
    let mut buf = String::new();
    {
        let mut ctx = Ctx { iter: Vec::<Event>::new().into_iter(), buf: &mut buf, is_code: false };
        ctx.event(text("fn a"), &mut highlighter, &syntaxes);
        ctx.event(Event::Start(block()), &mut highlighter, &syntaxes);
        assert!(ctx.is_code);
        ctx.event(text("/* open"), &mut highlighter, &syntaxes);
        ctx.event(Event::SoftBreak, &mut highlighter, &syntaxes);
        ctx.event(Event::FootnoteReference("n".to_string()), &mut highlighter, &syntaxes);
        ctx.event(Event::Html("closed */ fn".to_string()), &mut highlighter, &syntaxes);
        ctx.event(Event::End(block()), &mut highlighter, &syntaxes);
        assert!(!ctx.is_code);
        ctx.event(Event::HardBreak, &mut highlighter, &syntaxes);
    }
    assert_eq!(buf, format!("fn a\n{}\n\n{}\n\n\n", lines[0], lines[1]));
}

#[test]
fn run_with_feeds_the_highlighter_it_is_handed() {
    let syntaxes = SyntaxSet::load_defaults_nonewlines();
    let themes = ThemeSet::load_defaults();
    let syntax = syntaxes.find_syntax_by_extension("rs").unwrap();
    let mut highlighter = Some(HighlightLines::new(syntax, &themes.themes["base16-ocean.dark"]));
    let lines = painted(&["/* open", "still open", "closed */ let x = 1;", "fn f() {}"]);
    assert_eq!(paint_line(&mut highlighter, &syntaxes, "/* open"), lines[0]);
    let events = vec![
        Event::Start(block()),
        text("still open\n"),
        Event::End(block()),
        text("plain"),
        Event::Start(block()),
        text("closed */ let x = 1;\n"),
        Event::End(block()),
    ];
    let mut buf = String::new();
    {
        let mut ctx = Ctx { iter: events.into_iter(), buf: &mut buf, is_code: false };
        ctx.run_with(&mut highlighter, &syntaxes);
        assert!(ctx.iter.next().is_none());
    }
    assert_eq!(buf, format!("{}\n\nplain\n{}\n\n", lines[1], lines[2]));
    assert_eq!(paint_line(&mut highlighter, &syntaxes, "fn f() {}"), lines[3]);
}

#[test]
fn run_with_without_a_highlighter_writes_code_as_it_is() {
    let syntaxes = SyntaxSet::load_defaults_nonewlines();
    let mut highlighter: Option<HighlightLines> = None;
    let events = vec![Event::Start(block()), text("a\nb\n"), Event::End(block())];
    let mut buf = String::new();
    {
        let mut ctx = Ctx { iter: events.into_iter(), buf: &mut buf, is_code: false };
        ctx.run_with(&mut highlighter, &syntaxes);
    }
    assert_eq!(buf, "a\nb\n\n");
}
