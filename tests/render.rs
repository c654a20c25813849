use tracing_human_layer::color::colored;
use tracing_human_layer::wrapping::wrap_message;
use tracing_human_layer::wrapping::LineEnding;
use tracing_human_layer::wrapping::TextWrapWidth;
use tracing_human_layer::wrapping::WordSeparator;
use tracing_human_layer::wrapping::WordSplitter;
use tracing_human_layer::wrapping::WrapAlgorithm;
use tracing_human_layer::AnsiColor;
use tracing_human_layer::HumanEvent;
use tracing_human_layer::HumanFields;
use tracing_human_layer::LayerStyles;
use tracing_human_layer::EventMetadata;
use tracing_human_layer::Level;
use tracing_human_layer::ProvideStyle;
use tracing_human_layer::SpanEventKind;
use tracing_human_layer::SpanEvents;
use tracing_human_layer::RenderState;
use tracing_human_layer::ShouldColor;
use tracing_human_layer::SpanInfo;
use tracing_human_layer::Style;
use tracing_human_layer::StyledSpanFields;
use tracing_human_layer::TextStyle;
use tracing_human_layer::TextWrapOptionsOwned;

fn fields_of(message: &str, fields: &[(&str, &str)]) -> HumanFields {
    let mut f = HumanFields::new_event();
    f.record_field("message", message.to_owned());
    for (n, v) in fields {
        f.record_field(n, v.to_string());
    }
    f
}

fn event_with(level: Level, color: ShouldColor, width: Option<usize>, message: &str, fields: &[(&str, &str)]) -> HumanEvent {
    let styles = LayerStyles::new();
    HumanEvent {
        style: styles.for_level(level).clone(),
        textwrap_options: width.map(|w| TextWrapOptionsOwned::new().with_width(w).resolve()),
        color,
        spans: vec![],
        fields: fields_of(message, fields),
    }
}

fn strip_ansi(s: &str) -> String {
    let mut out = String::new();
    let mut in_escape = false;
    for c in s.chars() {
        if in_escape {
            if c == 'm' {
                in_escape = false;
            }
        } else if c == '\x1b' {
            in_escape = true;
        } else {
            out.push(c);
        }
    }
    out
}

fn span_fields(style: &Style, color: ShouldColor, fields: &[(&str, &str)]) -> String {
    let mut f = HumanFields::new_span();
    for (n, v) in fields {
        f.record_field(n, v.to_string());
    }
    StyledSpanFields { style: style.clone(), fields: f, color }.render()
}

#[test]
fn message_field_is_extracted_once() {
    let mut f = HumanFields::new_event();
    f.record_field("message", "first".to_owned());
    f.record_field("message", "second".to_owned());
    f.record_field("user", "puppy".to_owned());
    assert_eq!(f.message.as_deref(), Some("first"));
    assert_eq!(f.fields, vec![("message".to_owned(), "second".to_owned()), ("user".to_owned(), "puppy".to_owned())]);
    assert!(!f.is_empty());
}

#[test]
fn span_fields_keep_message_as_field() {
    let mut f = HumanFields::new_span();
    assert!(f.is_empty());
    f.record_field("message", "hi".to_owned());
    assert_eq!(f.message, None);
    assert_eq!(f.fields, vec![("message".to_owned(), "hi".to_owned())]);
}

#[test]
fn short_format_width_edges() {
    // message 5 + " a=bc" 5 = 10
    let f = fields_of("hello", &[("a", "bc")]);
    assert!(f.use_short_format(10));
    assert!(!f.use_short_format(9));
    let none = fields_of("hello", &[]);
    assert!(none.use_short_format(0));
    let two = fields_of("m", &[("a", "1"), ("b", "2")]);
    assert!(!two.use_short_format(1000));
}

#[test]
fn no_fields_fit_in_short_format() {
    let e = event_with(Level::Info, ShouldColor::Never, Some(80), "short message", &[]);
    let (text, long) = e.render(false);
    assert_eq!(text, "\u{2022} short message\n");
    assert!(!long);
}

#[test]
fn many_fields_use_long_format_at_any_width() {
    let e = event_with(Level::Info, ShouldColor::Never, Some(10_000), "m", &[("a", "1"), ("b", "2")]);
    let (text, _) = e.render(false);
    assert_eq!(text, "\u{2022} m\n  a=1\n  b=2\n");
}

#[test]
fn without_wrapping_fields_stay_inline_after_styled_indent() {
    let e = event_with(Level::Warn, ShouldColor::Always, None, "careful", &[("a", "1"), ("b", "2")]);
    let (text, long) = e.render(false);
    assert_eq!(
        text,
        "\x1b[33m\x1b[33m\u{26a0} \x1b[0mcareful \x1b[1ma\x1b[0m=1 \x1b[1mb\x1b[0m=2\x1b[0m\n"
    );
    assert!(!long);
}

#[test]
fn error_level_is_red() {
    let e = event_with(Level::Error, ShouldColor::Always, Some(80), "boom", &[]);
    let (text, _) = e.render(false);
    assert_eq!(text, "\x1b[31m\u{26a0} \x1b[0m\x1b[31mboom\x1b[0m\n");
}

#[test]
fn long_after_long_has_no_leading_blank() {
    let e = event_with(Level::Info, ShouldColor::Never, Some(10), "one two three four five six", &[]);
    let (after_short, long) = e.render(false);
    assert!(long);
    let (after_long, _) = e.render(true);
    assert!(after_short.starts_with('\n'));
    assert_eq!(after_short[1..], after_long[..]);
    assert!(after_long.ends_with("\n\n"));
}

#[test]
fn blank_lines_over_a_run() {
    let short = event_with(Level::Info, ShouldColor::Never, Some(80), "ok", &[]);
    let long = event_with(Level::Info, ShouldColor::Never, Some(10), "one two three four five six", &[]);
    let mut state = RenderState::new();
    let a = state.render(&long);
    assert!(state.last_event_was_long);
    let b = state.render(&long);
    let c = state.render(&short);
    assert!(!state.last_event_was_long);
    let d = state.render(&long);
    let body = "\u{2022} one two\n  three\n  four\n  five six\n";
    assert_eq!(a, format!("\n{body}\n"));
    assert_eq!(b, format!("{body}\n"));
    assert_eq!(c, "\u{2022} ok\n");
    assert_eq!(d, format!("\n{body}\n"));
}

#[test]
fn never_color_is_colored_output_stripped() {
    let fields = [("path", "/tmp/x")];
    for width in [None, Some(80)] {
        for level in [Level::Trace, Level::Debug, Level::Info, Level::Warn, Level::Error] {
            let styles = LayerStyles::new();
            let spans = |color| {
                vec![SpanInfo::new(
                    "outer".to_owned(),
                    "t".to_owned(),
                    span_fields(styles.for_level(level), color, &[("k", "v")]),
                )]
            };
            let mut plain = event_with(level, ShouldColor::Never, width, "hello there", &fields);
            plain.spans = spans(ShouldColor::Never);
            let mut painted = event_with(level, ShouldColor::Always, width, "hello there", &fields);
            painted.spans = spans(ShouldColor::Always);
            let (p, _) = plain.render(false);
            let (c, _) = painted.render(false);
            assert_ne!(p, c);
            assert_eq!(p, strip_ansi(&c));
        }
    }
}

#[test]
fn spans_are_listed_current_first() {
    let styles = LayerStyles::new();
    let style = styles.for_level(Level::Info);
    let mut e = event_with(Level::Info, ShouldColor::Never, Some(80), "inside", &[]);
    e.spans = vec![
        SpanInfo::new("my-span".to_owned(), "demo".to_owned(), span_fields(style, ShouldColor::Never, &[("path", "\"a\"")])),
        SpanInfo::new(
            "copy".to_owned(),
            "demo".to_owned(),
            span_fields(style, ShouldColor::Never, &[("path", "\"a\""), ("other_path", "\"b\"")]),
        ),
        SpanInfo::new("my-inner-span".to_owned(), "demo".to_owned(), span_fields(style, ShouldColor::Never, &[])),
    ];
    let (text, _) = e.render(false);
    assert_eq!(
        text,
        "\u{2022} inside\n  in my-inner-span\n  in copy{path=\"a\" other_path=\"b\"}\n  in my-span{path=\"a\"}\n"
    );
}

#[test]
fn colored_span_line() {
    let styles = LayerStyles::new();
    let style = styles.for_level(Level::Info);
    let mut e = event_with(Level::Info, ShouldColor::Always, Some(80), "x", &[]);
    e.spans = vec![SpanInfo::new("s".to_owned(), "t".to_owned(), span_fields(style, ShouldColor::Always, &[("a", "1")]))];
    let (text, _) = e.render(false);
    assert_eq!(text, "\x1b[32m\u{2022} \x1b[0mx\n  \x1b[2min \x1b[0ms{\x1b[1ma\x1b[0m=1}\n");
}

#[test]
fn span_fields_render() {
    let styles = LayerStyles::new();
    let style = styles.for_level(Level::Debug);
    assert_eq!(span_fields(style, ShouldColor::Always, &[]), "");
    assert_eq!(
        span_fields(style, ShouldColor::Always, &[("a", "1"), ("b", "2")]),
        "\x1b[2m{\x1b[0m\x1b[1;2ma\x1b[0m\x1b[2m=\x1b[0m\x1b[2m1\x1b[0m \x1b[1;2mb\x1b[0m\x1b[2m=\x1b[0m\x1b[2m2\x1b[0m\x1b[2m}\x1b[0m"
    );
    let once = span_fields(style, ShouldColor::Never, &[("a", "1"), ("b", "2")]);
    let twice = span_fields(style, ShouldColor::Never, &[("a", "1"), ("b", "2")]);
    assert_eq!(once, "{a=1 b=2}");
    assert_eq!(once, twice);
}

#[test]
fn paint_codes() {
    assert_eq!(colored(ShouldColor::Always, TextStyle::new().fg(AnsiColor::Red), "x"), "\x1b[31mx\x1b[0m");
    assert_eq!(colored(ShouldColor::Always, TextStyle::new().fg(AnsiColor::Cyan).bold().dimmed(), "x"), "\x1b[36;1;2mx\x1b[0m");
    assert_eq!(colored(ShouldColor::Always, TextStyle::new(), "x"), "x");
    assert_eq!(colored(ShouldColor::Never, TextStyle::new().bold(), "x"), "x");
}

#[test]
fn wrap_message_breaks_lines() {
    let opts = TextWrapOptionsOwned::new().with_width(10).resolve();
    let lines = wrap_message(Some(opts), "aaa bbb ccc ddd", "> ", "  ");
    assert_eq!(lines, vec!["> aaa bbb", "  ccc ddd"]);
    let one = wrap_message(None, "aaa bbb ccc ddd", "> ", "  ");
    assert_eq!(one, vec!["aaa bbb ccc ddd"]);
}

#[test]
fn wrap_options_builders() {
    let o = TextWrapOptionsOwned::default();
    assert_eq!(o.width, TextWrapWidth::TerminalWidth);
    assert_eq!(o.line_ending, LineEnding::LF);
    assert!(!o.break_words);
    let o = o
        .with_width(33)
        .with_line_ending(LineEnding::CRLF)
        .with_break_words(true)
        .with_wrap_algorithm(WrapAlgorithm::FirstFit)
        .with_word_separator(WordSeparator::UnicodeBreakProperties)
        .with_word_splitter(WordSplitter::HyphenSplitter);
    let r = o.resolve();
    assert_eq!(r.width, 33);
    assert_eq!(r.line_ending, LineEnding::CRLF);
    assert!(r.break_words);
    assert_eq!(r.wrap_algorithm, WrapAlgorithm::FirstFit);
    assert_eq!(r.word_separator, WordSeparator::UnicodeBreakProperties);
    assert_eq!(r.word_splitter, WordSplitter::HyphenSplitter);
    assert_eq!(o.with_termwidth().width, TextWrapWidth::TerminalWidth);
}

#[test]
fn style_builders() {
    let styles = LayerStyles::default();
    let s = styles.for_level(Level::Info).clone()
        .with_initial_indent_text("> ".to_owned())
        .with_subsequent_indent_text("| ".to_owned())
        .with_initial_indent(TextStyle::new())
        .with_message(TextStyle::new().bold())
        .with_field_name(TextStyle::new())
        .with_field_value(TextStyle::new())
        .with_span_name(TextStyle::new())
        .with_span_in(TextStyle::new());
    let e = HumanEvent {
        style: s,
        textwrap_options: None,
        color: ShouldColor::Always,
        spans: vec![SpanInfo::new("sp".to_owned(), "t".to_owned(), String::new())],
        fields: fields_of("hi", &[("a", "1")]),
    };
    let (text, _) = e.render(false);
    assert_eq!(text, "\x1b[1m> hi a=1\x1b[0m\n| in sp\n");
}

#[test]
fn event_records_fields() {
    let mut e = event_with(Level::Info, ShouldColor::Never, Some(80), "ignored", &[]);
    e.fields = HumanFields::new_event();
    e.record_field("message", "hello".to_owned());
    e.record_field("n", "1".to_owned());
    let (text, _) = e.render(false);
    assert_eq!(text, "\u{2022} hello n=1\n");
}

#[test]
fn rerecorded_span_fields_replace_the_suffix() {
    let styles = LayerStyles::new();
    let style = styles.for_level(Level::Info);
    let mut f = HumanFields::new_span();
    f.record_field("a", "1".to_owned());
    let first = StyledSpanFields { style: style.clone(), fields: f.clone(), color: ShouldColor::Never }.render();
    f.record_field("b", "2".to_owned());
    let second = StyledSpanFields { style: style.clone(), fields: f, color: ShouldColor::Never }.render();
    assert_eq!(first, "{a=1}");
    assert_eq!(second, "{a=1 b=2}");
}

#[test]
fn missing_message_renders_empty() {
    let mut e = event_with(Level::Info, ShouldColor::Never, Some(80), "", &[]);
    e.fields = HumanFields::new_event();
    let (text, long) = e.render(false);
    // textwrap writes no indent on a line without words
    assert_eq!(text, "\n");
    assert!(!long);
    e.textwrap_options = None;
    let (text, _) = e.render(false);
    assert_eq!(text, "\u{2022} \n");
}

#[test]
fn default_provider_styles_by_level() {
    let styles = LayerStyles::new();
    for level in [Level::Trace, Level::Debug, Level::Info, Level::Warn, Level::Error] {
        let meta = EventMetadata { level, target: "demo".to_owned(), name: "ev".to_owned() };
        let s = styles.for_metadata(&meta);
        assert_eq!(s.initial_indent_text, styles.for_level(level).initial_indent_text);
        let e = HumanEvent {
            style: s,
            textwrap_options: None,
            color: ShouldColor::Always,
            spans: vec![],
            fields: fields_of("m", &[]),
        };
        let mut expected = event_with(level, ShouldColor::Always, None, "m", &[]);
        expected.spans = vec![];
        assert_eq!(e.render(false), expected.render(false));
    }
    let warn = styles.for_metadata(&EventMetadata { level: Level::Warn, target: String::new(), name: String::new() });
    assert_eq!(warn.initial_indent_text, "\u{26a0} ");
    assert_eq!(warn.message.fg, Some(AnsiColor::Yellow));
}

#[test]
fn span_event_gate() {
    let none = SpanEvents::none();
    let some = SpanEvents { new: true, enter: false, exit: true, close: false };
    for kind in [SpanEventKind::New, SpanEventKind::Enter, SpanEventKind::Exit, SpanEventKind::Close] {
        assert!(!none.includes(kind));
    }
    assert!(some.includes(SpanEventKind::New));
    assert!(!some.includes(SpanEventKind::Enter));
    assert!(some.includes(SpanEventKind::Exit));
    assert!(!some.includes(SpanEventKind::Close));
    assert_eq!(SpanEventKind::New.message(), "new");
    assert_eq!(SpanEventKind::Enter.message(), "enter");
    assert_eq!(SpanEventKind::Exit.message(), "exit");
    assert_eq!(SpanEventKind::Close.message(), "close");
}

#[test]
fn assemble_around_given_lines() {
    let mut e = event_with(Level::Info, ShouldColor::Never, Some(20), "ignored", &[("a", "1"), ("b", "2")]);
    e.spans = vec![SpanInfo::new("sp".to_owned(), "t".to_owned(), "{k=v}".to_owned())];
    let lines = vec!["first".to_owned(), "  second".to_owned()];
    let (text, long) = e.assemble(&lines, false);
    assert!(long);
    assert_eq!(text, "\nfirst\n  second\n  a=1\n  b=2\n  in sp{k=v}\n\n");
    let (text, _) = e.assemble(&lines, true);
    assert_eq!(text, "first\n  second\n  a=1\n  b=2\n  in sp{k=v}\n\n");
    let (one, long) = e.assemble(&vec!["only".to_owned()], false);
    assert!(!long);
    assert_eq!(one, "only\n  a=1\n  b=2\n  in sp{k=v}\n");
}

#[test]
fn styled_message_parts() {
    let e = event_with(Level::Warn, ShouldColor::Always, Some(80), "hi", &[("a", "1")]);
    assert!(e.uses_short_format());
    assert_eq!(e.styled_message(), "\x1b[33mhi \x1b[1ma\x1b[0m=1\x1b[0m");
    let e = event_with(Level::Warn, ShouldColor::Never, None, "hi", &[]);
    assert_eq!(e.styled_message(), "\u{26a0} hi");
}
