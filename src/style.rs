//! Per-level visual parameters and the default style table.
use vstd::prelude::*;
use vstd::string::*;

use crate::color::colored;
use crate::color::colored_text;
use crate::color::AnsiColor;
use crate::color::ShouldColor;
use crate::color::TextStyle;

verus! {

/// The severity of an event, from least to most severe.
#[derive(Debug, Clone, Copy, PartialEq, Eq, Structural, PartialOrd, Ord, Hash)]
pub enum Level {
    Trace,
    Debug,
    Info,
    Warn,
    Error,
}

/// What a style provider may key a style on.
#[derive(Debug, Clone)]
pub struct EventMetadata {
    /// The event's severity.
    pub level: Level,
    /// The event's target, typically a module path.
    pub target: String,
    /// The event's or span's name.
    pub name: String,
}

/// Supplies the style for an event.
pub trait ProvideStyle {
    /// The style that this provider gives for the given metadata.
    spec fn provided_style(&self, metadata: EventMetadata) -> Style;

    /// The style for an event with the given metadata.
    fn for_metadata(&self, metadata: &EventMetadata) -> (r: Style)
        ensures
            r == self.provided_style(*metadata),
    ;
}

/// The style for formatting an event.
#[derive(Debug, Clone)]
pub struct Style {
    /// Text before the first line of a message.
    pub initial_indent_text: String,
    /// Text before every later line.
    pub subsequent_indent_text: String,
    /// Style of the first-line indent text.
    pub initial_indent: TextStyle,
    /// Style of the message.
    pub message: TextStyle,
    /// Style of field names.
    pub field_name: TextStyle,
    /// Style of field values and of the `=` between name and value.
    pub field_value: TextStyle,
    /// Style of span names and of the braces around a span's fields.
    pub span_name: TextStyle,
    /// Style of the word `in` before a span.
    pub span_in: TextStyle,
}

/// One field as `name=value`: the name in the field-name style, `=` and the value
/// in the field-value style.
pub open spec fn field_text(style: Style, color: ShouldColor, name: Seq<char>, value: Seq<char>) -> Seq<char> {
    colored_text(color, style.field_name, name) + colored_text(color, style.field_value, seq!['='])
        + colored_text(color, style.field_value, value)
}

impl Style {
    /// Renders one field as `name=value`.
    pub fn style_field(&self, color: ShouldColor, name: &str, value: &str) -> (r: String)
        ensures
            r@ == field_text(*self, color, name@, value@),
    {
        let mut r = colored(color, self.field_name, name);
        let eq = colored(color, self.field_value, "=");
        r.append(eq.as_str());
        let v = colored(color, self.field_value, value);
        r.append(v.as_str());
        proof {
            reveal_strlit("=");
        }
        r
    }

    /// First-line indent text.
    pub fn with_initial_indent_text(self, initial_indent_text: String) -> (r: Style)
        ensures
            r == (Style { initial_indent_text, ..self }),
    {
        Style { initial_indent_text, ..self }
    }

    /// Subsequent indent text.
    pub fn with_subsequent_indent_text(self, subsequent_indent_text: String) -> (r: Style)
        ensures
            r == (Style { subsequent_indent_text, ..self }),
    {
        Style { subsequent_indent_text, ..self }
    }

    /// Style for first-line indent text.
    pub fn with_initial_indent(self, initial_indent: TextStyle) -> (r: Style)
        ensures
            r == (Style { initial_indent, ..self }),
    {
        Style { initial_indent, ..self }
    }

    /// Style for message text.
    pub fn with_message(self, message: TextStyle) -> (r: Style)
        ensures
            r == (Style { message, ..self }),
    {
        Style { message, ..self }
    }

    /// Style for field names.
    pub fn with_field_name(self, field_name: TextStyle) -> (r: Style)
        ensures
            r == (Style { field_name, ..self }),
    {
        Style { field_name, ..self }
    }

    /// Style for field values.
    pub fn with_field_value(self, field_value: TextStyle) -> (r: Style)
        ensures
            r == (Style { field_value, ..self }),
    {
        Style { field_value, ..self }
    }

    /// Style for span names.
    pub fn with_span_name(self, span_name: TextStyle) -> (r: Style)
        ensures
            r == (Style { span_name, ..self }),
    {
        Style { span_name, ..self }
    }

    /// Style for the word `in` when writing that an event is `in` a span.
    pub fn with_span_in(self, span_in: TextStyle) -> (r: Style)
        ensures
            r == (Style { span_in, ..self }),
    {
        Style { span_in, ..self }
    }
}

/// A style provider that stores one style per level.
#[derive(Debug)]
pub struct LayerStyles {
    pub trace: Style,
    pub debug: Style,
    pub info: Style,
    pub warn: Style,
    pub error: Style,
}

/// The first-line indent text of a level in the default table.
pub open spec fn level_indent_text(level: Level) -> Seq<char> {
    match level {
        Level::Trace => "TRACE "@,
        Level::Debug => "DEBUG "@,
        Level::Info => "\u{2022} "@,
        Level::Warn => "\u{26a0} "@,
        Level::Error => "\u{26a0} "@,
    }
}

/// The color of a level's indent in the default table.
pub open spec fn level_color(level: Level) -> AnsiColor {
    match level {
        Level::Trace => AnsiColor::Magenta,
        Level::Debug => AnsiColor::Blue,
        Level::Info => AnsiColor::Green,
        Level::Warn => AnsiColor::Yellow,
        Level::Error => AnsiColor::Red,
    }
}

/// Levels whose text is dimmed in the default table.
pub open spec fn is_quiet_level(level: Level) -> bool {
    level == Level::Trace || level == Level::Debug
}

/// The message style of a level in the default table.
pub open spec fn level_message_style(level: Level) -> TextStyle {
    match level {
        Level::Trace => TextStyle { fg: None, bold: false, dimmed: true },
        Level::Debug => TextStyle { fg: None, bold: false, dimmed: true },
        Level::Info => TextStyle { fg: None, bold: false, dimmed: false },
        Level::Warn => TextStyle { fg: Some(AnsiColor::Yellow), bold: false, dimmed: false },
        Level::Error => TextStyle { fg: Some(AnsiColor::Red), bold: false, dimmed: false },
    }
}

/// `s` is the default table's style for `level`.
pub open spec fn is_default_style(s: Style, level: Level) -> bool {
    let quiet = is_quiet_level(level);
    &&& s.initial_indent_text@ == level_indent_text(level)
    &&& s.subsequent_indent_text@ == "  "@
    &&& s.initial_indent == (TextStyle { fg: Some(level_color(level)), bold: false, dimmed: false })
    &&& s.message == level_message_style(level)
    &&& s.field_name == (TextStyle { fg: None, bold: true, dimmed: quiet })
    &&& s.field_value == (TextStyle { fg: None, bold: false, dimmed: quiet })
    &&& s.span_name == (TextStyle { fg: None, bold: false, dimmed: quiet })
    &&& s.span_in == (TextStyle { fg: None, bold: false, dimmed: true })
}

/// The style that a table holds for a level.
pub open spec fn style_of(styles: LayerStyles, level: Level) -> Style {
    match level {
        Level::Trace => styles.trace,
        Level::Debug => styles.debug,
        Level::Info => styles.info,
        Level::Warn => styles.warn,
        Level::Error => styles.error,
    }
}

fn level_style(indent: &str, color: AnsiColor, message: TextStyle, quiet: bool) -> (r: Style)
    ensures
        r.initial_indent_text@ == indent@,
        r.subsequent_indent_text@ == "  "@,
        r.initial_indent == (TextStyle { fg: Some(color), bold: false, dimmed: false }),
        r.message == message,
        r.field_name == (TextStyle { fg: None, bold: true, dimmed: quiet }),
        r.field_value == (TextStyle { fg: None, bold: false, dimmed: quiet }),
        r.span_name == (TextStyle { fg: None, bold: false, dimmed: quiet }),
        r.span_in == (TextStyle { fg: None, bold: false, dimmed: true }),
{
    Style {
        initial_indent_text: String::from_str(indent),
        subsequent_indent_text: String::from_str("  "),
        initial_indent: TextStyle { fg: Some(color), bold: false, dimmed: false },
        message,
        field_name: TextStyle { fg: None, bold: true, dimmed: quiet },
        field_value: TextStyle { fg: None, bold: false, dimmed: quiet },
        span_name: TextStyle { fg: None, bold: false, dimmed: quiet },
        span_in: TextStyle { fg: None, bold: false, dimmed: true },
    }
}

impl LayerStyles {
    /// The default styles.
    pub fn new() -> (r: LayerStyles)
        ensures
            forall|level: Level| is_default_style(#[trigger] style_of(r, level), level),
    {
        let dim = TextStyle { fg: None, bold: false, dimmed: true };
        let plain = TextStyle { fg: None, bold: false, dimmed: false };
        let r = LayerStyles {
            trace: level_style("TRACE ", AnsiColor::Magenta, dim, true),
            debug: level_style("DEBUG ", AnsiColor::Blue, dim, true),
            info: level_style("\u{2022} ", AnsiColor::Green, plain, false),
            warn: level_style("\u{26a0} ", AnsiColor::Yellow, TextStyle { fg: Some(AnsiColor::Yellow), ..plain }, false),
            error: level_style("\u{26a0} ", AnsiColor::Red, TextStyle { fg: Some(AnsiColor::Red), ..plain }, false),
        };
        assert forall|level: Level| is_default_style(#[trigger] style_of(r, level), level) by {
            match level {
                Level::Trace => {},
                Level::Debug => {},
                Level::Info => {},
                Level::Warn => {},
                Level::Error => {},
            }
        }
        r
    }

    /// The style for a given level.
    pub fn for_level(&self, level: Level) -> (r: &Style)
        ensures
            *r == style_of(*self, level),
    {
        match level {
            Level::Trace => &self.trace,
            Level::Debug => &self.debug,
            Level::Info => &self.info,
            Level::Warn => &self.warn,
            Level::Error => &self.error,
        }
    }
}

/// A copy of a style.
pub fn clone_style(s: &Style) -> (r: Style)
    ensures
        r == *s,
{
    Style {
        initial_indent_text: s.initial_indent_text.clone(),
        subsequent_indent_text: s.subsequent_indent_text.clone(),
        initial_indent: s.initial_indent,
        message: s.message,
        field_name: s.field_name,
        field_value: s.field_value,
        span_name: s.span_name,
        span_in: s.span_in,
    }
}

impl ProvideStyle for LayerStyles {
    /// The style of the metadata's level.
    open spec fn provided_style(&self, metadata: EventMetadata) -> Style {
        style_of(*self, metadata.level)
    }

    fn for_metadata(&self, metadata: &EventMetadata) -> (r: Style) {
        clone_style(self.for_level(metadata.level))
    }
}

impl Default for LayerStyles {
    fn default() -> (r: LayerStyles)
        ensures
            forall|level: Level| is_default_style(#[trigger] style_of(r, level), level),
    {
        LayerStyles::new()
    }
}

} // verus!
