//! Options for wrapping text, and the wrapping of one message into lines.
use vstd::prelude::*;
use vstd::string::*;

verus! {

/// The width to wrap text at.
#[derive(Debug, Clone, Copy, PartialEq, Eq, Structural)]
pub enum TextWrapWidth {
    /// The width of the terminal, or 80 columns where it cannot be told.
    TerminalWidth,
    /// A fixed number of columns.
    Fixed(usize),
}

/// The text that separates input lines.
#[derive(Debug, Clone, Copy, PartialEq, Eq, Structural)]
pub enum LineEnding {
    /// `\r\n`.
    CRLF,
    /// `\n`.
    LF,
}

/// How a line is broken into words.
#[derive(Debug, Clone, Copy, PartialEq, Eq, Structural)]
pub enum WordSeparator {
    /// Words end at ASCII spaces.
    AsciiSpace,
    /// Words end where the Unicode line breaking algorithm allows a break.
    UnicodeBreakProperties,
}

/// How a word too long for a line may be split.
#[derive(Debug, Clone, Copy, PartialEq, Eq, Structural)]
pub enum WordSplitter {
    /// Words are never split at hyphens.
    NoHyphenation,
    /// Words may be split after hyphens.
    HyphenSplitter,
}

/// How words are placed into lines.
#[derive(Debug, Clone, Copy, PartialEq, Eq, Structural)]
pub enum WrapAlgorithm {
    /// Each line takes as many words as fit.
    FirstFit,
    /// Lines are balanced with the default penalties.
    OptimalFit,
}

/// Owned options for wrapping text, with the indents left to the style of each event.
#[derive(Debug, Clone, Copy)]
pub struct TextWrapOptionsOwned {
    /// The width in columns at which text is wrapped.
    pub width: TextWrapWidth,
    /// Line ending used for breaking lines.
    pub line_ending: LineEnding,
    /// Whether words longer than a line may be broken.
    pub break_words: bool,
    /// Wrapping algorithm to use.
    pub wrap_algorithm: WrapAlgorithm,
    /// How lines are broken into words.
    pub word_separator: WordSeparator,
    /// How words may be split.
    pub word_splitter: WordSplitter,
}

/// Wrapping options with the width settled, as handed to one render.
#[derive(Debug, Clone, Copy)]
pub struct WrapOptions {
    /// The width in columns.
    pub width: usize,
    pub line_ending: LineEnding,
    pub break_words: bool,
    pub wrap_algorithm: WrapAlgorithm,
    pub word_separator: WordSeparator,
    pub word_splitter: WordSplitter,
}

/// The lines that `textwrap::wrap` makes of a text under the given settings.
pub uninterp spec fn wrap_result(
    text: Seq<char>,
    width: nat,
    initial_indent: Seq<char>,
    subsequent_indent: Seq<char>,
    break_words: bool,
    line_ending: LineEnding,
    wrap_algorithm: WrapAlgorithm,
    word_separator: WordSeparator,
    word_splitter: WordSplitter,
) -> Seq<Seq<char>>;

/// The lines of `text` under `opts`, with the given indents.
pub open spec fn wrapped(opts: WrapOptions, text: Seq<char>, initial_indent: Seq<char>, subsequent_indent: Seq<char>) -> Seq<Seq<char>> {
    wrap_result(
        text,
        opts.width as nat,
        initial_indent,
        subsequent_indent,
        opts.break_words,
        opts.line_ending,
        opts.wrap_algorithm,
        opts.word_separator,
        opts.word_splitter,
    )
}

/// The texts of a vector of strings.
pub open spec fn texts(v: Seq<String>) -> Seq<Seq<char>> {
    v.map_values(|s: String| s@)
}

/// Relies on `textwrap::wrap`, run with `textwrap::Options::new(width)` and these
/// settings (`OptimalFit` is `WrapAlgorithm::new_optimal_fit()`, default penalties):
/// the lines depend on the text and the settings alone.
#[verifier::external_body]
fn textwrap_lines(text: &str, opts: WrapOptions, initial_indent: &str, subsequent_indent: &str) -> (r: Vec<String>)
    ensures
        texts(r@) == wrap_result(
            text@,
            opts.width as nat,
            initial_indent@,
            subsequent_indent@,
            opts.break_words,
            opts.line_ending,
            opts.wrap_algorithm,
            opts.word_separator,
            opts.word_splitter,
        ),
{
    let o = textwrap::Options::new(opts.width).initial_indent(initial_indent).subsequent_indent(subsequent_indent)
        .break_words(opts.break_words)
        .line_ending(match opts.line_ending { LineEnding::CRLF => textwrap::LineEnding::CRLF, LineEnding::LF => textwrap::LineEnding::LF })
        .wrap_algorithm(match opts.wrap_algorithm { WrapAlgorithm::FirstFit => textwrap::WrapAlgorithm::FirstFit, WrapAlgorithm::OptimalFit => textwrap::WrapAlgorithm::new_optimal_fit() })
        .word_separator(match opts.word_separator { WordSeparator::AsciiSpace => textwrap::WordSeparator::AsciiSpace, WordSeparator::UnicodeBreakProperties => textwrap::WordSeparator::UnicodeBreakProperties })
        .word_splitter(match opts.word_splitter { WordSplitter::NoHyphenation => textwrap::WordSplitter::NoHyphenation, WordSplitter::HyphenSplitter => textwrap::WordSplitter::HyphenSplitter });
    textwrap::wrap(text, o).into_iter().map(|l| l.into_owned()).collect()
}

/// Relies on `textwrap::termwidth`: the terminal's width, or 80 where it cannot be told.
#[verifier::external_body]
fn terminal_width() -> (r: usize) {
    textwrap::termwidth()
}

/// The lines of a message: wrapped under `opts` where given, else the message as
/// one line.
pub open spec fn message_lines(opts: Option<WrapOptions>, text: Seq<char>, initial_indent: Seq<char>, subsequent_indent: Seq<char>) -> Seq<Seq<char>> {
    match opts {
        Some(o) => wrapped(o, text, initial_indent, subsequent_indent),
        None => seq![text],
    }
}

/// Wraps `text` into lines; without options, `text` is the one line.
pub fn wrap_message(opts: Option<WrapOptions>, text: &str, initial_indent: &str, subsequent_indent: &str) -> (r: Vec<String>)
    ensures
        texts(r@) == message_lines(opts, text@, initial_indent@, subsequent_indent@),
{
    match opts {
        Some(o) => textwrap_lines(text, o, initial_indent, subsequent_indent),
        None => {
            let mut v: Vec<String> = Vec::new();
            v.push(String::from_str(text));
            assert(texts(v@) =~= seq![text@]);
            v
        },
    }
}

impl TextWrapOptionsOwned {
    /// Options that wrap at the terminal's width, break lines on ASCII spaces, never
    /// split words at hyphens nor break long words, and balance lines.
    pub fn new() -> (r: TextWrapOptionsOwned)
        ensures
            r.width == TextWrapWidth::TerminalWidth,
            r.line_ending == LineEnding::LF,
            !r.break_words,
            r.wrap_algorithm == WrapAlgorithm::OptimalFit,
            r.word_separator == WordSeparator::AsciiSpace,
            r.word_splitter == WordSplitter::NoHyphenation,
    {
        TextWrapOptionsOwned {
            width: TextWrapWidth::TerminalWidth,
            line_ending: LineEnding::LF,
            break_words: false,
            wrap_algorithm: WrapAlgorithm::OptimalFit,
            word_separator: WordSeparator::AsciiSpace,
            word_splitter: WordSplitter::NoHyphenation,
        }
    }

    /// Use a given fixed width.
    pub fn with_width(self, width: usize) -> (r: TextWrapOptionsOwned)
        ensures
            r == (TextWrapOptionsOwned { width: TextWrapWidth::Fixed(width), ..self }),
    {
        TextWrapOptionsOwned { width: TextWrapWidth::Fixed(width), ..self }
    }

    /// Use the width of the terminal, queried each time options are resolved.
    pub fn with_termwidth(self) -> (r: TextWrapOptionsOwned)
        ensures
            r == (TextWrapOptionsOwned { width: TextWrapWidth::TerminalWidth, ..self }),
    {
        TextWrapOptionsOwned { width: TextWrapWidth::TerminalWidth, ..self }
    }

    /// Use the given line ending.
    pub fn with_line_ending(self, line_ending: LineEnding) -> (r: TextWrapOptionsOwned)
        ensures
            r == (TextWrapOptionsOwned { line_ending, ..self }),
    {
        TextWrapOptionsOwned { line_ending, ..self }
    }

    /// Allow or forbid breaking words longer than a line.
    pub fn with_break_words(self, break_words: bool) -> (r: TextWrapOptionsOwned)
        ensures
            r == (TextWrapOptionsOwned { break_words, ..self }),
    {
        TextWrapOptionsOwned { break_words, ..self }
    }

    /// Use the given wrapping algorithm.
    pub fn with_wrap_algorithm(self, wrap_algorithm: WrapAlgorithm) -> (r: TextWrapOptionsOwned)
        ensures
            r == (TextWrapOptionsOwned { wrap_algorithm, ..self }),
    {
        TextWrapOptionsOwned { wrap_algorithm, ..self }
    }

    /// Use the given word separator.
    pub fn with_word_separator(self, word_separator: WordSeparator) -> (r: TextWrapOptionsOwned)
        ensures
            r == (TextWrapOptionsOwned { word_separator, ..self }),
    {
        TextWrapOptionsOwned { word_separator, ..self }
    }

    /// Use the given word splitter.
    pub fn with_word_splitter(self, word_splitter: WordSplitter) -> (r: TextWrapOptionsOwned)
        ensures
            r == (TextWrapOptionsOwned { word_splitter, ..self }),
    {
        TextWrapOptionsOwned { word_splitter, ..self }
    }

    /// Settles the width: a fixed width as it is, the terminal's width as it is now.
    pub fn resolve(&self) -> (r: WrapOptions)
        ensures
            self.width matches TextWrapWidth::Fixed(w) ==> r.width == w,
            r.line_ending == self.line_ending,
            r.break_words == self.break_words,
            r.wrap_algorithm == self.wrap_algorithm,
            r.word_separator == self.word_separator,
            r.word_splitter == self.word_splitter,
    {
        let width = match self.width {
            TextWrapWidth::TerminalWidth => terminal_width(),
            TextWrapWidth::Fixed(w) => w,
        };
        WrapOptions {
            width,
            line_ending: self.line_ending,
            break_words: self.break_words,
            wrap_algorithm: self.wrap_algorithm,
            word_separator: self.word_separator,
            word_splitter: self.word_splitter,
        }
    }
}

impl Default for TextWrapOptionsOwned {
    fn default() -> (r: TextWrapOptionsOwned)
        ensures
            r.width == TextWrapWidth::TerminalWidth,
            r.line_ending == LineEnding::LF,
            !r.break_words,
            r.wrap_algorithm == WrapAlgorithm::OptimalFit,
            r.word_separator == WordSeparator::AsciiSpace,
            r.word_splitter == WordSplitter::NoHyphenation,
    {
        TextWrapOptionsOwned::new()
    }
}

} // verus!
