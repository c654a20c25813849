//! ANSI styling of text, switched on or off as a whole.
use vstd::prelude::*;
use vstd::string::*;

verus! {

/// Should we color a piece of output?
#[derive(Debug, Clone, Copy, PartialEq, Eq, Structural)]
pub enum ShouldColor {
    /// Always color the output.
    Always,
    /// Never color the output.
    Never,
}

/// One of the eight basic ANSI foreground colors.
#[derive(Debug, Clone, Copy, PartialEq, Eq, Structural)]
pub enum AnsiColor {
    Black,
    Red,
    Green,
    Yellow,
    Blue,
    Magenta,
    Cyan,
    White,
}

/// A text style: an optional foreground color, bold and dimmed emphasis.
#[derive(Debug, Clone, Copy)]
pub struct TextStyle {
    pub fg: Option<AnsiColor>,
    pub bold: bool,
    pub dimmed: bool,
}

/// The SGR parameter of a foreground color.
pub open spec fn fg_code(c: AnsiColor) -> Seq<char> {
    match c {
        AnsiColor::Black => seq!['3', '0'],
        AnsiColor::Red => seq!['3', '1'],
        AnsiColor::Green => seq!['3', '2'],
        AnsiColor::Yellow => seq!['3', '3'],
        AnsiColor::Blue => seq!['3', '4'],
        AnsiColor::Magenta => seq!['3', '5'],
        AnsiColor::Cyan => seq!['3', '6'],
        AnsiColor::White => seq!['3', '7'],
    }
}

/// Appends one SGR parameter to a `;`-separated list.
pub open spec fn sgr_push(params: Seq<char>, p: Seq<char>) -> Seq<char> {
    if params.len() == 0 {
        p
    } else {
        params + seq![';'] + p
    }
}

/// The SGR parameters of a style: color first, then bold (`1`), then dimmed (`2`).
pub open spec fn sgr_params(s: TextStyle) -> Seq<char> {
    let f = match s.fg {
        Some(c) => fg_code(c),
        None => Seq::<char>::empty(),
    };
    let b = if s.bold {
        sgr_push(f, seq!['1'])
    } else {
        f
    };
    if s.dimmed {
        sgr_push(b, seq!['2'])
    } else {
        b
    }
}

/// A style that changes nothing.
pub open spec fn is_plain(s: TextStyle) -> bool {
    s.fg.is_none() && !s.bold && !s.dimmed
}

/// The escape sequence that switches a style on.
pub open spec fn sgr_prefix(s: TextStyle) -> Seq<char> {
    seq!['\x1b', '['] + sgr_params(s) + seq!['m']
}

/// The escape sequence that resets all styling.
pub open spec fn sgr_reset() -> Seq<char> {
    seq!['\x1b', '[', '0', 'm']
}

/// Text under a style: unchanged for a plain style, else between the style's
/// escape sequence and a reset.
pub open spec fn painted(s: TextStyle, t: Seq<char>) -> Seq<char> {
    if is_plain(s) {
        t
    } else {
        sgr_prefix(s) + t + sgr_reset()
    }
}

/// Text under a style when coloring is on, the text itself when it is off.
pub open spec fn colored_text(color: ShouldColor, s: TextStyle, t: Seq<char>) -> Seq<char> {
    match color {
        ShouldColor::Always => painted(s, t),
        ShouldColor::Never => t,
    }
}

impl TextStyle {
    /// The plain style.
    pub fn new() -> (r: TextStyle)
        ensures
            is_plain(r),
    {
        TextStyle { fg: None, bold: false, dimmed: false }
    }

    /// The same style with the given foreground color.
    pub fn fg(self, c: AnsiColor) -> (r: TextStyle)
        ensures
            r == (TextStyle { fg: Some(c), ..self }),
    {
        TextStyle { fg: Some(c), ..self }
    }

    /// The same style, bold.
    pub fn bold(self) -> (r: TextStyle)
        ensures
            r == (TextStyle { bold: true, ..self }),
    {
        TextStyle { bold: true, ..self }
    }

    /// The same style, dimmed.
    pub fn dimmed(self) -> (r: TextStyle)
        ensures
            r == (TextStyle { dimmed: true, ..self }),
    {
        TextStyle { dimmed: true, ..self }
    }
}

/// Relies on `owo_colors::Style` (built with `new`, `color`, `bold`, `dimmed`) and the
/// `Display` of `Style::style`: `ESC[`, the SGR parameters (color, then `1` for bold,
/// then `2` for dimmed, `;`-separated), `m`, the text, then `ESC[0m`; a plain style
/// writes the text alone.
#[verifier::external_body]
fn paint(style: TextStyle, text: &str) -> (r: String)
    ensures
        r@ == painted(style, text@),
{
    let mut s = owo_colors::Style::new();
    if let Some(c) = style.fg {
        s = s.color(match c {
            AnsiColor::Black => owo_colors::AnsiColors::Black, AnsiColor::Red => owo_colors::AnsiColors::Red,
            AnsiColor::Green => owo_colors::AnsiColors::Green, AnsiColor::Yellow => owo_colors::AnsiColors::Yellow,
            AnsiColor::Blue => owo_colors::AnsiColors::Blue, AnsiColor::Magenta => owo_colors::AnsiColors::Magenta,
            AnsiColor::Cyan => owo_colors::AnsiColors::Cyan, AnsiColor::White => owo_colors::AnsiColors::White,
        });
    }
    if style.bold { s = s.bold(); }
    if style.dimmed { s = s.dimmed(); }
    s.style(text).to_string()
}

/// Styles `text` when `color` is on, and copies it when it is off.
pub fn colored(color: ShouldColor, style: TextStyle, text: &str) -> (r: String)
    ensures
        r@ == colored_text(color, style, text@),
{
    match color {
        ShouldColor::Always => paint(style, text),
        ShouldColor::Never => String::from_str(text),
    }
}

/// Text with every escape sequence (from `ESC` up to and including the next `m`)
/// removed, reading from a state that is inside an escape sequence or not.
pub open spec fn strip_from(s: Seq<char>, in_escape: bool) -> Seq<char>
    decreases s.len(),
{
    if s.len() == 0 {
        Seq::<char>::empty()
    } else if in_escape {
        strip_from(s.drop_first(), s[0] != 'm')
    } else if s[0] == '\x1b' {
        strip_from(s.drop_first(), true)
    } else {
        seq![s[0]] + strip_from(s.drop_first(), false)
    }
}

/// Whether reading `s` from the given state ends inside an escape sequence.
pub open spec fn ends_in_escape(s: Seq<char>, in_escape: bool) -> bool
    decreases s.len(),
{
    if s.len() == 0 {
        in_escape
    } else if in_escape {
        ends_in_escape(s.drop_first(), s[0] != 'm')
    } else {
        ends_in_escape(s.drop_first(), s[0] == '\x1b')
    }
}

/// Text with its ANSI escape sequences removed.
pub open spec fn strip_ansi(s: Seq<char>) -> Seq<char> {
    strip_from(s, false)
}

/// Every escape sequence that the text opens, it also closes.
pub open spec fn balanced(s: Seq<char>) -> bool {
    !ends_in_escape(s, false)
}

/// Text that holds no `ESC` character.
pub open spec fn escape_free(s: Seq<char>) -> bool {
    forall|i: int| 0 <= i < s.len() ==> s[i] != '\x1b'
}

/// Stripping reads a concatenation piece by piece.
pub proof fn lemma_strip_append(a: Seq<char>, b: Seq<char>, e: bool)
    ensures
        strip_from(a + b, e) == strip_from(a, e) + strip_from(b, ends_in_escape(a, e)),
        ends_in_escape(a + b, e) == ends_in_escape(b, ends_in_escape(a, e)),
    decreases a.len(),
{
    if a.len() == 0 {
        assert(a + b =~= b);
    } else {
        assert((a + b).drop_first() =~= a.drop_first() + b);
        assert((a + b)[0] == a[0]);
        if e {
            lemma_strip_append(a.drop_first(), b, a[0] != 'm');
        } else if a[0] == '\x1b' {
            lemma_strip_append(a.drop_first(), b, true);
        } else {
            lemma_strip_append(a.drop_first(), b, false);
            assert(strip_from(a + b, e) =~= seq![a[0]] + strip_from(a.drop_first(), false) + strip_from(
                b,
                ends_in_escape(a, e),
            ));
        }
    }
}

/// Two balanced texts strip to the concatenation of their stripped texts.
pub proof fn lemma_strip_balanced_append(a: Seq<char>, b: Seq<char>)
    requires
        balanced(a),
        balanced(b),
    ensures
        strip_ansi(a + b) == strip_ansi(a) + strip_ansi(b),
        balanced(a + b),
{
    lemma_strip_append(a, b, false);
}

/// Text without `ESC` is unchanged by stripping, and balanced.
pub proof fn lemma_strip_escape_free(t: Seq<char>)
    requires
        escape_free(t),
    ensures
        strip_ansi(t) == t,
        balanced(t),
    decreases t.len(),
{
    if t.len() > 0 {
        assert(escape_free(t.drop_first()));
        lemma_strip_escape_free(t.drop_first());
        assert(t =~= seq![t[0]] + t.drop_first());
    }
}

proof fn lemma_strip_escape_body(p: Seq<char>)
    requires
        forall|i: int| 0 <= i < p.len() ==> p[i] != 'm',
    ensures
        strip_from(p + seq!['m'], true) == Seq::<char>::empty(),
        !ends_in_escape(p + seq!['m'], true),
    decreases p.len(),
{
    if p.len() == 0 {
        let m = seq!['m'];
        assert(p + m =~= m);
        assert(m.drop_first() =~= Seq::<char>::empty());
        assert(m[0] == 'm');
        assert(strip_from(m.drop_first(), false) == Seq::<char>::empty());
        assert(ends_in_escape(m.drop_first(), false) == false);
    } else {
        assert((p + seq!['m']).drop_first() =~= p.drop_first() + seq!['m']);
        assert((p + seq!['m'])[0] == p[0]);
        assert(p[0] != 'm');
        assert(forall|i: int| 0 <= i < p.drop_first().len() ==> p.drop_first()[i] == p[i + 1]);
        lemma_strip_escape_body(p.drop_first());
    }
}

/// A whole escape sequence strips to nothing and closes itself.
proof fn lemma_strip_escape(p: Seq<char>)
    requires
        forall|i: int| 0 <= i < p.len() ==> p[i] != 'm',
    ensures
        strip_ansi(seq!['\x1b'] + p + seq!['m']) == Seq::<char>::empty(),
        balanced(seq!['\x1b'] + p + seq!['m']),
{
    lemma_strip_escape_body(p);
    assert((seq!['\x1b'] + p + seq!['m']).drop_first() =~= p + seq!['m']);
}

proof fn lemma_sgr_params_no_m(s: TextStyle)
    ensures
        forall|i: int| 0 <= i < sgr_params(s).len() ==> sgr_params(s)[i] != 'm',
{
    let f = match s.fg {
        Some(c) => fg_code(c),
        None => Seq::<char>::empty(),
    };
    let b = if s.bold {
        sgr_push(f, seq!['1'])
    } else {
        f
    };
    assert(forall|i: int| 0 <= i < f.len() ==> f[i] != 'm');
    assert(forall|i: int| 0 <= i < b.len() ==> b[i] != 'm');
}

/// Painting a balanced text keeps it balanced and strips to the text stripped.
pub proof fn lemma_strip_painted(s: TextStyle, t: Seq<char>)
    requires
        balanced(t),
    ensures
        strip_ansi(painted(s, t)) == strip_ansi(t),
        balanced(painted(s, t)),
{
    if !is_plain(s) {
        let pre = sgr_prefix(s);
        lemma_sgr_params_no_m(s);
        assert(pre =~= seq!['\x1b'] + (seq!['['] + sgr_params(s)) + seq!['m']);
        lemma_strip_escape(seq!['['] + sgr_params(s));
        assert(sgr_reset() =~= seq!['\x1b'] + seq!['[', '0'] + seq!['m']);
        lemma_strip_escape(seq!['[', '0']);
        lemma_strip_balanced_append(pre, t);
        lemma_strip_balanced_append(pre + t, sgr_reset());
        assert(strip_ansi(pre) + strip_ansi(t) =~= strip_ansi(t));
        assert(strip_ansi(t) + strip_ansi(sgr_reset()) =~= strip_ansi(t));
    }
}

/// Coloring a balanced text and stripping it gives the text uncolored, stripped.
pub proof fn lemma_strip_colored(s: TextStyle, t: Seq<char>)
    requires
        balanced(t),
    ensures
        strip_ansi(colored_text(ShouldColor::Always, s, t)) == strip_ansi(colored_text(ShouldColor::Never, s, t)),
        balanced(colored_text(ShouldColor::Always, s, t)),
{
    lemma_strip_painted(s, t);
}

/// Each text of `a` is balanced and strips to the text of `n` at the same place.
pub open spec fn strips_to(a: Seq<Seq<char>>, n: Seq<Seq<char>>) -> bool {
    &&& a.len() == n.len()
    &&& forall|i: int| 0 <= i < a.len() ==> balanced(#[trigger] a[i]) && strip_ansi(a[i]) == n[i]
}

} // verus!
