//! The `{name=value ...}` suffix that follows a span's name.
use itertools::Itertools;
use vstd::prelude::*;
use vstd::string::*;

use crate::color::colored;
use crate::color::balanced;
use crate::color::colored_text;
use crate::color::escape_free;
use crate::color::lemma_strip_balanced_append;
use crate::color::lemma_strip_colored;
use crate::color::lemma_strip_escape_free;
use crate::color::strip_ansi;
use crate::color::strips_to;
use crate::color::ShouldColor;
use crate::fields::fields_escape_free;
use crate::fields::recorded;
use crate::fields::HumanFields;
use crate::style::field_text;
use crate::style::Style;
use crate::wrapping::texts;

verus! {

/// A span's fields together with the style they are rendered in.
#[derive(Debug)]
pub struct StyledSpanFields {
    pub style: Style,
    pub fields: HumanFields,
    pub color: ShouldColor,
}

/// Texts joined with a separator between each two.
pub open spec fn joined(parts: Seq<Seq<char>>, sep: Seq<char>) -> Seq<char>
    decreases parts.len(),
{
    if parts.len() == 0 {
        Seq::<char>::empty()
    } else if parts.len() == 1 {
        parts[0]
    } else {
        joined(parts.drop_last(), sep) + sep + parts.last()
    }
}

/// Each field rendered as `name=value`, in order.
pub open spec fn field_texts(style: Style, color: ShouldColor, f: HumanFields) -> Seq<Seq<char>> {
    f.fields@.map_values(|p: (String, String)| field_text(style, color, p.0@, p.1@))
}

/// The suffix of a span: empty without fields, else the fields separated by spaces
/// between braces in the span-name style.
pub open spec fn span_fields_text(style: Style, color: ShouldColor, f: HumanFields) -> Seq<char> {
    if f.fields@.len() == 0 {
        Seq::<char>::empty()
    } else {
        colored_text(color, style.span_name, seq!['{']) + joined(field_texts(style, color, f), seq![' '])
            + colored_text(color, style.span_name, seq!['}'])
    }
}

/// Relies on `itertools::Itertools::join`: the parts with one space between each two.
#[verifier::external_body]
fn join_with_spaces(parts: &Vec<String>) -> (r: String)
    ensures
        r@ == joined(texts(parts@), seq![' ']),
{
    parts.iter().join(" ")
}

/// Renders each field as `name=value`.
pub fn render_fields(style: &Style, color: ShouldColor, fields: &HumanFields) -> (r: Vec<String>)
    ensures
        texts(r@) == field_texts(*style, color, *fields),
{
    let mut out: Vec<String> = Vec::new();
    let n = fields.fields.len();
    let mut i: usize = 0;
    while i < n
        invariant
            n == fields.fields@.len(),
            0 <= i <= n,
            texts(out@) == field_texts(*style, color, *fields).take(i as int),
        decreases n - i,
    {
        let s = style.style_field(color, fields.fields[i].0.as_str(), fields.fields[i].1.as_str());
        let ghost before = out@;
        out.push(s);
        assert(texts(out@) =~= texts(before).push(s@));
        assert(field_texts(*style, color, *fields).take(i + 1) =~= field_texts(*style, color, *fields).take(
            i as int,
        ).push(s@));
        i = i + 1;
    }
    assert(field_texts(*style, color, *fields).take(n as int) =~= field_texts(*style, color, *fields));
    out
}

impl StyledSpanFields {
    /// The span's `{...}` suffix.
    pub fn render(&self) -> (r: String)
        ensures
            r@ == span_fields_text(self.style, self.color, self.fields),
    {
        if self.fields.is_empty() {
            return String::new();
        }
        let parts = render_fields(&self.style, self.color, &self.fields);
        let mut r = colored(self.color, self.style.span_name, "{");
        let body = join_with_spaces(&parts);
        r.append(body.as_str());
        let close = colored(self.color, self.style.span_name, "}");
        r.append(close.as_str());
        proof {
            reveal_strlit("{");
            reveal_strlit("}");
        }
        r
    }
}

/// Rendering span fields is deterministic: two renders of the same fields under the
/// same style and color switch give the same suffix, whatever message was recorded.
pub proof fn lemma_span_fields_deterministic(a: StyledSpanFields, b: StyledSpanFields)
    requires
        a.style == b.style,
        a.color == b.color,
        a.fields.fields@ == b.fields.fields@,
    ensures
        span_fields_text(a.style, a.color, a.fields) == span_fields_text(b.style, b.color, b.fields),
{
    assert(field_texts(a.style, a.color, a.fields) =~= field_texts(b.style, b.color, b.fields));
}

/// A field rendered in color is balanced and strips to the field rendered without.
pub proof fn lemma_strip_field_text(style: Style, name: Seq<char>, value: Seq<char>)
    requires
        escape_free(name),
        escape_free(value),
    ensures
        balanced(field_text(style, ShouldColor::Always, name, value)),
        strip_ansi(field_text(style, ShouldColor::Always, name, value)) == field_text(
            style,
            ShouldColor::Never,
            name,
            value,
        ),
{
    let eq = seq!['='];
    assert(escape_free(eq));
    lemma_strip_escape_free(name);
    lemma_strip_escape_free(eq);
    lemma_strip_escape_free(value);
    lemma_strip_colored(style.field_name, name);
    lemma_strip_colored(style.field_value, eq);
    lemma_strip_colored(style.field_value, value);
    let a = colored_text(ShouldColor::Always, style.field_name, name);
    let b = colored_text(ShouldColor::Always, style.field_value, eq);
    let c = colored_text(ShouldColor::Always, style.field_value, value);
    lemma_strip_balanced_append(a, b);
    lemma_strip_balanced_append(a + b, c);
}

/// Fields rendered in color strip, one by one, to the fields rendered without.
pub proof fn lemma_strip_field_texts(style: Style, f: HumanFields)
    requires
        fields_escape_free(f),
    ensures
        strips_to(field_texts(style, ShouldColor::Always, f), field_texts(style, ShouldColor::Never, f)),
{
    assert forall|i: int| 0 <= i < f.fields@.len() implies balanced(
        #[trigger] field_texts(style, ShouldColor::Always, f)[i],
    ) && strip_ansi(field_texts(style, ShouldColor::Always, f)[i]) == field_texts(style, ShouldColor::Never, f)[i] by {
        lemma_strip_field_text(style, f.fields@[i].0@, f.fields@[i].1@);
    }
}

/// Joining texts that strip one by one strips to the join of the stripped texts.
pub proof fn lemma_strip_joined(a: Seq<Seq<char>>, n: Seq<Seq<char>>, sep: Seq<char>)
    requires
        strips_to(a, n),
        escape_free(sep),
    ensures
        balanced(joined(a, sep)),
        strip_ansi(joined(a, sep)) == joined(n, sep),
    decreases a.len(),
{
    lemma_strip_escape_free(sep);
    if a.len() == 0 {
        lemma_strip_escape_free(Seq::<char>::empty());
    } else if a.len() == 1 {
        assert(balanced(a[0]));
    } else {
        let (pa, pn) = (a.drop_last(), n.drop_last());
        assert(strips_to(pa, pn)) by {
            assert forall|i: int| 0 <= i < pa.len() implies balanced(#[trigger] pa[i]) && strip_ansi(pa[i]) == pn[i] by {
                assert(pa[i] == a[i]);
                assert(balanced(a[i]));
            }
        }
        lemma_strip_joined(pa, pn, sep);
        assert(balanced(a.last()) && strip_ansi(a.last()) == n.last()) by {
            assert(balanced(a[a.len() - 1]));
        }
        lemma_strip_balanced_append(joined(pa, sep), sep);
        lemma_strip_balanced_append(joined(pa, sep) + sep, a.last());
    }
}

/// Span fields rendered in color strip to the span fields rendered without.
pub proof fn lemma_strip_span_fields(style: Style, f: HumanFields)
    requires
        fields_escape_free(f),
    ensures
        balanced(span_fields_text(style, ShouldColor::Always, f)),
        strip_ansi(span_fields_text(style, ShouldColor::Always, f)) == span_fields_text(style, ShouldColor::Never, f),
{
    if f.fields@.len() == 0 {
        lemma_strip_escape_free(Seq::<char>::empty());
    } else {
        let open = seq!['{'];
        let close = seq!['}'];
        assert(escape_free(open));
        assert(escape_free(close));
        assert(escape_free(seq![' ']));
        lemma_strip_escape_free(open);
        lemma_strip_escape_free(close);
        lemma_strip_colored(style.span_name, open);
        lemma_strip_colored(style.span_name, close);
        lemma_strip_field_texts(style, f);
        lemma_strip_joined(field_texts(style, ShouldColor::Always, f), field_texts(style, ShouldColor::Never, f), seq![' ']);
        let a = colored_text(ShouldColor::Always, style.span_name, open);
        let b = joined(field_texts(style, ShouldColor::Always, f), seq![' ']);
        let c = colored_text(ShouldColor::Always, style.span_name, close);
        lemma_strip_balanced_append(a, b);
        lemma_strip_balanced_append(a + b, c);
    }
}

/// Recording a field on a span's fields makes a new suffix: the fields rendered
/// before, then the new one, between the braces.
pub proof fn lemma_span_fields_after_record(
    style: Style,
    color: ShouldColor,
    before: HumanFields,
    after: HumanFields,
    name: Seq<char>,
    value: String,
)
    requires
        !before.extract_message,
        recorded(before, after, name, value),
    ensures
        field_texts(style, color, after) == field_texts(style, color, before).push(
            field_text(style, color, name, value@),
        ),
        span_fields_text(style, color, after) == colored_text(color, style.span_name, seq!['{']) + joined(
            field_texts(style, color, before).push(field_text(style, color, name, value@)),
            seq![' '],
        ) + colored_text(color, style.span_name, seq!['}']),
{
    let n = before.fields@.len() as int;
    assert(after.fields@ =~= before.fields@.push(after.fields@.last())) by {
        assert forall|i: int| 0 <= i < n implies after.fields@[i] == before.fields@[i] by {
            assert(after.fields@.take(n)[i] == after.fields@[i]);
        }
    }
    assert(field_texts(style, color, after) =~= field_texts(style, color, before).push(
        field_text(style, color, name, value@),
    ));
}

} // verus!
