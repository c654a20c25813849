//! Rendering of one event: message, fields, enclosing spans and blank-line spacing.
use vstd::prelude::*;
use vstd::string::*;

use crate::color::colored;
use crate::color::balanced;
use crate::color::colored_text;
use crate::color::escape_free;
use crate::color::lemma_strip_balanced_append;
use crate::color::lemma_strip_colored;
use crate::color::lemma_strip_escape_free;
use crate::color::lemma_strip_painted;
use crate::color::strip_ansi;
use crate::color::strips_to;
use crate::color::ShouldColor;
use crate::fields::fields_escape_free;
use crate::fields::fits_short;
use crate::fields::message_text;
use crate::fields::recorded;
use crate::fields::HumanFields;
use crate::span_fields::field_texts;
use crate::span_fields::lemma_strip_field_texts;
use crate::span_fields::render_fields;
use crate::span_info::SpanInfo;
use crate::style::Style;
use crate::wrapping::message_lines;
use crate::wrapping::texts;
use crate::wrapping::wrap_message;
use crate::wrapping::WrapOptions;

verus! {

/// One event, ready to be rendered.
#[derive(Debug)]
pub struct HumanEvent {
    /// The style of the event's level.
    pub style: Style,
    /// Wrapping options; without them the message is not wrapped.
    pub textwrap_options: Option<WrapOptions>,
    /// Whether escapes are written.
    pub color: ShouldColor,
    /// Enclosing spans, in root-to-current (outside-in) order.
    pub spans: Vec<SpanInfo>,
    /// The event's fields and message.
    pub fields: HumanFields,
}

/// The texts one after another.
pub open spec fn concat(parts: Seq<Seq<char>>) -> Seq<char>
    decreases parts.len(),
{
    if parts.len() == 0 {
        Seq::<char>::empty()
    } else {
        concat(parts.drop_last()) + parts.last()
    }
}

/// Each text between a prefix and a suffix.
pub open spec fn decorate(parts: Seq<Seq<char>>, prefix: Seq<char>, suffix: Seq<char>) -> Seq<Seq<char>> {
    parts.map_values(|p: Seq<char>| prefix + p + suffix)
}

/// A text if a condition holds, else nothing.
pub open spec fn when(c: bool, t: Seq<char>) -> Seq<char> {
    if c {
        t
    } else {
        Seq::<char>::empty()
    }
}

/// The first-line indent in its style.
pub open spec fn indent_colored(e: HumanEvent) -> Seq<char> {
    colored_text(e.color, e.style.initial_indent, e.style.initial_indent_text@)
}

/// The message before fields are added: with wrapping the indent is left to the
/// wrapper, without it the styled indent leads.
pub open spec fn base_message(e: HumanEvent) -> Seq<char> {
    match e.textwrap_options {
        Some(_) => message_text(e.fields),
        None => indent_colored(e) + message_text(e.fields),
    }
}

/// Whether the fields go on the message line: always without wrapping, else where
/// the message and the one field fit the width.
pub open spec fn is_short(e: HumanEvent) -> bool {
    match e.textwrap_options {
        Some(o) => fits_short(e.fields, o.width as int),
        None => true,
    }
}

/// The message with the fields appended in the short format.
pub open spec fn full_message(e: HumanEvent) -> Seq<char> {
    if is_short(e) {
        base_message(e) + concat(decorate(field_texts(e.style, e.color, e.fields), seq![' '], Seq::empty()))
    } else {
        base_message(e)
    }
}

/// The lines of the styled message.
pub open spec fn event_lines(e: HumanEvent) -> Seq<Seq<char>> {
    message_lines(
        e.textwrap_options,
        colored_text(e.color, e.style.message, full_message(e)),
        indent_colored(e),
        e.style.subsequent_indent_text@,
    )
}

/// An event is long when its message takes more than one line.
pub open spec fn is_long(e: HumanEvent) -> bool {
    event_lines(e).len() > 1
}

/// The line that names one enclosing span.
pub open spec fn span_line(e: HumanEvent, s: SpanInfo) -> Seq<char> {
    e.style.subsequent_indent_text@ + colored_text(e.color, e.style.span_in, "in "@) + colored_text(
        e.color,
        e.style.span_name,
        s.name@,
    ) + s.fields@ + seq!['\n']
}

/// The span lines, current span first.
pub open spec fn span_lines(e: HumanEvent) -> Seq<Seq<char>> {
    let n = e.spans@.len();
    Seq::new(n, |k: int| span_line(e, e.spans@[n - 1 - k]))
}

/// Given message lines, then the fields one per line in the long format, then the
/// spans.
pub open spec fn body_from_lines(e: HumanEvent, lines: Seq<Seq<char>>) -> Seq<char> {
    concat(decorate(lines, Seq::empty(), seq!['\n'])) + when(
        !is_short(e),
        concat(decorate(field_texts(e.style, e.color, e.fields), e.style.subsequent_indent_text@, seq!['\n'])),
    ) + concat(span_lines(e))
}

/// The rendered event around given message lines: with more than one line it is
/// followed by a blank line, and preceded by one unless the event before it was
/// long too.
pub open spec fn text_from_lines(e: HumanEvent, lines: Seq<Seq<char>>, last_event_was_long: bool) -> Seq<char> {
    when(lines.len() > 1 && !last_event_was_long, seq!['\n']) + body_from_lines(e, lines) + when(
        lines.len() > 1,
        seq!['\n'],
    )
}

/// Message lines, then the fields one per line in the long format, then the spans.
pub open spec fn event_body(e: HumanEvent) -> Seq<char> {
    body_from_lines(e, event_lines(e))
}

/// The rendered event: a long event is followed by a blank line, and preceded by one
/// unless the event before it was long too.
pub open spec fn event_text(e: HumanEvent, last_event_was_long: bool) -> Seq<char> {
    text_from_lines(e, event_lines(e), last_event_was_long)
}

proof fn lemma_concat_push(parts: Seq<Seq<char>>, i: int)
    requires
        0 <= i < parts.len(),
    ensures
        concat(parts.take(i + 1)) == concat(parts.take(i)) + parts[i],
{
    assert(parts.take(i + 1).drop_last() =~= parts.take(i));
}

/// Appends each part between `prefix` and `suffix`.
fn append_all(out: &mut String, parts: &Vec<String>, prefix: &str, suffix: &str)
    ensures
        final(out)@ == old(out)@ + concat(decorate(texts(parts@), prefix@, suffix@)),
{
    let ghost start = out@;
    let ghost all = decorate(texts(parts@), prefix@, suffix@);
    let n = parts.len();
    let mut i: usize = 0;
    while i < n
        invariant
            n == parts@.len(),
            all == decorate(texts(parts@), prefix@, suffix@),
            0 <= i <= n,
            out@ == start + concat(all.take(i as int)),
        decreases n - i,
    {
        out.append(prefix);
        out.append(parts[i].as_str());
        out.append(suffix);
        proof {
            lemma_concat_push(all, i as int);
        }
        i = i + 1;
    }
    assert(all.take(n as int) =~= all);
}

impl HumanEvent {
    /// Records one field of the event.
    pub fn record_field(&mut self, name: &str, value: String)
        ensures
            final(self).style == old(self).style,
            final(self).textwrap_options == old(self).textwrap_options,
            final(self).color == old(self).color,
            final(self).spans == old(self).spans,
            recorded(old(self).fields, final(self).fields, name@, value),
    {
        self.fields.record_field(name, value);
    }

    /// Whether the fields go on the message line.
    pub fn uses_short_format(&self) -> (r: bool)
        ensures
            r == is_short(*self),
    {
        match &self.textwrap_options {
            Some(o) => self.fields.use_short_format(o.width),
            None => true,
        }
    }

    /// The message, with the styled indent where there is no wrapping and the fields
    /// in the short format, colored as a whole in the message style.
    pub fn styled_message(&self) -> (r: String)
        ensures
            r@ == colored_text(self.color, self.style.message, full_message(*self)),
    {
        let ghost e = *self;
        let mut message = match &self.textwrap_options {
            Some(_) => String::new(),
            None => colored(self.color, self.style.initial_indent, self.style.initial_indent_text.as_str()),
        };
        match &self.fields.message {
            Some(x) => message.append(x.as_str()),
            None => {},
        }
        assert(message@ =~= base_message(e));
        if self.uses_short_format() {
            let parts = render_fields(&self.style, self.color, &self.fields);
            append_all(&mut message, &parts, " ", "");
            proof {
                reveal_strlit(" ");
                reveal_strlit("");
                assert(" "@ =~= seq![' ']);
                assert(""@ =~= Seq::<char>::empty());
            }
        }
        assert(message@ == full_message(e));
        colored(self.color, self.style.message, message.as_str())
    }

    /// Lays out the event around its message lines: blank lines, the lines, the
    /// fields in the long format, the spans. Returns the text and whether there was
    /// more than one line.
    pub fn assemble(&self, lines: &Vec<String>, last_event_was_long: bool) -> (r: (String, bool))
        ensures
            r.0@ == text_from_lines(*self, texts(lines@), last_event_was_long),
            r.1 == (lines@.len() > 1),
    {
        let ghost e = *self;
        let ghost ls = texts(lines@);
        let short = self.uses_short_format();
        let add_blank = lines.len() > 1;
        let mut out = String::new();
        proof {
            reveal_strlit("\n");
            reveal_strlit("");
            reveal_strlit("in ");
            assert("\n"@ =~= seq!['\n']);
            assert(""@ =~= Seq::<char>::empty());
        }
        if add_blank && !last_event_was_long {
            out.append("\n");
        }
        assert(out@ == when(ls.len() > 1 && !last_event_was_long, seq!['\n']));
        let ghost head = out@;
        append_all(&mut out, lines, "", "\n");
        if !short {
            let parts = render_fields(&self.style, self.color, &self.fields);
            append_all(&mut out, &parts, self.style.subsequent_indent_text.as_str(), "\n");
        }
        let ghost mid = out@;
        assert(mid == head + concat(decorate(ls, Seq::empty(), seq!['\n'])) + when(
            !is_short(e),
            concat(decorate(field_texts(e.style, e.color, e.fields), e.style.subsequent_indent_text@, seq!['\n'])),
        ));
        let n = self.spans.len();
        let mut k: usize = 0;
        while k < n
            invariant
                e == *self,
                n == self.spans@.len(),
                0 <= k <= n,
                out@ == mid + concat(span_lines(e).take(k as int)),
            decreases n - k,
        {
            let span = &self.spans[n - 1 - k];
            out.append(self.style.subsequent_indent_text.as_str());
            let word = colored(self.color, self.style.span_in, "in ");
            out.append(word.as_str());
            let name = colored(self.color, self.style.span_name, span.name.as_str());
            out.append(name.as_str());
            out.append(span.fields.as_str());
            let ghost before = out@;
            out.append("\n");
            proof {
                reveal_strlit("\n");
                assert(out@ =~= before + seq!['\n']);
                lemma_concat_push(span_lines(e), k as int);
            }
            k = k + 1;
        }
        assert(span_lines(e).take(n as int) =~= span_lines(e));
        if add_blank {
            out.append("\n");
        }
        (out, add_blank)
    }

    /// Renders the event after an event that was long or not; returns the text and
    /// whether this event is long.
    pub fn render(&self, last_event_was_long: bool) -> (r: (String, bool))
        ensures
            r.0@ == event_text(*self, last_event_was_long),
            r.1 == is_long(*self),
    {
        let indent = colored(self.color, self.style.initial_indent, self.style.initial_indent_text.as_str());
        let message = self.styled_message();
        let lines = wrap_message(
            self.textwrap_options,
            message.as_str(),
            indent.as_str(),
            self.style.subsequent_indent_text.as_str(),
        );
        self.assemble(&lines, last_event_was_long)
    }
}

/// The one piece of state carried from one render to the next: whether the last
/// rendered event was long. A fresh state says it was not.
#[derive(Debug, Clone, Copy, PartialEq, Eq, Structural)]
pub struct RenderState {
    pub last_event_was_long: bool,
}

impl RenderState {
    /// The state before any render.
    pub fn new() -> (r: RenderState)
        ensures
            !r.last_event_was_long,
    {
        RenderState { last_event_was_long: false }
    }

    /// Renders `event` and records whether it was long.
    pub fn render(&mut self, event: &HumanEvent) -> (r: String)
        ensures
            r@ == event_text(*event, old(self).last_event_was_long),
            final(self).last_event_was_long == is_long(*event),
    {
        let (text, long) = event.render(self.last_event_was_long);
        self.last_event_was_long = long;
        text
    }
}

/// The texts of rendering `events` one after another on a fresh state.
pub open spec fn run_texts(events: Seq<HumanEvent>) -> Seq<Seq<char>>
    decreases events.len(),
{
    if events.len() == 0 {
        Seq::empty()
    } else {
        let prev = events.drop_last();
        let last_was_long = prev.len() > 0 && is_long(prev.last());
        run_texts(prev).push(event_text(events.last(), last_was_long))
    }
}

/// With no fields and a width at least the message's length, the short format is
/// used: nothing is moved to lines of its own.
pub proof fn lemma_no_fields_short_format(e: HumanEvent)
    requires
        e.fields.fields@.len() == 0,
        e.textwrap_options matches Some(o) && message_text(e.fields).len() <= o.width,
    ensures
        is_short(e),
        event_body(e) == concat(decorate(event_lines(e), Seq::empty(), seq!['\n'])) + concat(span_lines(e)),
{
    assert(when(!is_short(e), concat(decorate(field_texts(e.style, e.color, e.fields), e.style.subsequent_indent_text@, seq!['\n']))) =~= Seq::<char>::empty());
}

/// With wrapping on and two or more fields, the long format is used whatever the
/// width: the message line holds no field, and each field gets a line of its own.
pub proof fn lemma_many_fields_long_format(e: HumanEvent)
    requires
        e.fields.fields@.len() >= 2,
        e.textwrap_options is Some,
    ensures
        !is_short(e),
        full_message(e) == base_message(e),
        event_body(e) == concat(decorate(event_lines(e), Seq::empty(), seq!['\n'])) + concat(
            decorate(field_texts(e.style, e.color, e.fields), e.style.subsequent_indent_text@, seq!['\n']),
        ) + concat(span_lines(e)),
{
}

/// Over any run of renders on one fresh state, render `i` is preceded by a blank line
/// exactly when it is long and render `i - 1` (if any) was not, and followed by one
/// exactly when it is long.
pub proof fn lemma_blank_lines_in_run(events: Seq<HumanEvent>, i: int)
    requires
        0 <= i < events.len(),
    ensures
        run_texts(events).len() == events.len(),
        run_texts(events)[i] == when(
            is_long(events[i]) && !(i > 0 && is_long(events[i - 1])),
            seq!['\n'],
        ) + event_body(events[i]) + when(is_long(events[i]), seq!['\n']),
    decreases events.len(),
{
    lemma_run_len(events);
    if i < events.len() - 1 {
        let prev = events.drop_last();
        lemma_blank_lines_in_run(prev, i);
        assert(prev[i] == events[i]);
        if i > 0 {
            assert(prev[i - 1] == events[i - 1]);
        }
    }
}

proof fn lemma_run_len(events: Seq<HumanEvent>)
    ensures
        run_texts(events).len() == events.len(),
    decreases events.len(),
{
    if events.len() > 0 {
        lemma_run_len(events.drop_last());
    }
}

proof fn lemma_strip_concat(a: Seq<Seq<char>>, n: Seq<Seq<char>>)
    requires
        strips_to(a, n),
    ensures
        balanced(concat(a)),
        strip_ansi(concat(a)) == concat(n),
    decreases a.len(),
{
    if a.len() == 0 {
        lemma_strip_escape_free(Seq::<char>::empty());
    } else {
        let (pa, pn) = (a.drop_last(), n.drop_last());
        assert(strips_to(pa, pn)) by {
            assert forall|i: int| 0 <= i < pa.len() implies balanced(#[trigger] pa[i]) && strip_ansi(pa[i]) == pn[i] by {
                assert(pa[i] == a[i]);
                assert(balanced(a[i]));
            }
        }
        lemma_strip_concat(pa, pn);
        assert(balanced(a[a.len() - 1]));
        lemma_strip_balanced_append(concat(pa), a.last());
    }
}

proof fn lemma_strips_to_decorate(a: Seq<Seq<char>>, n: Seq<Seq<char>>, prefix: Seq<char>, suffix: Seq<char>)
    requires
        strips_to(a, n),
        escape_free(prefix),
        escape_free(suffix),
    ensures
        strips_to(decorate(a, prefix, suffix), decorate(n, prefix, suffix)),
{
    lemma_strip_escape_free(prefix);
    lemma_strip_escape_free(suffix);
    assert forall|i: int| 0 <= i < a.len() implies balanced(#[trigger] decorate(a, prefix, suffix)[i]) && strip_ansi(
        decorate(a, prefix, suffix)[i],
    ) == decorate(n, prefix, suffix)[i] by {
        assert(balanced(a[i]));
        lemma_strip_balanced_append(prefix, a[i]);
        lemma_strip_balanced_append(prefix + a[i], suffix);
    }
}

/// Events that differ only in the color switch, and in span field texts that strip
/// from the one to the other.
pub open spec fn color_twins(a: HumanEvent, n: HumanEvent) -> bool {
    &&& a.color == ShouldColor::Always
    &&& n.color == ShouldColor::Never
    &&& a.style == n.style
    &&& a.textwrap_options == n.textwrap_options
    &&& a.fields == n.fields
    &&& a.spans@.len() == n.spans@.len()
    &&& forall|i: int|
        0 <= i < a.spans@.len() ==> {
            &&& (#[trigger] a.spans@[i]).name == n.spans@[i].name
            &&& balanced(a.spans@[i].fields@)
            &&& strip_ansi(a.spans@[i].fields@) == n.spans@[i].fields@
        }
}

/// No text of the event, other than its span field texts, holds an `ESC` character.
pub open spec fn event_escape_free(e: HumanEvent) -> bool {
    &&& escape_free(e.style.initial_indent_text@)
    &&& escape_free(e.style.subsequent_indent_text@)
    &&& escape_free(message_text(e.fields))
    &&& fields_escape_free(e.fields)
    &&& forall|i: int| 0 <= i < e.spans@.len() ==> escape_free(#[trigger] e.spans@[i].name@)
}

proof fn lemma_strip_span_lines(a: HumanEvent, n: HumanEvent)
    requires
        color_twins(a, n),
        event_escape_free(a),
    ensures
        strips_to(span_lines(a), span_lines(n)),
{
    let len = a.spans@.len();
    let sub = a.style.subsequent_indent_text@;
    let word = "in "@;
    let nl = seq!['\n'];
    assert(escape_free(word)) by {
        reveal_strlit("in ");
    }
    assert(escape_free(nl));
    lemma_strip_escape_free(sub);
    lemma_strip_escape_free(word);
    lemma_strip_escape_free(nl);
    lemma_strip_colored(a.style.span_in, word);
    assert forall|k: int| 0 <= k < len implies balanced(#[trigger] span_lines(a)[k]) && strip_ansi(span_lines(a)[k])
        == span_lines(n)[k] by {
        let sa = a.spans@[len - 1 - k];
        let sn = n.spans@[len - 1 - k];
        assert(sa.name == sn.name);
        assert(escape_free(sa.name@));
        lemma_strip_escape_free(sa.name@);
        lemma_strip_colored(a.style.span_name, sa.name@);
        let p1 = colored_text(ShouldColor::Always, a.style.span_in, word);
        let p2 = colored_text(ShouldColor::Always, a.style.span_name, sa.name@);
        lemma_strip_balanced_append(sub, p1);
        lemma_strip_balanced_append(sub + p1, p2);
        lemma_strip_balanced_append(sub + p1 + p2, sa.fields@);
        lemma_strip_balanced_append(sub + p1 + p2 + sa.fields@, nl);
    }
}

/// Without wrapping, turning color off gives exactly the colored rendering with its
/// escape sequences removed, for events whose own texts hold no `ESC`.
pub proof fn lemma_uncolored_is_stripped(a: HumanEvent, n: HumanEvent, last_event_was_long: bool)
    requires
        color_twins(a, n),
        a.textwrap_options is None,
        event_escape_free(a),
    ensures
        strip_ansi(event_text(a, last_event_was_long)) == event_text(n, last_event_was_long),
{
    let fa = field_texts(a.style, ShouldColor::Always, a.fields);
    let fnv = field_texts(n.style, ShouldColor::Never, n.fields);
    let sp = seq![' '];
    let nl = seq!['\n'];
    let empty = Seq::<char>::empty();
    assert(escape_free(sp));
    assert(escape_free(nl));
    assert(escape_free(empty));
    lemma_strip_field_texts(a.style, a.fields);
    lemma_strips_to_decorate(fa, fnv, sp, empty);
    lemma_strip_concat(decorate(fa, sp, empty), decorate(fnv, sp, empty));
    let base = base_message(a);
    let msg = message_text(a.fields);
    lemma_strip_escape_free(a.style.initial_indent_text@);
    lemma_strip_escape_free(msg);
    lemma_strip_colored(a.style.initial_indent, a.style.initial_indent_text@);
    lemma_strip_balanced_append(indent_colored(a), msg);
    assert(base == indent_colored(a) + msg);
    assert(base_message(n) == a.style.initial_indent_text@ + msg);
    lemma_strip_balanced_append(base, concat(decorate(fa, sp, empty)));
    assert(full_message(n) == base_message(n) + concat(decorate(fnv, sp, empty)));
    let cm = colored_text(ShouldColor::Always, a.style.message, full_message(a));
    lemma_strip_painted(a.style.message, full_message(a));
    assert(event_lines(a) == seq![cm]);
    assert(event_lines(n) == seq![full_message(n)]);
    assert(strips_to(seq![cm], seq![full_message(n)]));
    lemma_strips_to_decorate(seq![cm], seq![full_message(n)], empty, nl);
    lemma_strip_concat(decorate(seq![cm], empty, nl), decorate(seq![full_message(n)], empty, nl));
    lemma_strip_span_lines(a, n);
    lemma_strip_concat(span_lines(a), span_lines(n));
    let la = concat(decorate(event_lines(a), empty, nl));
    lemma_strip_balanced_append(la, concat(span_lines(a)));
    assert(!is_long(a) && !is_long(n));
    assert(event_text(a, last_event_was_long) =~= la + concat(span_lines(a)));
    assert(event_text(n, last_event_was_long) =~= concat(decorate(event_lines(n), empty, nl)) + concat(span_lines(n)));
}

} // verus!
