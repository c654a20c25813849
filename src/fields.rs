//! The fields recorded for one event or one span.
use vstd::prelude::*;
use vstd::string::*;

use crate::color::escape_free;

verus! {

/// Ordered name/value fields, with the `message` field optionally held apart.
#[derive(Debug, Clone)]
pub struct HumanFields {
    /// While true, a field named `message` goes to `message` instead of `fields`.
    pub extract_message: bool,
    /// The extracted message, if any.
    pub message: Option<String>,
    /// The other fields, in the order they were recorded.
    pub fields: Vec<(String, String)>,
}

/// The name of the field that holds an event's message.
pub open spec fn message_field_name() -> Seq<char> {
    "message"@
}

/// The message of a field set, or the empty text where there is none.
pub open spec fn message_text(f: HumanFields) -> Seq<char> {
    match f.message {
        Some(m) => m@,
        None => Seq::<char>::empty(),
    }
}

/// No field name or value holds an `ESC` character.
pub open spec fn fields_escape_free(f: HumanFields) -> bool {
    forall|i: int|
        0 <= i < f.fields@.len() ==> escape_free(#[trigger] f.fields@[i].0@) && escape_free(f.fields@[i].1@)
}

/// The fields as pairs of texts.
pub open spec fn field_pairs(f: HumanFields) -> Seq<(Seq<char>, Seq<char>)> {
    f.fields@.map_values(|p: (String, String)| (p.0@, p.1@))
}

/// The length that one field adds to a line in the short format: ` name=value`.
pub open spec fn inline_len(name: Seq<char>, value: Seq<char>) -> int {
    (name.len() + value.len() + 2) as int
}

/// The short format (fields appended to the message line) is used when there is at
/// most one field and message plus field fit within `width`.
pub open spec fn fits_short(f: HumanFields, width: int) -> bool {
    f.fields@.len() == 0 || (f.fields@.len() == 1 && message_text(f).len() + inline_len(
        f.fields@[0].0@,
        f.fields@[0].1@,
    ) <= width)
}

fn text_eq(a: &str, b: &str) -> (r: bool)
    ensures
        r == (a@ == b@),
{
    let n = a.unicode_len();
    if n != b.unicode_len() {
        return false;
    }
    let mut i: usize = 0;
    while i < n
        invariant
            n == a@.len(),
            n == b@.len(),
            0 <= i <= n,
            a@.subrange(0, i as int) == b@.subrange(0, i as int),
        decreases n - i,
    {
        if a.get_char(i) != b.get_char(i) {
            return false;
        }
        assert(a@.subrange(0, i + 1) == a@.subrange(0, i as int).push(a@[i as int]));
        assert(b@.subrange(0, i + 1) == b@.subrange(0, i as int).push(b@[i as int]));
        i = i + 1;
    }
    assert(a@ == a@.subrange(0, n as int));
    assert(b@ == b@.subrange(0, n as int));
    true
}

/// `after` is `before` with the field `name` = `value` recorded: the first `message`
/// field, while extraction is on, becomes the message and turns extraction off; any
/// other field is appended.
pub open spec fn recorded(before: HumanFields, after: HumanFields, name: Seq<char>, value: String) -> bool {
    let is_message = before.extract_message && name == message_field_name();
    &&& is_message ==> {
        &&& !after.extract_message
        &&& after.message == Some(value)
        &&& after.fields@ == before.fields@
    }
    &&& !is_message ==> {
        &&& after.extract_message == before.extract_message
        &&& after.message == before.message
        &&& after.fields@.len() == before.fields@.len() + 1
        &&& after.fields@.take(before.fields@.len() as int) == before.fields@
        &&& after.fields@.last().0@ == name
        &&& after.fields@.last().1 == value
    }
}

impl HumanFields {
    /// Fields for an event: a `message` field becomes the message.
    pub fn new_event() -> (r: HumanFields)
        ensures
            r.extract_message,
            r.message.is_none(),
            r.fields@.len() == 0,
    {
        HumanFields { extract_message: true, message: None, fields: Vec::new() }
    }

    /// Fields for a span: every field stays a field.
    pub fn new_span() -> (r: HumanFields)
        ensures
            !r.extract_message,
            r.message.is_none(),
            r.fields@.len() == 0,
    {
        HumanFields { extract_message: false, message: None, fields: Vec::new() }
    }

    /// Records one field. The first `message` field, while extraction is on, becomes
    /// the message and turns extraction off; any other field is appended.
    pub fn record_field(&mut self, name: &str, value: String)
        ensures
            recorded(*old(self), *final(self), name@, value),
    {
        if self.extract_message && text_eq(name, "message") {
            proof {
                reveal_strlit("message");
            }
            self.extract_message = false;
            self.message = Some(value);
        } else {
            proof {
                reveal_strlit("message");
            }
            let ghost before = self.fields@;
            self.fields.push((String::from_str(name), value));
            assert(self.fields@.take(before.len() as int) =~= before);
        }
    }

    /// True when no field was recorded, the message aside.
    pub fn is_empty(&self) -> (r: bool)
        ensures
            r == (self.fields@.len() == 0),
    {
        self.fields.len() == 0
    }

    /// Whether the short format fits within `width` columns.
    pub fn use_short_format(&self, width: usize) -> (r: bool)
        ensures
            r == fits_short(*self, width as int),
    {
        let n = self.fields.len();
        if n == 0 {
            return true;
        }
        if n > 1 {
            return false;
        }
        let m: usize = match &self.message {
            Some(m) => m.unicode_len(),
            None => 0,
        };
        let name_len = self.fields[0].0.unicode_len();
        let value_len = self.fields[0].1.unicode_len();
        if m > width {
            return false;
        }
        let rest = width - m;
        if name_len > rest {
            return false;
        }
        let rest = rest - name_len;
        if value_len > rest {
            return false;
        }
        rest - value_len >= 2
    }
}

} // verus!
