//! What an event shows of one enclosing span.
use vstd::prelude::*;

verus! {

/// One span in an event's ancestry.
#[derive(Debug)]
pub struct SpanInfo {
    /// The span's name.
    pub name: String,
    /// The span's target (typically the module name).
    pub target: String,
    /// The span's fields, already rendered as a `{...}` suffix.
    pub fields: String,
}

impl SpanInfo {
    /// A span with the given name, target and rendered fields.
    pub fn new(name: String, target: String, fields: String) -> (r: SpanInfo)
        ensures
            r.name == name,
            r.target == target,
            r.fields == fields,
    {
        SpanInfo { name, target, fields }
    }
}

} // verus!
