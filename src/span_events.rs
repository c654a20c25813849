//! Which span lifecycle notices are rendered.
use vstd::prelude::*;

verus! {

/// A span lifecycle notice.
#[derive(Debug, Clone, Copy, PartialEq, Eq, Structural)]
pub enum SpanEventKind {
    /// The span was created.
    New,
    /// The span was entered.
    Enter,
    /// The span was exited.
    Exit,
    /// The span was closed.
    Close,
}

/// The set of span lifecycle notices to render.
#[derive(Debug, Clone, Copy, PartialEq, Eq, Structural)]
pub struct SpanEvents {
    pub new: bool,
    pub enter: bool,
    pub exit: bool,
    pub close: bool,
}

/// Whether a set holds a kind of notice.
pub open spec fn holds(events: SpanEvents, kind: SpanEventKind) -> bool {
    match kind {
        SpanEventKind::New => events.new,
        SpanEventKind::Enter => events.enter,
        SpanEventKind::Exit => events.exit,
        SpanEventKind::Close => events.close,
    }
}

/// The message that a notice is rendered with.
pub open spec fn notice_text(kind: SpanEventKind) -> Seq<char> {
    match kind {
        SpanEventKind::New => "new"@,
        SpanEventKind::Enter => "enter"@,
        SpanEventKind::Exit => "exit"@,
        SpanEventKind::Close => "close"@,
    }
}

impl SpanEvents {
    /// No notices.
    pub fn none() -> (r: SpanEvents)
        ensures
            forall|k: SpanEventKind| !holds(r, k),
    {
        SpanEvents { new: false, enter: false, exit: false, close: false }
    }

    /// Whether notices of `kind` are rendered.
    pub fn includes(&self, kind: SpanEventKind) -> (r: bool)
        ensures
            r == holds(*self, kind),
    {
        match kind {
            SpanEventKind::New => self.new,
            SpanEventKind::Enter => self.enter,
            SpanEventKind::Exit => self.exit,
            SpanEventKind::Close => self.close,
        }
    }
}

impl SpanEventKind {
    /// The message that a notice of this kind is rendered with.
    pub fn message(&self) -> (r: &'static str)
        ensures
            r@ == notice_text(*self),
    {
        match self {
            SpanEventKind::New => "new",
            SpanEventKind::Enter => "enter",
            SpanEventKind::Exit => "exit",
            SpanEventKind::Close => "close",
        }
    }
}

} // verus!
