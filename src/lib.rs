//! A human-friendly, colorful rendering engine for structured log events.
//!
//! Events carry a severity level, named fields, an optional message and a chain of
//! enclosing spans. They are rendered into terminal text, optionally styled with
//! ANSI escapes and wrapped to a width, with blank lines around multi-line output.
pub mod color;
pub mod event;
pub mod fields;
pub mod output_stream;
pub mod span_fields;
pub mod span_events;
pub mod span_info;
pub mod style;
pub mod wrapping;

pub use color::AnsiColor;
pub use color::ShouldColor;
pub use color::TextStyle;
pub use event::HumanEvent;
pub use event::RenderState;
pub use fields::HumanFields;
pub use output_stream::OutputStream;
pub use span_fields::StyledSpanFields;
pub use span_events::SpanEventKind;
pub use span_events::SpanEvents;
pub use span_info::SpanInfo;
pub use style::EventMetadata;
pub use style::LayerStyles;
pub use style::Level;
pub use style::ProvideStyle;
pub use style::Style;
pub use wrapping::TextWrapOptionsOwned;
pub use wrapping::WrapOptions;
