//! A one-line, many-segment terminal banner.
//!
//! A [`ColoredStream`] sits on a byte sink and keeps track of the background
//! colour that is active on it. Segments are written through it one after the
//! other; the stream emits the ANSI escape sequences that hand the colour of
//! one segment over to the next, and it does so lazily, so that a segment that
//! writes nothing leaves no trace.

pub mod color;
pub mod colored_stream;
pub mod laws;
pub mod prompt;
pub mod segments;
pub mod sink;
pub mod text;
pub mod wire;

pub use crate::color::Color;
pub use crate::colored_stream::ColoredStream;
pub use crate::prompt::Prompt;
pub use crate::segments::Segment;
pub use crate::sink::ColorableStream;
